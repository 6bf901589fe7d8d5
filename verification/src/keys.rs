//! Key translation: maps a semantic single-character key name to the platform
//! key code the OS hotkey facility understands.
//!
//! The whitelist is deliberate: exactly the 26 letters and 10 digits,
//! case-insensitive. No function keys, no punctuation, no partial matching.

use vstd::prelude::*;

verus! {

/// The platform key code for one of the keys the shortcut subsystem supports.
#[derive(Clone, Copy, PartialEq, Eq, Structural, Debug)]
pub enum KeyCode {
    KeyA,
    KeyB,
    KeyC,
    KeyD,
    KeyE,
    KeyF,
    KeyG,
    KeyH,
    KeyI,
    KeyJ,
    KeyK,
    KeyL,
    KeyM,
    KeyN,
    KeyO,
    KeyP,
    KeyQ,
    KeyR,
    KeyS,
    KeyT,
    KeyU,
    KeyV,
    KeyW,
    KeyX,
    KeyY,
    KeyZ,
    Digit0,
    Digit1,
    Digit2,
    Digit3,
    Digit4,
    Digit5,
    Digit6,
    Digit7,
    Digit8,
    Digit9,
}

/// A character names a supported key when it is an ASCII letter (either case)
/// or an ASCII digit.
pub open spec fn is_supported_key_char(c: char) -> bool {
    ('a' <= c && c <= 'z') || ('A' <= c && c <= 'Z') || ('0' <= c && c <= '9')
}

/// A key name is supported when it is a single supported character.
pub open spec fn is_supported_key_name(name: Seq<char>) -> bool {
    name.len() == 1 && is_supported_key_char(name[0])
}

/// The lower-case form of an ASCII letter; any other character is unchanged.
pub open spec fn ascii_lower(c: char) -> char {
    if 'A' <= c && c <= 'Z' {
        ((c as u32) + 32) as char
    } else {
        c
    }
}

/// The key code a supported character names, case-insensitively.
pub open spec fn spec_key_code(c: char) -> KeyCode
    recommends
        is_supported_key_char(c),
{
    if c == 'a' || c == 'A' {
        KeyCode::KeyA
    } else if c == 'b' || c == 'B' {
        KeyCode::KeyB
    } else if c == 'c' || c == 'C' {
        KeyCode::KeyC
    } else if c == 'd' || c == 'D' {
        KeyCode::KeyD
    } else if c == 'e' || c == 'E' {
        KeyCode::KeyE
    } else if c == 'f' || c == 'F' {
        KeyCode::KeyF
    } else if c == 'g' || c == 'G' {
        KeyCode::KeyG
    } else if c == 'h' || c == 'H' {
        KeyCode::KeyH
    } else if c == 'i' || c == 'I' {
        KeyCode::KeyI
    } else if c == 'j' || c == 'J' {
        KeyCode::KeyJ
    } else if c == 'k' || c == 'K' {
        KeyCode::KeyK
    } else if c == 'l' || c == 'L' {
        KeyCode::KeyL
    } else if c == 'm' || c == 'M' {
        KeyCode::KeyM
    } else if c == 'n' || c == 'N' {
        KeyCode::KeyN
    } else if c == 'o' || c == 'O' {
        KeyCode::KeyO
    } else if c == 'p' || c == 'P' {
        KeyCode::KeyP
    } else if c == 'q' || c == 'Q' {
        KeyCode::KeyQ
    } else if c == 'r' || c == 'R' {
        KeyCode::KeyR
    } else if c == 's' || c == 'S' {
        KeyCode::KeyS
    } else if c == 't' || c == 'T' {
        KeyCode::KeyT
    } else if c == 'u' || c == 'U' {
        KeyCode::KeyU
    } else if c == 'v' || c == 'V' {
        KeyCode::KeyV
    } else if c == 'w' || c == 'W' {
        KeyCode::KeyW
    } else if c == 'x' || c == 'X' {
        KeyCode::KeyX
    } else if c == 'y' || c == 'Y' {
        KeyCode::KeyY
    } else if c == 'z' || c == 'Z' {
        KeyCode::KeyZ
    } else if c == '0' {
        KeyCode::Digit0
    } else if c == '1' {
        KeyCode::Digit1
    } else if c == '2' {
        KeyCode::Digit2
    } else if c == '3' {
        KeyCode::Digit3
    } else if c == '4' {
        KeyCode::Digit4
    } else if c == '5' {
        KeyCode::Digit5
    } else if c == '6' {
        KeyCode::Digit6
    } else if c == '7' {
        KeyCode::Digit7
    } else if c == '8' {
        KeyCode::Digit8
    } else {
        KeyCode::Digit9
    }
}

/// Translate a key name to its platform key code. Succeeds exactly on the
/// supported names: a single letter (either case) or digit.
pub fn string_to_code(key: &str) -> (r: Option<KeyCode>)
    ensures
        r is Some <==> is_supported_key_name(key@),
        r is Some ==> r == Some(spec_key_code(key@[0])),
{
    if key.unicode_len() != 1 {
        return None;
    }
    let c = key.get_char(0);
    match c {
        'a' | 'A' => Some(KeyCode::KeyA),
        'b' | 'B' => Some(KeyCode::KeyB),
        'c' | 'C' => Some(KeyCode::KeyC),
        'd' | 'D' => Some(KeyCode::KeyD),
        'e' | 'E' => Some(KeyCode::KeyE),
        'f' | 'F' => Some(KeyCode::KeyF),
        'g' | 'G' => Some(KeyCode::KeyG),
        'h' | 'H' => Some(KeyCode::KeyH),
        'i' | 'I' => Some(KeyCode::KeyI),
        'j' | 'J' => Some(KeyCode::KeyJ),
        'k' | 'K' => Some(KeyCode::KeyK),
        'l' | 'L' => Some(KeyCode::KeyL),
        'm' | 'M' => Some(KeyCode::KeyM),
        'n' | 'N' => Some(KeyCode::KeyN),
        'o' | 'O' => Some(KeyCode::KeyO),
        'p' | 'P' => Some(KeyCode::KeyP),
        'q' | 'Q' => Some(KeyCode::KeyQ),
        'r' | 'R' => Some(KeyCode::KeyR),
        's' | 'S' => Some(KeyCode::KeyS),
        't' | 'T' => Some(KeyCode::KeyT),
        'u' | 'U' => Some(KeyCode::KeyU),
        'v' | 'V' => Some(KeyCode::KeyV),
        'w' | 'W' => Some(KeyCode::KeyW),
        'x' | 'X' => Some(KeyCode::KeyX),
        'y' | 'Y' => Some(KeyCode::KeyY),
        'z' | 'Z' => Some(KeyCode::KeyZ),
        '0' => Some(KeyCode::Digit0),
        '1' => Some(KeyCode::Digit1),
        '2' => Some(KeyCode::Digit2),
        '3' => Some(KeyCode::Digit3),
        '4' => Some(KeyCode::Digit4),
        '5' => Some(KeyCode::Digit5),
        '6' => Some(KeyCode::Digit6),
        '7' => Some(KeyCode::Digit7),
        '8' => Some(KeyCode::Digit8),
        '9' => Some(KeyCode::Digit9),
        _ => None,
    }
}

/// Translation is case-insensitive: a letter and its lower-case form name the
/// same key code, and lowering never leaves the whitelist.
pub proof fn lemma_key_code_case_insensitive(c: char)
    requires
        is_supported_key_char(c),
    ensures
        is_supported_key_char(ascii_lower(c)),
        spec_key_code(ascii_lower(c)) == spec_key_code(c),
{
}

} // verus!
