//! The persisted shortcut configuration record.
//!
//! The record is one small JSON object with exactly the fields `ctrlKey`,
//! `shiftKey`, `altKey` (booleans) and `key` (a single character, original
//! case). The library owns the file format: `encode_shortcut_config` produces
//! the canonical text (compact, keys in lexicographic order, exactly what the
//! writer has always produced), and `parse_shortcut_config` accepts a string
//! exactly when it is the canonical encoding of some valid record. A file
//! that is not canonical is reported as `ParseError`; callers treat that like
//! a missing file and fall back to the default record.

use vstd::prelude::*;

use crate::keys::is_supported_key_name;

verus! {

/// The raw persisted record: the modifier booleans and the key name exactly
/// as the user interface supplied them.
#[derive(Clone, PartialEq, Eq, Debug)]
pub struct ShortcutKey {
    pub ctrl_key: bool,
    pub shift_key: bool,
    pub alt_key: bool,
    pub key: String,
}

/// Mathematical model of a persisted record: the key name as a character
/// sequence.
#[verifier::ext_equal]
pub struct ShortcutKeyV {
    pub ctrl_key: bool,
    pub shift_key: bool,
    pub alt_key: bool,
    pub key: Seq<char>,
}

impl View for ShortcutKey {
    type V = ShortcutKeyV;

    open spec fn view(&self) -> ShortcutKeyV {
        ShortcutKeyV {
            ctrl_key: self.ctrl_key,
            shift_key: self.shift_key,
            alt_key: self.alt_key,
            key: self.key@,
        }
    }
}

/// A record is valid when its key names a supported key: a single letter or
/// digit.
pub open spec fn valid_config(c: ShortcutKeyV) -> bool {
    is_supported_key_name(c.key)
}

/// Why loading a configuration can fail: no file at all, or a file that is
/// not a canonical record. `IoError` is produced by the host layer when the
/// file could not be read in the first place.
#[derive(Clone, Copy, PartialEq, Eq, Structural, Debug)]
pub enum ConfigError {
    NotFound,
    ParseError,
    IoError,
}

/// The JSON text of one boolean.
pub open spec fn spec_bool_str(b: bool) -> Seq<char> {
    if b {
        "true"@
    } else {
        "false"@
    }
}

/// The canonical encoding of a record: a compact JSON object whose keys
/// appear in lexicographic order, as the writer has always produced it.
pub open spec fn spec_encode_config(c: ShortcutKeyV) -> Seq<char> {
    "{\"altKey\":"@ + spec_bool_str(c.alt_key) + ",\"ctrlKey\":"@ + spec_bool_str(c.ctrl_key)
        + ",\"key\":\""@ + c.key + "\",\"shiftKey\":"@ + spec_bool_str(c.shift_key) + "}"@
}

/// The configuration assumed on a fresh install: Primary+Shift and the key
/// "m".
pub open spec fn spec_default_config() -> ShortcutKeyV {
    ShortcutKeyV { ctrl_key: true, shift_key: true, alt_key: false, key: "m"@ }
}

/// The default record names a supported key.
pub proof fn lemma_default_config_valid()
    ensures
        valid_config(spec_default_config()),
{
    reveal_strlit("m");
}

/// The hard-coded default record: Primary+Shift+"m".
pub fn default_shortcut_key() -> (c: ShortcutKey)
    ensures
        c@ == spec_default_config(),
        valid_config(c@),
{
    proof {
        lemma_default_config_valid();
    }
    ShortcutKey { ctrl_key: true, shift_key: true, alt_key: false, key: String::from_str("m") }
}

fn bool_str(b: bool) -> (r: &'static str)
    ensures
        r@ == spec_bool_str(b),
{
    if b {
        "true"
    } else {
        "false"
    }
}

/// Produce the canonical text of a record, ready to be written to the
/// configuration file.
pub fn encode_shortcut_config(cfg: &ShortcutKey) -> (r: String)
    ensures
        r@ == spec_encode_config(cfg@),
{
    let mut r = String::from_str("{\"altKey\":");
    r.append(bool_str(cfg.alt_key));
    r.append(",\"ctrlKey\":");
    r.append(bool_str(cfg.ctrl_key));
    r.append(",\"key\":\"");
    r.append(cfg.key.as_str());
    r.append("\",\"shiftKey\":");
    r.append(bool_str(cfg.shift_key));
    r.append("}");
    r
}

/// Where each piece of a valid record sits in its encoding: the total length,
/// and the characters that reveal the three booleans and the key.
proof fn lemma_encode_fields(c: ShortcutKeyV)
    requires
        valid_config(c),
    ensures
        spec_bool_str(c.alt_key).len() == (if c.alt_key { 4int } else { 5int }),
        spec_bool_str(c.ctrl_key).len() == (if c.ctrl_key { 4int } else { 5int }),
        spec_bool_str(c.shift_key).len() == (if c.shift_key { 4int } else { 5int }),
        spec_encode_config(c).len() == 44 + spec_bool_str(c.alt_key).len() + spec_bool_str(
            c.ctrl_key,
        ).len() + spec_bool_str(c.shift_key).len(),
        spec_encode_config(c)[10] == (if c.alt_key { 't' } else { 'f' }),
        spec_encode_config(c)[21 + spec_bool_str(c.alt_key).len() as int] == (if c.ctrl_key {
            't'
        } else {
            'f'
        }),
        spec_encode_config(c)[29 + spec_bool_str(c.alt_key).len() as int + spec_bool_str(
            c.ctrl_key,
        ).len() as int] == c.key[0],
        spec_encode_config(c)[43 + spec_bool_str(c.alt_key).len() as int + spec_bool_str(
            c.ctrl_key,
        ).len() as int] == (if c.shift_key { 't' } else { 'f' }),
{
    reveal_strlit("{\"altKey\":");
    reveal_strlit(",\"ctrlKey\":");
    reveal_strlit(",\"key\":\"");
    reveal_strlit("\",\"shiftKey\":");
    reveal_strlit("}");
    reveal_strlit("true");
    reveal_strlit("false");
}

/// No two valid records share an encoding: the canonical text determines the
/// record.
pub proof fn lemma_encode_injective(c1: ShortcutKeyV, c2: ShortcutKeyV)
    requires
        valid_config(c1),
        valid_config(c2),
        spec_encode_config(c1) == spec_encode_config(c2),
    ensures
        c1 == c2,
{
    reveal_strlit("true");
    reveal_strlit("false");
    lemma_encode_fields(c1);
    lemma_encode_fields(c2);
    assert(c1.alt_key == c2.alt_key);
    assert(c1.ctrl_key == c2.ctrl_key);
    assert(c1.shift_key == c2.shift_key);
    assert(c1.key[0] == c2.key[0]);
    assert(c1.key =~= c2.key);
    assert(c1 =~= c2);
}

/// Attempt to read a record with the given modifier booleans: check the
/// length the booleans dictate, pull the key character out of its position,
/// and accept only if re-encoding reproduces the input exactly.
fn try_parse_with(s: &str, ctrl_key: bool, shift_key: bool, alt_key: bool) -> (r: Option<
    ShortcutKey,
>)
    ensures
        r matches Some(cfg) ==> valid_config(cfg@) && s@ == spec_encode_config(cfg@),
        forall|c: ShortcutKeyV|
            valid_config(c) && c.ctrl_key == ctrl_key && c.shift_key == shift_key && c.alt_key
                == alt_key && s@ == spec_encode_config(c) ==> r is Some,
{
    let alt_len: usize = if alt_key {
        4
    } else {
        5
    };
    let ctrl_len: usize = if ctrl_key {
        4
    } else {
        5
    };
    let shift_len: usize = if shift_key {
        4
    } else {
        5
    };
    let total: usize = 44 + alt_len + ctrl_len + shift_len;
    proof {
        assert forall|c: ShortcutKeyV|
            valid_config(c) && c.ctrl_key == ctrl_key && c.shift_key == shift_key && c.alt_key
                == alt_key implies spec_encode_config(c).len() == total && spec_encode_config(c)[29
            + alt_len as int + ctrl_len as int] == c.key[0] by {
            lemma_encode_fields(c);
        }
    }
    if s.unicode_len() != total {
        return None;
    }
    let keypos: usize = 29 + alt_len + ctrl_len;
    let k = s.get_char(keypos);
    let supported = ('a' <= k && k <= 'z') || ('A' <= k && k <= 'Z') || ('0' <= k && k <= '9');
    if !supported {
        return None;
    }
    let key_str = s.substring_char(keypos, keypos + 1);
    let cfg = ShortcutKey { ctrl_key, shift_key, alt_key, key: key_str.to_owned() };
    let enc = encode_shortcut_config(&cfg);
    let s_string = s.to_owned();
    if enc == s_string {
        Some(cfg)
    } else {
        proof {
            assert forall|c: ShortcutKeyV|
                valid_config(c) && c.ctrl_key == ctrl_key && c.shift_key == shift_key && c.alt_key
                    == alt_key && s@ == spec_encode_config(c) implies false by {
                lemma_encode_fields(c);
                assert(c.key =~= cfg@.key);
                assert(c =~= cfg@);
            }
        }
        None
    }
}

/// The position of a record's modifier combination in the order the parser
/// tries them.
spec fn combo_index(c: ShortcutKeyV) -> int {
    (if c.ctrl_key {
        4int
    } else {
        0int
    }) + (if c.shift_key {
        2int
    } else {
        0int
    }) + (if c.alt_key {
        1int
    } else {
        0int
    })
}

/// What a string means as a record: the unique valid record it canonically
/// encodes, if there is one.
pub open spec fn spec_parse_config(s: Seq<char>) -> Option<ShortcutKeyV> {
    if exists|c2: ShortcutKeyV| valid_config(c2) && s == spec_encode_config(c2) {
        Some(choose|c2: ShortcutKeyV| valid_config(c2) && s == spec_encode_config(c2))
    } else {
        None
    }
}

/// Round trip: every valid record reads back from its own encoding, so a
/// configuration that was saved is the one a later load yields.
pub proof fn lemma_config_round_trip(c: ShortcutKeyV)
    requires
        valid_config(c),
    ensures
        spec_parse_config(spec_encode_config(c)) == Some(c),
{
    let s = spec_encode_config(c);
    assert(valid_config(c) && s == spec_encode_config(c));
    assert(exists|c2: ShortcutKeyV| valid_config(c2) && s == spec_encode_config(c2));
    let c0 = choose|c2: ShortcutKeyV| valid_config(c2) && s == spec_encode_config(c2);
    lemma_encode_injective(c, c0);
}

/// Parse the configuration file's text. Succeeds exactly on the canonical
/// encoding of a valid record, and then returns that record: together with
/// `encode_shortcut_config` this says that every record written can be read
/// back unchanged.
pub fn parse_shortcut_config(s: &str) -> (r: Result<ShortcutKey, ConfigError>)
    ensures
        r matches Ok(cfg) ==> valid_config(cfg@) && s@ == spec_encode_config(cfg@),
        forall|c: ShortcutKeyV|
            valid_config(c) && s@ == spec_encode_config(c) ==> (r matches Ok(cfg) && cfg@ == c),
        r matches Err(e) ==> e == ConfigError::ParseError,
        r is Ok <==> spec_parse_config(s@) is Some,
        r matches Ok(cfg) ==> spec_parse_config(s@) == Some(cfg@),
{
    let mut i: usize = 0;
    while i < 8
        invariant
            i <= 8,
            forall|c: ShortcutKeyV|
                valid_config(c) && s@ == spec_encode_config(c) ==> combo_index(c) >= i,
        decreases 8 - i,
    {
        let ctrl_key = i == 4 || i == 5 || i == 6 || i == 7;
        let shift_key = i == 2 || i == 3 || i == 6 || i == 7;
        let alt_key = i == 1 || i == 3 || i == 5 || i == 7;
        if let Some(cfg) = try_parse_with(s, ctrl_key, shift_key, alt_key) {
            proof {
                assert forall|c: ShortcutKeyV|
                    valid_config(c) && s@ == spec_encode_config(c) implies cfg@ == c by {
                    lemma_encode_injective(cfg@, c);
                }
                assert(exists|c2: ShortcutKeyV|
                    valid_config(c2) && s@ == spec_encode_config(c2));
            }
            return Ok(cfg);
        }
        proof {
            assert forall|c: ShortcutKeyV|
                valid_config(c) && s@ == spec_encode_config(c) implies combo_index(c) >= i
                + 1 by {
                if combo_index(c) == i {
                    assert(c.ctrl_key == ctrl_key && c.shift_key == shift_key && c.alt_key
                        == alt_key);
                }
            }
        }
        i = i + 1;
    }
    proof {
        assert forall|c: ShortcutKeyV|
            valid_config(c) && s@ == spec_encode_config(c) implies false by {
            assert(combo_index(c) <= 7);
        }
    }
    Err(ConfigError::ParseError)
}

/// Interpret the configuration file as found on disk: no file at all is
/// `NotFound`, anything but a canonical record is `ParseError`.
pub fn load_shortcut_config(contents: Option<&str>) -> (r: Result<ShortcutKey, ConfigError>)
    ensures
        contents is None ==> (r matches Err(e) && e == ConfigError::NotFound),
        contents matches Some(sc) ==> {
            &&& (r matches Ok(cfg) ==> valid_config(cfg@) && sc@ == spec_encode_config(cfg@))
            &&& (forall|c: ShortcutKeyV|
                valid_config(c) && sc@ == spec_encode_config(c) ==> (r matches Ok(cfg) && cfg@ == c))
            &&& (r matches Err(e) ==> e == ConfigError::ParseError)
        },
{
    match contents {
        None => Err(ConfigError::NotFound),
        Some(sc) => parse_shortcut_config(sc),
    }
}

/// The record to start from: the one loaded, or the default wherever loading
/// failed (no file, unreadable file, or a malformed one).
pub fn config_or_default(loaded: Result<ShortcutKey, ConfigError>) -> (c: ShortcutKey)
    ensures
        loaded matches Ok(cfg) ==> c == cfg,
        loaded is Err ==> c@ == spec_default_config(),
{
    match loaded {
        Ok(cfg) => cfg,
        Err(_) => default_shortcut_key(),
    }
}

} // verus!
