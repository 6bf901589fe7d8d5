//! The shortcut manager: one descriptor, one enabled flag, one registration.
//!
//! The manager is a state machine over [`CurrentShortcut`], which couples the
//! shared in-memory state (the current descriptor and the enabled flag) with
//! the library's ledger of what is registered with the OS hotkey facility.
//! The host layer owns the actual facility: it asks the manager what to
//! unregister and register, performs those calls and the file write, and
//! commits their outcomes back, all while holding one lock over the whole
//! [`CurrentShortcut`] value so that every visible transition is atomic.
//!
//! Well-formedness ([`CurrentShortcut::wf`]) pins the central invariant: the
//! state reports enabled exactly while one descriptor — the current one — is
//! registered, and reports disabled while nothing is. Every transition
//! establishes it again, whatever outcome the host reports.

use vstd::prelude::*;

use crate::config::ShortcutKey;
use crate::config::ShortcutKeyV;
use crate::config::config_or_default;
use crate::config::encode_shortcut_config;
use crate::config::load_shortcut_config;
use crate::config::spec_default_config;
use crate::config::spec_encode_config;
use crate::config::valid_config;
use crate::keys::KeyCode;
use crate::keys::is_supported_key_name;
use crate::keys::spec_key_code;
use crate::keys::string_to_code;

verus! {

/// One shortcut: which modifiers are held and which key completes it.
/// `primary` is the platform's primary command modifier. Equality is
/// structural.
#[derive(Clone, Copy, PartialEq, Eq, Structural, Debug)]
pub struct ShortcutDescriptor {
    pub primary: bool,
    pub shift: bool,
    pub alt: bool,
    pub code: KeyCode,
}

/// The shared in-memory state: the descriptor last made current, and whether
/// it is live. While disabled, `current` retains the descriptor so that it
/// can be restored.
#[derive(Clone, Copy, PartialEq, Eq, Debug)]
pub struct SharedShortcutState {
    pub current: Option<ShortcutDescriptor>,
    pub enabled: bool,
}

/// The library's ledger of the OS hotkey facility: the descriptor registered
/// right now, if any. The host layer keeps the facility in step with this by
/// performing exactly the unregister/register calls the manager hands out.
#[derive(Clone, Copy, PartialEq, Eq, Debug)]
pub struct HotkeyRegistry {
    pub registered: Option<ShortcutDescriptor>,
}

/// Global state to track the current shortcut: the shared state and the
/// registration ledger, mutated together under one lock.
#[derive(Clone, Copy, PartialEq, Eq, Debug)]
pub struct CurrentShortcut {
    pub state: SharedShortcutState,
    pub registry: HotkeyRegistry,
}

/// The raw record a command's inputs describe.
pub open spec fn spec_raw_config(
    ctrl_key: bool,
    shift_key: bool,
    alt_key: bool,
    key: Seq<char>,
) -> ShortcutKeyV {
    ShortcutKeyV { ctrl_key, shift_key, alt_key, key }
}

/// The descriptor a valid record describes.
pub open spec fn spec_descriptor_of(c: ShortcutKeyV) -> ShortcutDescriptor
    recommends
        valid_config(c),
{
    ShortcutDescriptor {
        primary: c.ctrl_key,
        shift: c.shift_key,
        alt: c.alt_key,
        code: spec_key_code(c.key[0]),
    }
}

/// The descriptor assumed on a fresh install: Primary+Shift+"m".
pub open spec fn spec_default_descriptor() -> ShortcutDescriptor {
    ShortcutDescriptor { primary: true, shift: true, alt: false, code: KeyCode::KeyM }
}

/// The default record describes the default descriptor.
pub proof fn lemma_default_descriptor()
    ensures
        spec_descriptor_of(spec_default_config()) == spec_default_descriptor(),
{
    reveal_strlit("m");
}

/// Nothing retained, nothing registered: the state before the first
/// registration and after shutdown or a failed update.
pub open spec fn spec_unregistered() -> CurrentShortcut {
    CurrentShortcut {
        state: SharedShortcutState { current: None, enabled: false },
        registry: HotkeyRegistry { registered: None },
    }
}

/// The descriptor is current, live, and the one registered.
pub open spec fn spec_registered_enabled(d: ShortcutDescriptor) -> CurrentShortcut {
    CurrentShortcut {
        state: SharedShortcutState { current: Some(d), enabled: true },
        registry: HotkeyRegistry { registered: Some(d) },
    }
}

/// The state after disabling: the descriptor is retained but nothing is
/// registered.
pub open spec fn spec_disable(s: CurrentShortcut) -> CurrentShortcut {
    CurrentShortcut {
        state: SharedShortcutState { current: s.state.current, enabled: false },
        registry: HotkeyRegistry { registered: None },
    }
}

impl CurrentShortcut {
    /// The consistency invariant: enabled exactly while the current
    /// descriptor — and nothing else — is registered with the facility.
    pub open spec fn wf(self) -> bool {
        &&& self.state.enabled ==> self.registry.registered == self.state.current
            && self.state.current is Some
        &&& !self.state.enabled ==> self.registry.registered is None
    }

    /// The state after the startup registration attempt: live with the
    /// descriptor if the facility accepted it, otherwise inactive, with the
    /// application running on regardless.
    pub fn new(d: ShortcutDescriptor, register_ok: bool) -> (s: Self)
        ensures
            s == spec_commit_update(d, register_ok),
            s.wf(),
    {
        if register_ok {
            CurrentShortcut {
                state: SharedShortcutState { current: Some(d), enabled: true },
                registry: HotkeyRegistry { registered: Some(d) },
            }
        } else {
            CurrentShortcut {
                state: SharedShortcutState { current: None, enabled: false },
                registry: HotkeyRegistry { registered: None },
            }
        }
    }
}

/// While the state is well formed, the enabled flag is never out of step
/// with the facility: it reports enabled exactly while one descriptor is
/// registered, and disabled exactly while zero are.
pub proof fn lemma_enabled_iff_registered(s: CurrentShortcut)
    requires
        s.wf(),
    ensures
        s.state.enabled <==> s.registry.registered is Some,
{
}

/// The descriptor a record found on disk stands for; fails exactly on a
/// record whose key is not supported.
pub fn descriptor_of_config(cfg: &ShortcutKey) -> (r: Option<ShortcutDescriptor>)
    ensures
        r is Some <==> valid_config(cfg@),
        r matches Some(d) ==> d == spec_descriptor_of(cfg@),
{
    match string_to_code(cfg.key.as_str()) {
        Some(code) => Some(
            ShortcutDescriptor {
                primary: cfg.ctrl_key,
                shift: cfg.shift_key,
                alt: cfg.alt_key,
                code,
            },
        ),
        None => None,
    }
}

/// The default descriptor as a value.
fn default_descriptor() -> (d: ShortcutDescriptor)
    ensures
        d == spec_default_descriptor(),
{
    ShortcutDescriptor { primary: true, shift: true, alt: false, code: KeyCode::KeyM }
}

/// Decide the descriptor to register at startup from the configuration
/// file's content (`None` when there is no file): the persisted record where
/// one is there to be read, the default wherever loading fails.
pub fn init(contents: Option<&str>) -> (d: ShortcutDescriptor)
    ensures
        contents is None ==> d == spec_default_descriptor(),
        contents matches Some(sc) ==> {
            &&& forall|c: ShortcutKeyV|
                valid_config(c) && sc@ == spec_encode_config(c) ==> d == spec_descriptor_of(c)
            &&& !(exists|c: ShortcutKeyV| valid_config(c) && sc@ == spec_encode_config(c))
                ==> d == spec_default_descriptor()
        },
{
    let loaded = load_shortcut_config(contents);
    let cfg = config_or_default(loaded);
    proof {
        lemma_default_descriptor();
    }
    match descriptor_of_config(&cfg) {
        Some(d) => d,
        None => default_descriptor(),
    }
}

/// What the host layer must do to apply an update: best-effort unregister of
/// whatever is registered, then register the new descriptor, then write the
/// record — in that order, and the write only after a successful
/// registration.
#[derive(Clone, Debug)]
pub struct UpdatePlan {
    pub unregister: Option<ShortcutDescriptor>,
    pub register: ShortcutDescriptor,
    pub persist: String,
}

/// Validate a reconfiguration request against the running state. Succeeds
/// exactly when the key is supported, and then plans the unregister/register
/// calls and the record to persist; otherwise reports the offending key.
pub fn update_global_shortcut(
    s: &CurrentShortcut,
    ctrl_key: bool,
    shift_key: bool,
    alt_key: bool,
    key: &str,
) -> (r: Result<UpdatePlan, String>)
    ensures
        r is Ok <==> is_supported_key_name(key@),
        r matches Ok(plan) ==> {
            &&& plan.unregister == s.registry.registered
            &&& plan.register == spec_descriptor_of(
                spec_raw_config(ctrl_key, shift_key, alt_key, key@),
            )
            &&& plan.persist@ == spec_encode_config(
                spec_raw_config(ctrl_key, shift_key, alt_key, key@),
            )
        },
        r matches Err(m) ==> m@ == "Unsupported key: "@ + key@,
{
    match string_to_code(key) {
        None => Err(String::from_str("Unsupported key: ").concat(key)),
        Some(code) => {
            let cfg = ShortcutKey { ctrl_key, shift_key, alt_key, key: key.to_owned() };
            let persist = encode_shortcut_config(&cfg);
            Ok(
                UpdatePlan {
                    unregister: s.registry.registered,
                    register: ShortcutDescriptor {
                        primary: ctrl_key,
                        shift: shift_key,
                        alt: alt_key,
                        code,
                    },
                    persist,
                },
            )
        },
    }
}

/// The state an update leaves behind: live with the new descriptor on
/// success; nothing retained and nothing registered on a refused
/// registration, the error merely reported.
pub open spec fn spec_commit_update(d: ShortcutDescriptor, register_ok: bool) -> CurrentShortcut {
    if register_ok {
        spec_registered_enabled(d)
    } else {
        spec_unregistered()
    }
}

/// Commit an update's outcome, reported by the host layer: whether the
/// facility accepted the new descriptor, and whether the record reached
/// disk. A failed write is reported, but the successful registration is not
/// rolled back.
pub fn commit_update(
    s: &mut CurrentShortcut,
    d: ShortcutDescriptor,
    register_ok: bool,
    persist_ok: bool,
) -> (r: Result<String, String>)
    ensures
        *final(s) == spec_commit_update(d, register_ok),
        final(s).wf(),
        r is Ok <==> (register_ok && persist_ok),
        register_ok && persist_ok ==> (r matches Ok(m) && m@ == "Shortcut updated successfully"@),
        register_ok && !persist_ok ==> (r matches Err(m) && m@
            == "Failed to write shortcut config"@),
        !register_ok ==> (r matches Err(m) && m@ == "Failed to register shortcut"@),
{
    *s = CurrentShortcut::new(d, register_ok);
    if !register_ok {
        Err(String::from_str("Failed to register shortcut"))
    } else if !persist_ok {
        Err(String::from_str("Failed to write shortcut config"))
    } else {
        Ok(String::from_str("Shortcut updated successfully"))
    }
}

/// What the host layer must do to apply an enable or disable: at most one
/// unregister or one register call, never a file write — toggling is
/// transient and must not overwrite the saved preference.
#[derive(Clone, Copy, Debug)]
pub struct EnablePlan {
    pub unregister: Option<ShortcutDescriptor>,
    pub register: Option<ShortcutDescriptor>,
}

/// Plan an enable/disable request: disabling unregisters whatever is
/// registered; enabling registers the retained descriptor, unless it is
/// already live or there is none.
pub fn set_global_shortcut_enabled(s: &CurrentShortcut, enabled: bool) -> (plan: EnablePlan)
    ensures
        !enabled ==> plan.unregister == s.registry.registered && plan.register is None,
        enabled && s.state.enabled ==> plan.unregister is None && plan.register is None,
        enabled && !s.state.enabled ==> plan.unregister is None && plan.register
            == s.state.current,
{
    if !enabled {
        EnablePlan { unregister: s.registry.registered, register: None }
    } else if s.state.enabled {
        EnablePlan { unregister: None, register: None }
    } else {
        EnablePlan { unregister: None, register: s.state.current }
    }
}

/// The state an enable/disable leaves behind. Disabling always succeeds and
/// retains the descriptor; enabling goes live again only if the facility
/// accepted the retained descriptor, and changes nothing otherwise.
pub open spec fn spec_set_enabled(
    s: CurrentShortcut,
    enabled: bool,
    register_ok: bool,
) -> CurrentShortcut {
    if !enabled {
        spec_disable(s)
    } else if s.state.enabled {
        s
    } else {
        match s.state.current {
            Some(d) => if register_ok {
                spec_registered_enabled(d)
            } else {
                s
            },
            None => s,
        }
    }
}

/// Commit an enable/disable request with the registration outcome the host
/// layer reports (ignored while disabling, which needs no registration).
pub fn commit_set_enabled(s: &mut CurrentShortcut, enabled: bool, register_ok: bool) -> (r: Result<
    String,
    String,
>)
    requires
        old(s).wf(),
    ensures
        *final(s) == spec_set_enabled(*old(s), enabled, register_ok),
        final(s).wf(),
        !enabled ==> (r matches Ok(m) && m@ == "Shortcut disabled"@),
        enabled && (old(s).state.enabled || (old(s).state.current is Some && register_ok)) ==> (
        r matches Ok(m) && m@ == "Shortcut enabled"@),
        enabled && !old(s).state.enabled && old(s).state.current is Some && !register_ok ==> (
        r matches Err(m) && m@ == "Failed to re-register shortcut"@),
        enabled && old(s).state.current is None ==> (r matches Err(m) && m@
            == "No shortcut to enable"@),
{
    if !enabled {
        *s = CurrentShortcut {
            state: SharedShortcutState { current: s.state.current, enabled: false },
            registry: HotkeyRegistry { registered: None },
        };
        Ok(String::from_str("Shortcut disabled"))
    } else if s.state.enabled {
        Ok(String::from_str("Shortcut enabled"))
    } else {
        match s.state.current {
            Some(d) => {
                if register_ok {
                    *s = CurrentShortcut {
                        state: SharedShortcutState { current: Some(d), enabled: true },
                        registry: HotkeyRegistry { registered: Some(d) },
                    };
                    Ok(String::from_str("Shortcut enabled"))
                } else {
                    Err(String::from_str("Failed to re-register shortcut"))
                }
            },
            None => Err(String::from_str("No shortcut to enable")),
        }
    }
}

/// Decide a hotkey callback: the window is activated exactly when the
/// facility reports a fresh key-down (not a key-up or a repeat) and the
/// shortcut is enabled.
pub fn should_activate(s: &CurrentShortcut, pressed: bool) -> (b: bool)
    ensures
        b == (pressed && s.state.enabled),
{
    pressed && s.state.enabled
}

/// Tear down at application exit: whatever is registered must be
/// unregistered, and nothing is retained.
pub fn shutdown(s: &mut CurrentShortcut) -> (unregister: Option<ShortcutDescriptor>)
    ensures
        *final(s) == spec_unregistered(),
        final(s).wf(),
        unregister == old(s).registry.registered,
{
    let unregister = s.registry.registered;
    *s = CurrentShortcut {
        state: SharedShortcutState { current: None, enabled: false },
        registry: HotkeyRegistry { registered: None },
    };
    unregister
}

/// Disabling and then successfully re-enabling restores exactly the state
/// that was active before: the same descriptor, current and registered
/// again. Neither step plans a file write, so the persisted record is
/// untouched.
pub proof fn lemma_disable_enable_restores(s: CurrentShortcut)
    requires
        s.wf(),
        s.state.enabled,
    ensures
        spec_set_enabled(spec_set_enabled(s, false, true), true, true) == s,
{
}

} // verus!
