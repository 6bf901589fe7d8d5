use sokki_shortcuts::config::parse_shortcut_config;
use sokki_shortcuts::keys::KeyCode;
use sokki_shortcuts::shortcut_manager::commit_set_enabled;
use sokki_shortcuts::shortcut_manager::commit_update;
use sokki_shortcuts::shortcut_manager::init;
use sokki_shortcuts::shortcut_manager::set_global_shortcut_enabled;
use sokki_shortcuts::shortcut_manager::should_activate;
use sokki_shortcuts::shortcut_manager::shutdown;
use sokki_shortcuts::shortcut_manager::update_global_shortcut;
use sokki_shortcuts::shortcut_manager::CurrentShortcut;
use sokki_shortcuts::shortcut_manager::ShortcutDescriptor;

fn consistent(s: &CurrentShortcut) -> bool {
    s.state.enabled == s.registry.registered.is_some()
        && (!s.state.enabled || s.registry.registered == s.state.current)
}

/// Fresh install: no config file, default descriptor, and pressing the
/// combination activates the window.
#[test]
fn fresh_install_uses_default_and_activates() {
    let d = init(None);
    assert_eq!(
        d,
        ShortcutDescriptor { primary: true, shift: true, alt: false, code: KeyCode::KeyM }
    );
    let st = CurrentShortcut::new(d, true);
    assert!(st.state.enabled);
    assert_eq!(st.registry.registered, Some(d));
    // the OS reports a key-down of the registered combination
    assert!(should_activate(&st, true));
    // a key-up or auto-repeat must not re-trigger
    assert!(!should_activate(&st, false));
}

#[test]
fn startup_registration_failure_leaves_shortcut_inactive() {
    let d = init(None);
    let st = CurrentShortcut::new(d, false);
    assert!(!st.state.enabled);
    assert_eq!(st.registry.registered, None);
    assert!(!should_activate(&st, true));
    assert!(consistent(&st));
}

#[test]
fn init_reads_back_a_persisted_record() {
    let d = init(Some("{\"altKey\":false,\"ctrlKey\":true,\"key\":\"K\",\"shiftKey\":true}"));
    assert_eq!(
        d,
        ShortcutDescriptor { primary: true, shift: true, alt: false, code: KeyCode::KeyK }
    );
}

#[test]
fn init_falls_back_to_default_on_malformed_record() {
    let d = init(Some("{\"altKey\":flase"));
    assert_eq!(
        d,
        ShortcutDescriptor { primary: true, shift: true, alt: false, code: KeyCode::KeyM }
    );
}

/// `update_global_shortcut(true, true, false, "K")` succeeds and the record a
/// later load reads is `{ctrlKey:true, shiftKey:true, altKey:false, key:"K"}`.
#[test]
fn update_then_load_round_trips() {
    let mut st = CurrentShortcut::new(init(None), true);
    let plan = update_global_shortcut(&st, true, true, false, "K").expect("K is supported");
    assert_eq!(plan.unregister, st.registry.registered);
    assert_eq!(
        plan.register,
        ShortcutDescriptor { primary: true, shift: true, alt: false, code: KeyCode::KeyK }
    );
    let msg = commit_update(&mut st, plan.register, true, true).expect("both outcomes good");
    assert_eq!(msg, "Shortcut updated successfully");
    assert!(consistent(&st));
    assert_eq!(st.state.current, Some(plan.register));
    // restart: the persisted text is what load sees
    let back = parse_shortcut_config(&plan.persist).expect("persisted record must parse");
    assert!(back.ctrl_key);
    assert!(back.shift_key);
    assert!(!back.alt_key);
    assert_eq!(back.key, "K");
    let d2 = init(Some(&plan.persist));
    assert_eq!(d2, plan.register);
}

/// `update_global_shortcut(false, false, false, "$")` reports the unsupported
/// key; state and persisted file are untouched.
#[test]
fn update_with_unsupported_key_changes_nothing() {
    let st = CurrentShortcut::new(init(None), true);
    let before = st;
    let err = update_global_shortcut(&st, false, false, false, "$").unwrap_err();
    assert_eq!(err, "Unsupported key: $");
    // no plan was produced: nothing to commit and nothing to write, so the
    // persisted file cannot have changed
    assert_eq!(st, before);
}

#[test]
fn update_registration_failure_surfaces_and_unregisters() {
    let mut st = CurrentShortcut::new(init(None), true);
    let plan = update_global_shortcut(&st, false, true, true, "7").expect("7 is supported");
    let err = commit_update(&mut st, plan.register, false, false).unwrap_err();
    assert_eq!(err, "Failed to register shortcut");
    assert!(!st.state.enabled);
    assert_eq!(st.registry.registered, None);
    assert_eq!(st.state.current, None);
    assert!(consistent(&st));
}

#[test]
fn update_persistence_failure_keeps_memory_state() {
    let mut st = CurrentShortcut::new(init(None), true);
    let plan = update_global_shortcut(&st, true, false, false, "a").expect("a is supported");
    let err = commit_update(&mut st, plan.register, true, false).unwrap_err();
    assert_eq!(err, "Failed to write shortcut config");
    // the successful registration is not rolled back
    assert!(st.state.enabled);
    assert_eq!(st.registry.registered, Some(plan.register));
    assert!(consistent(&st));
}

/// Disable then enable restores the exact descriptor that was active, and
/// never plans a file write.
#[test]
fn disable_enable_restores_descriptor() {
    let mut file = Some(
        "{\"altKey\":false,\"ctrlKey\":true,\"key\":\"K\",\"shiftKey\":true}".to_string(),
    );
    let d = init(file.as_deref());
    let mut st = CurrentShortcut::new(d, true);
    let before = st;

    let plan_off = set_global_shortcut_enabled(&st, false);
    assert_eq!(plan_off.unregister, Some(d));
    assert_eq!(plan_off.register, None);
    let msg = commit_set_enabled(&mut st, false, true).expect("disabling always succeeds");
    assert_eq!(msg, "Shortcut disabled");
    assert!(!st.state.enabled);
    assert_eq!(st.state.current, Some(d));
    assert_eq!(st.registry.registered, None);
    assert!(consistent(&st));

    let plan_on = set_global_shortcut_enabled(&st, true);
    assert_eq!(plan_on.unregister, None);
    assert_eq!(plan_on.register, Some(d));
    let msg = commit_set_enabled(&mut st, true, true).expect("facility accepted");
    assert_eq!(msg, "Shortcut enabled");
    assert_eq!(st, before);

    // neither step produced anything to persist, so the file is untouched
    assert_eq!(
        file.take().unwrap(),
        "{\"altKey\":false,\"ctrlKey\":true,\"key\":\"K\",\"shiftKey\":true}"
    );
}

/// Simulated hotkey fire while disabled: activation is suppressed.
#[test]
fn fire_while_disabled_does_not_activate() {
    let mut st = CurrentShortcut::new(init(None), true);
    commit_set_enabled(&mut st, false, true).expect("disabling always succeeds");
    assert!(!should_activate(&st, true));
}

#[test]
fn reenable_failure_stays_disabled() {
    let mut st = CurrentShortcut::new(init(None), true);
    commit_set_enabled(&mut st, false, true).expect("disabling always succeeds");
    let snapshot = st;
    let err = commit_set_enabled(&mut st, true, false).unwrap_err();
    assert_eq!(err, "Failed to re-register shortcut");
    assert_eq!(st, snapshot);
    assert!(consistent(&st));
}

#[test]
fn enable_with_nothing_retained_reports_error() {
    let mut st = CurrentShortcut::new(init(None), false);
    let err = commit_set_enabled(&mut st, true, true).unwrap_err();
    assert_eq!(err, "No shortcut to enable");
    assert!(consistent(&st));
}

#[test]
fn enable_while_enabled_is_a_no_op() {
    let mut st = CurrentShortcut::new(init(None), true);
    let before = st;
    let plan = set_global_shortcut_enabled(&st, true);
    assert_eq!(plan.unregister, None);
    assert_eq!(plan.register, None);
    let msg = commit_set_enabled(&mut st, true, true).expect("nothing to do");
    assert_eq!(msg, "Shortcut enabled");
    assert_eq!(st, before);
}

/// Sequential-consistency check: under an interleaving of update, disable and
/// enable, the state never reports enabled while nothing is registered, or
/// the other way round.
#[test]
fn enabled_always_matches_registration() {
    let mut st = CurrentShortcut::new(init(None), true);
    assert!(consistent(&st));

    let plan = update_global_shortcut(&st, true, true, false, "K").unwrap();
    commit_update(&mut st, plan.register, true, true).unwrap();
    assert!(consistent(&st));

    commit_set_enabled(&mut st, false, true).unwrap();
    assert!(consistent(&st));

    let plan = update_global_shortcut(&st, false, false, false, "b").unwrap();
    commit_update(&mut st, plan.register, true, true).unwrap();
    assert!(consistent(&st));

    commit_set_enabled(&mut st, false, true).unwrap();
    assert!(consistent(&st));
    commit_set_enabled(&mut st, true, false).unwrap_err();
    assert!(consistent(&st));
    commit_set_enabled(&mut st, true, true).unwrap();
    assert!(consistent(&st));

    let plan = update_global_shortcut(&st, true, false, true, "z").unwrap();
    commit_update(&mut st, plan.register, false, false).unwrap_err();
    assert!(consistent(&st));

    let unreg = shutdown(&mut st);
    assert_eq!(unreg, None);
    assert!(consistent(&st));
    assert_eq!(st.state.current, None);
}

#[test]
fn shutdown_unregisters_what_was_live() {
    let d = init(None);
    let mut st = CurrentShortcut::new(d, true);
    let unreg = shutdown(&mut st);
    assert_eq!(unreg, Some(d));
    assert!(!st.state.enabled);
    assert_eq!(st.registry.registered, None);
}
