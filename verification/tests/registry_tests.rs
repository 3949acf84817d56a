use copy_translator::chord::parse_hotkey;
use copy_translator::registry::{HotkeyAction, HotkeyRegistry, RegistrationError};

#[test]
fn registers_and_dispatches_both_actions() {
    let mut reg = HotkeyRegistry::new();
    let quit = reg.register("CTRL+SHIFT+D", HotkeyAction::Quit).unwrap();
    let capture = reg.register("CTRL+D", HotkeyAction::Capture).unwrap();
    assert_eq!(reg.dispatch(quit), Some(HotkeyAction::Quit));
    assert_eq!(reg.dispatch(capture), Some(HotkeyAction::Capture));
}

#[test]
fn rejects_malformed_chord_string() {
    let mut reg = HotkeyRegistry::new();
    let r = reg.register("CTRL+*", HotkeyAction::Quit);
    assert_eq!(r, Err(RegistrationError::MalformedChord));
    assert_eq!(reg.bindings.len(), 0);
}

#[test]
fn rejects_already_claimed_chord() {
    let mut reg = HotkeyRegistry::new();
    reg.register("CTRL+D", HotkeyAction::Capture).unwrap();
    // the same chord under another spelling is still claimed
    let r = reg.register("ctrl+d", HotkeyAction::Quit);
    assert_eq!(r, Err(RegistrationError::AlreadyClaimed));
    assert_eq!(reg.bindings.len(), 1);
    let c = parse_hotkey("CTRL+D").unwrap();
    assert_eq!(reg.dispatch(c), Some(HotkeyAction::Capture));
}

#[test]
fn dispatch_on_unbound_chord_is_none() {
    let mut reg = HotkeyRegistry::new();
    reg.register("CTRL+D", HotkeyAction::Capture).unwrap();
    let other = parse_hotkey("ALT+D").unwrap();
    assert_eq!(reg.dispatch(other), None);
}

#[test]
fn unregister_all_twice_is_idempotent_and_disables_chords() {
    let mut reg = HotkeyRegistry::new();
    let quit = reg.register("CTRL+SHIFT+D", HotkeyAction::Quit).unwrap();
    let capture = reg.register("CTRL+D", HotkeyAction::Capture).unwrap();

    reg.unregister_all();
    assert_eq!(reg.bindings.len(), 0);
    assert_eq!(reg.dispatch(quit), None);
    assert_eq!(reg.dispatch(capture), None);

    // a second unregistration does not error and leaves no binding active
    reg.unregister_all();
    assert_eq!(reg.bindings.len(), 0);
    assert_eq!(reg.dispatch(quit), None);
    assert_eq!(reg.dispatch(capture), None);
}
