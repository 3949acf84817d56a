use copy_translator::frame::{ui_frame, FrameInput};
use copy_translator::lang::Lang;
use copy_translator::registry::{HotkeyAction, HotkeyRegistry};
use copy_translator::session::State;

fn quiet_frame() -> FrameInput {
    FrameInput {
        escape: false,
        capture_hotkey: false,
        source_pick: None,
        swap_clicked: false,
        target_pick: None,
        translate_clicked: false,
        text_edit: None,
    }
}

#[test]
fn escape_unregisters_hotkeys_and_closes() {
    let (mut st, req) = State::create("text".to_string(), Lang::Auto, Lang::EN);
    let mut reg = HotkeyRegistry::new();
    let quit = reg.register("CTRL+SHIFT+D", HotkeyAction::Quit).unwrap();
    reg.register("CTRL+D", HotkeyAction::Capture).unwrap();

    let input = FrameInput { escape: true, translate_clicked: true, ..quiet_frame() };
    let (close, requests) = ui_frame(&mut st, &mut reg, input);

    assert!(close);
    assert!(requests.is_empty());
    assert_eq!(reg.bindings.len(), 0);
    assert_eq!(reg.dispatch(quit), None);
    // the session itself is untouched; its teardown is the window's close
    assert_eq!(st.generation, req.generation);
}

#[test]
fn quiet_tick_changes_nothing() {
    let (mut st, _) = State::create("text".to_string(), Lang::Auto, Lang::EN);
    let mut reg = HotkeyRegistry::new();
    let (close, requests) = ui_frame(&mut st, &mut reg, quiet_frame());
    assert!(!close);
    assert!(requests.is_empty());
    assert_eq!(st.generation, 1);
    assert!(st.pending);
}

#[test]
fn translate_control_dispatches_one_request() {
    let (mut st, _) = State::create("text".to_string(), Lang::Auto, Lang::EN);
    let mut reg = HotkeyRegistry::new();
    let input = FrameInput { translate_clicked: true, ..quiet_frame() };
    let (_, requests) = ui_frame(&mut st, &mut reg, input);
    assert_eq!(requests.len(), 1);
    assert_eq!(requests[0].text, "text");
    assert_eq!(requests[0].source, Lang::Auto);
    assert_eq!(requests[0].target, Lang::EN);
    assert_eq!(requests[0].generation, 2);
}

#[test]
fn language_picks_in_one_frame_coalesce_into_one_request() {
    let (mut st, _) = State::create("text".to_string(), Lang::Auto, Lang::EN);
    let mut reg = HotkeyRegistry::new();
    let input = FrameInput {
        source_pick: Some(Lang::DE),
        target_pick: Some(Lang::JA),
        ..quiet_frame()
    };
    let (_, requests) = ui_frame(&mut st, &mut reg, input);
    assert_eq!(requests.len(), 1);
    assert_eq!(requests[0].source, Lang::DE);
    assert_eq!(requests[0].target, Lang::JA);
    assert_eq!(st.source_lang, Lang::DE);
    assert_eq!(st.target_lang, Lang::JA);
}

#[test]
fn repicking_the_current_languages_dispatches_nothing() {
    let (mut st, _) = State::create("text".to_string(), Lang::Auto, Lang::EN);
    let mut reg = HotkeyRegistry::new();
    let input = FrameInput {
        source_pick: Some(Lang::Auto),
        target_pick: Some(Lang::EN),
        ..quiet_frame()
    };
    let (_, requests) = ui_frame(&mut st, &mut reg, input);
    assert!(requests.is_empty());
    assert_eq!(st.generation, 1);
}

#[test]
fn swap_click_is_a_language_change() {
    let (mut st, _) = State::create("text".to_string(), Lang::Auto, Lang::JA);
    let mut reg = HotkeyRegistry::new();
    let input = FrameInput { swap_clicked: true, ..quiet_frame() };
    let (_, requests) = ui_frame(&mut st, &mut reg, input);
    assert_eq!(st.source_lang, Lang::JA);
    assert_eq!(st.target_lang, Lang::EN);
    assert_eq!(requests.len(), 1);
}

#[test]
fn text_edit_alone_dispatches_nothing() {
    let (mut st, _) = State::create("text".to_string(), Lang::Auto, Lang::EN);
    let mut reg = HotkeyRegistry::new();
    let input = FrameInput { text_edit: Some("edited".to_string()), ..quiet_frame() };
    let (_, requests) = ui_frame(&mut st, &mut reg, input);
    assert!(requests.is_empty());
    assert_eq!(st.text, "edited");
    assert_eq!(st.generation, 1);
}

#[test]
fn three_intents_dispatch_three_requests_with_consecutive_generations() {
    let (mut st, _) = State::create("text".to_string(), Lang::Auto, Lang::EN);
    let mut reg = HotkeyRegistry::new();
    let input = FrameInput {
        capture_hotkey: true,
        translate_clicked: true,
        target_pick: Some(Lang::JA),
        ..quiet_frame()
    };
    let (_, requests) = ui_frame(&mut st, &mut reg, input);
    assert_eq!(requests.len(), 3);
    for (i, req) in requests.iter().enumerate() {
        assert_eq!(req.generation, 2 + i as u64);
        assert_eq!(req.target, Lang::JA);
        assert_eq!(req.text, "text");
    }
    assert_eq!(st.generation, 4);
    // only the response to the last dispatched request is ever recorded
    st.apply_response(requests[0].generation, copy_translator::session::Outcome::Failed);
    assert!(st.pending);
    st.apply_response(requests[2].generation, copy_translator::session::Outcome::Failed);
    assert!(!st.pending);
}
