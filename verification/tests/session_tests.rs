use copy_translator::lang::Lang;
use copy_translator::session::{Outcome, State};

#[test]
fn creation_dispatches_one_exact_request() {
    let (st, req) = State::create("guten Tag".to_string(), Lang::DE, Lang::JA);
    assert!(st.pending);
    assert_eq!(st.generation, 1);
    assert_eq!(st.last_result, None);
    assert_eq!(req.text, "guten Tag");
    assert_eq!(req.source, Lang::DE);
    assert_eq!(req.target, Lang::JA);
    assert_eq!(req.generation, 1);
}

#[test]
fn manual_trigger_carries_current_values() {
    let (mut st, _) = State::create("bonjour".to_string(), Lang::FR, Lang::EN);
    let req = st.manual_trigger();
    assert_eq!(req.text, "bonjour");
    assert_eq!(req.source, Lang::FR);
    assert_eq!(req.target, Lang::EN);
    assert_eq!(req.generation, 2);
    assert!(st.pending);
}

#[test]
fn language_change_triggers_and_same_choice_does_not() {
    let (mut st, _) = State::create("hola".to_string(), Lang::ES, Lang::EN);
    let none = st.set_source_lang(Lang::ES);
    assert!(none.is_none());
    assert_eq!(st.generation, 1);

    let req = st.set_source_lang(Lang::Auto).unwrap();
    assert_eq!(req.source, Lang::Auto);
    assert_eq!(req.target, Lang::EN);
    assert_eq!(req.generation, 2);

    let none = st.set_target_lang(Lang::EN);
    assert!(none.is_none());
    let req = st.set_target_lang(Lang::ZH).unwrap();
    assert_eq!(req.source, Lang::Auto);
    assert_eq!(req.target, Lang::ZH);
    assert_eq!(req.generation, 3);
}

#[test]
fn text_edits_alone_do_not_trigger() {
    let (mut st, _) = State::create("old".to_string(), Lang::Auto, Lang::EN);
    st.apply_response(1, Outcome::Translated("done".to_string()));
    st.set_text("new text".to_string());
    assert_eq!(st.text, "new text");
    assert!(!st.pending);
    assert_eq!(st.generation, 1);
}

#[test]
fn swap_with_auto_source_uses_fallback_target() {
    let (mut st, _) = State::create("hi".to_string(), Lang::Auto, Lang::JA);
    let req = st.swap_langs().unwrap();
    assert_eq!(st.source_lang, Lang::JA);
    assert_eq!(st.target_lang, Lang::EN);
    assert_eq!(req.source, Lang::JA);
    assert_eq!(req.target, Lang::EN);
}

#[test]
fn swap_without_auto_exchanges_exactly() {
    let (mut st, _) = State::create("hi".to_string(), Lang::DE, Lang::JA);
    let req = st.swap_langs().unwrap();
    assert_eq!(st.source_lang, Lang::JA);
    assert_eq!(st.target_lang, Lang::DE);
    assert_eq!(req.generation, 2);
}

#[test]
fn swap_of_equal_pair_changes_nothing() {
    let (mut st, _) = State::create("hi".to_string(), Lang::EN, Lang::EN);
    let r = st.swap_langs();
    assert!(r.is_none());
    assert_eq!(st.source_lang, Lang::EN);
    assert_eq!(st.target_lang, Lang::EN);
    assert_eq!(st.generation, 1);
}

#[test]
fn stale_response_is_discarded_and_latest_wins() {
    // two triggers in quick succession: the target changed before the first
    // response arrived
    let (mut st, first) = State::create("text".to_string(), Lang::Auto, Lang::EN);
    let second = st.set_target_lang(Lang::JA).unwrap();
    assert!(st.pending);

    // the late response to the superseded first request changes nothing
    st.apply_response(first.generation, Outcome::Translated("stale".to_string()));
    assert!(st.pending);
    assert_eq!(st.last_result, None);

    // the response to the latest request is the one recorded
    st.apply_response(second.generation, Outcome::Translated("fresh".to_string()));
    assert!(!st.pending);
    assert_eq!(st.last_result, Some(Outcome::Translated("fresh".to_string())));
}

#[test]
fn provider_error_is_recorded_and_session_stays_usable() {
    let (mut st, req) = State::create("text".to_string(), Lang::Auto, Lang::EN);
    st.apply_response(req.generation, Outcome::Failed);
    assert!(!st.pending);
    assert_eq!(st.last_result, Some(Outcome::Failed));
    // the user may retry manually
    let retry = st.manual_trigger();
    assert!(st.pending);
    assert_eq!(retry.generation, 2);
}
