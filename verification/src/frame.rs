//! One tick of the UI refresh loop, as a decision function: it applies the
//! frame's user intents to the session, decides which translation requests
//! to dispatch, and decides whether the window closes. The render loop
//! around it only collects the intents, performs the returned requests and
//! repaints; all sequencing lives here.
//!
//! Within one frame, language selections and the swap action coalesce into
//! at most one language-change trigger, while the relayed capture hotkey and
//! the manual translate control each dispatch one more. Text edits alone
//! never trigger. The escape key tears the window down: every hotkey
//! binding is unregistered before the close, so no global binding is
//! orphaned.

use vstd::prelude::*;

use crate::lang::Lang;
use crate::registry::HotkeyRegistry;
use crate::session::{respond_spec, swap_spec, wf_session, OutcomeView, Request, RequestView, SessionView, State};

verus! {

/// The user intents one render tick can carry.
#[derive(Debug, PartialEq, Eq)]
pub struct FrameInput {
    /// Escape was pressed: tear down the window and its hotkey bindings.
    pub escape: bool,
    /// The capture hotkey was relayed into this window's tick.
    pub capture_hotkey: bool,
    /// A source language was picked from the source list.
    pub source_pick: Option<Lang>,
    /// The swap control was clicked.
    pub swap_clicked: bool,
    /// A target language was picked from the target list (never `Auto`).
    pub target_pick: Option<Lang>,
    /// The manual translate control was clicked.
    pub translate_clicked: bool,
    /// The text editor's content, when the user edited it this tick.
    pub text_edit: Option<String>,
}

/// The session after the frame's edits, picks and swap, before any trigger:
/// text edit first, then the source pick, the swap, and the target pick.
pub open spec fn intents_applied(v: SessionView, input: FrameInput) -> SessionView {
    let t = if input.text_edit is Some {
        SessionView { text: input.text_edit->Some_0@, ..v }
    } else {
        v
    };
    let a = if input.source_pick is Some {
        SessionView { source: input.source_pick->Some_0, ..t }
    } else {
        t
    };
    let b = if input.swap_clicked {
        swap_spec(a)
    } else {
        a
    };
    if input.target_pick is Some {
        SessionView { target: input.target_pick->Some_0, ..b }
    } else {
        b
    }
}

/// How many requests the frame dispatches: one for the relayed capture
/// hotkey, one for the translate control, and one when the frame left the
/// language pair changed.
pub open spec fn frame_trigger_count(v: SessionView, input: FrameInput) -> int {
    (if input.capture_hotkey {
        1int
    } else {
        0int
    }) + (if input.translate_clicked {
        1int
    } else {
        0int
    }) + (if intents_applied(v, input).source != v.source || intents_applied(v, input).target
        != v.target {
        1int
    } else {
        0int
    })
}

/// `n` triggers in a row: pending from the first one on, the generation
/// advanced once per trigger, nothing else changed.
pub open spec fn triggers_n(v: SessionView, n: int) -> SessionView {
    SessionView { pending: n > 0 || v.pending, generation: v.generation + n, ..v }
}

/// Run one tick of the UI refresh loop over the session and the process's
/// hotkey registry. Returns whether the window closes, and the translation
/// requests dispatched this tick, in dispatch order.
///
/// On escape nothing of the session changes, no request is dispatched, and
/// the registry is left empty before the close. Otherwise the frame's
/// intents are applied, each dispatched request carries exactly the
/// session's post-frame text and language pair, and their generations are
/// consecutive, so that under the most-recent-wins rule the last one
/// dispatched is the one whose response is recorded.
pub fn ui_frame(state: &mut State, registry: &mut HotkeyRegistry, input: FrameInput) -> (r: (
    bool,
    Vec<Request>,
))
    requires
        old(state).generation + 3 <= u64::MAX,
        input.target_pick matches Some(l) ==> l != Lang::Auto,
    ensures
        input.escape ==> {
            &&& r.0
            &&& r.1@.len() == 0
            &&& final(state)@ == old(state)@
            &&& final(registry).bindings@ == Seq::<
                (crate::chord::Chord, crate::registry::HotkeyAction),
            >::empty()
        },
        !input.escape ==> {
            &&& !r.0
            &&& final(registry).bindings@ == old(registry).bindings@
            &&& final(state)@ == triggers_n(
                intents_applied(old(state)@, input),
                frame_trigger_count(old(state)@, input),
            )
            &&& r.1@.len() == frame_trigger_count(old(state)@, input)
            &&& forall|i: int|
                0 <= i < r.1@.len() ==> r.1@[i]@ == (RequestView {
                    text: intents_applied(old(state)@, input).text,
                    source: intents_applied(old(state)@, input).source,
                    target: intents_applied(old(state)@, input).target,
                    generation: intents_applied(old(state)@, input).generation + i + 1,
                })
        },
        wf_session(old(state)@) ==> wf_session(final(state)@),
{
    if input.escape {
        registry.unregister_all();
        return (true, Vec::new());
    }
    let old_source = state.source_lang;
    let old_target = state.target_lang;
    match input.text_edit {
        Some(text) => {
            state.set_text(text);
        },
        None => {},
    }
    match input.source_pick {
        Some(lang) => {
            state.source_lang = lang;
        },
        None => {},
    }
    if input.swap_clicked {
        let new_source = state.target_lang;
        let new_target = if state.source_lang == Lang::Auto {
            Lang::EN
        } else {
            state.source_lang
        };
        state.source_lang = new_source;
        state.target_lang = new_target;
    }
    match input.target_pick {
        Some(lang) => {
            state.target_lang = lang;
        },
        None => {},
    }
    let changed = state.source_lang != old_source || state.target_lang != old_target;
    let mut requests: Vec<Request> = Vec::new();
    if input.capture_hotkey {
        let req = state.manual_trigger();
        requests.push(req);
    }
    if input.translate_clicked {
        let req = state.manual_trigger();
        requests.push(req);
    }
    if changed {
        let req = state.manual_trigger();
        requests.push(req);
    }
    (false, requests)
}

/// Of the requests one frame dispatches, only the last one can have its
/// response recorded: a response to any earlier request of the same frame is
/// discarded unchanged, and the response to the last one is recorded and
/// ends the pending state.
pub proof fn lemma_frame_requests_most_recent_wins(
    v: SessionView,
    input: FrameInput,
    i: int,
    o: OutcomeView,
)
    requires
        !input.escape,
        0 <= i < frame_trigger_count(v, input),
    ensures
        i < frame_trigger_count(v, input) - 1 ==> respond_spec(
            triggers_n(intents_applied(v, input), frame_trigger_count(v, input)),
            intents_applied(v, input).generation + i + 1,
            o,
        ) == triggers_n(intents_applied(v, input), frame_trigger_count(v, input)),
        i == frame_trigger_count(v, input) - 1 ==> {
            &&& respond_spec(
                triggers_n(intents_applied(v, input), frame_trigger_count(v, input)),
                intents_applied(v, input).generation + i + 1,
                o,
            ).last_result == Some(o)
            &&& !respond_spec(
                triggers_n(intents_applied(v, input), frame_trigger_count(v, input)),
                intents_applied(v, input).generation + i + 1,
                o,
            ).pending
        },
{
}

} // verus!
