//! The per-window translation session state machine. A session owns the
//! current text, source and target language, the pending flag and the last
//! recorded outcome. Triggers (creation, a language change, the swap action,
//! the manual translate action) dispatch exactly one provider request
//! carrying the session's current values; responses are applied under a
//! most-recent-wins policy keyed by a generation counter, so that a stale
//! response for a superseded request is discarded.

use vstd::prelude::*;

use crate::lang::{fallback_lang, Lang};

verus! {

/// What a finished provider call left behind: the translated text, or a
/// user-visible failure (network, auth or quota errors are opaque here).
#[derive(Debug, PartialEq, Eq)]
pub enum Outcome {
    Translated(String),
    Failed,
}

/// Mathematical value of an [`Outcome`].
pub enum OutcomeView {
    Translated(Seq<char>),
    Failed,
}

impl View for Outcome {
    type V = OutcomeView;

    open spec fn view(&self) -> OutcomeView {
        match self {
            Outcome::Translated(s) => OutcomeView::Translated(s@),
            Outcome::Failed => OutcomeView::Failed,
        }
    }
}

/// Mathematical value of a session: what the contracts speak of.
pub struct SessionView {
    pub text: Seq<char>,
    pub source: Lang,
    pub target: Lang,
    pub pending: bool,
    pub last_result: Option<OutcomeView>,
    pub generation: int,
}

/// A session is well formed when its target language is never `Auto` and its
/// generation counter never ran backwards below zero.
pub open spec fn wf_session(v: SessionView) -> bool {
    &&& v.target != Lang::Auto
    &&& v.generation >= 0
}

/// A dispatched translation request: the values handed to the provider,
/// tagged with the generation that dispatched it.
pub struct Request {
    pub text: String,
    pub source: Lang,
    pub target: Lang,
    pub generation: u64,
}

/// Mathematical value of a [`Request`].
pub struct RequestView {
    pub text: Seq<char>,
    pub source: Lang,
    pub target: Lang,
    pub generation: int,
}

impl View for Request {
    type V = RequestView;

    open spec fn view(&self) -> RequestView {
        RequestView {
            text: self.text@,
            source: self.source,
            target: self.target,
            generation: self.generation as int,
        }
    }
}

/// The session as first created from a capture, before its first trigger.
pub open spec fn initial_session(text: Seq<char>, source: Lang, target: Lang) -> SessionView {
    SessionView { text, source, target, pending: false, last_result: None, generation: 0 }
}

/// A trigger marks the session pending and advances the generation; nothing
/// else changes.
pub open spec fn trigger_spec(v: SessionView) -> SessionView {
    SessionView { pending: true, generation: v.generation + 1, ..v }
}

/// The one request a trigger dispatches: exactly the session's current text,
/// source and target, under the generation the trigger reached.
pub open spec fn request_spec(v: SessionView) -> RequestView {
    RequestView { text: v.text, source: v.source, target: v.target, generation: v.generation }
}

/// The swap action on the language pair: source and target are exchanged,
/// except that a pre-swap `Auto` source makes the new target the fallback
/// language, since `Auto` is not valid as a target.
pub open spec fn swap_spec(v: SessionView) -> SessionView {
    SessionView {
        source: v.target,
        target: if v.source == Lang::Auto {
            fallback_lang()
        } else {
            v.source
        },
        ..v
    }
}

/// Applying a provider response: only a response for the most recently
/// dispatched generation is recorded; any other is discarded unchanged.
pub open spec fn respond_spec(v: SessionView, generation: int, outcome: OutcomeView) -> SessionView {
    if generation == v.generation {
        SessionView { pending: false, last_result: Some(outcome), ..v }
    } else {
        v
    }
}

/// One open translation session's mutable state.
pub struct State {
    pub text: String,
    pub source_lang: Lang,
    pub target_lang: Lang,
    pub pending: bool,
    pub last_result: Option<Outcome>,
    pub generation: u64,
}

impl View for State {
    type V = SessionView;

    open spec fn view(&self) -> SessionView {
        SessionView {
            text: self.text@,
            source: self.source_lang,
            target: self.target_lang,
            pending: self.pending,
            last_result: match self.last_result {
                Option::None => Option::None,
                Option::Some(o) => Option::Some(o@),
            },
            generation: self.generation as int,
        }
    }
}

impl State {
    /// A session is created together with its first translation trigger:
    /// it starts pending, with the captured text and one dispatched request.
    pub fn create(text: String, source: Lang, target: Lang) -> (r: (State, Request))
        requires
            target != Lang::Auto,
        ensures
            r.0@ == trigger_spec(initial_session(text@, source, target)),
            r.1@ == request_spec(r.0@),
            wf_session(r.0@),
    {
        let st = State {
            text,
            source_lang: source,
            target_lang: target,
            pending: true,
            last_result: None,
            generation: 1,
        };
        let req = Request {
            text: st.text.clone(),
            source: st.source_lang,
            target: st.target_lang,
            generation: st.generation,
        };
        (st, req)
    }

    /// The manual translate action: always one more trigger, dispatching one
    /// request with the session's current values.
    pub fn manual_trigger(&mut self) -> (r: Request)
        requires
            old(self).generation < u64::MAX,
        ensures
            final(self)@ == trigger_spec(old(self)@),
            r@ == request_spec(final(self)@),
            wf_session(old(self)@) ==> wf_session(final(self)@),
    {
        self.pending = true;
        self.generation = self.generation + 1;
        Request {
            text: self.text.clone(),
            source: self.source_lang,
            target: self.target_lang,
            generation: self.generation,
        }
    }

    /// Select a source language. A change dispatches one request; selecting
    /// the already current source changes nothing and dispatches nothing.
    pub fn set_source_lang(&mut self, lang: Lang) -> (r: Option<Request>)
        requires
            old(self).generation < u64::MAX,
        ensures
            lang == old(self).source_lang ==> final(self)@ == old(self)@ && r is None,
            lang != old(self).source_lang ==> {
                &&& final(self)@ == trigger_spec(SessionView { source: lang, ..old(self)@ })
                &&& r matches Some(req) && req@ == request_spec(final(self)@)
            },
            wf_session(old(self)@) ==> wf_session(final(self)@),
    {
        if lang == self.source_lang {
            None
        } else {
            self.source_lang = lang;
            Some(self.manual_trigger())
        }
    }

    /// Select a target language (never `Auto`). A change dispatches one
    /// request; selecting the current target changes nothing.
    pub fn set_target_lang(&mut self, lang: Lang) -> (r: Option<Request>)
        requires
            old(self).generation < u64::MAX,
            lang != Lang::Auto,
        ensures
            lang == old(self).target_lang ==> final(self)@ == old(self)@ && r is None,
            lang != old(self).target_lang ==> {
                &&& final(self)@ == trigger_spec(SessionView { target: lang, ..old(self)@ })
                &&& r matches Some(req) && req@ == request_spec(final(self)@)
            },
            wf_session(old(self)@) ==> wf_session(final(self)@),
    {
        if lang == self.target_lang {
            None
        } else {
            self.target_lang = lang;
            Some(self.manual_trigger())
        }
    }

    /// Free-text edits alone do not trigger a translation: only the text
    /// changes, and no request is dispatched.
    pub fn set_text(&mut self, text: String)
        ensures
            final(self)@ == (SessionView { text: text@, ..old(self)@ }),
    {
        self.text = text;
    }

    /// The swap action. When the language pair actually changes this is a
    /// language change, so it dispatches one request; a swap that leaves the
    /// pair as it was (source equal to target) changes nothing.
    pub fn swap_langs(&mut self) -> (r: Option<Request>)
        requires
            old(self).generation < u64::MAX,
        ensures
            swap_spec(old(self)@) == old(self)@ ==> final(self)@ == old(self)@ && r is None,
            swap_spec(old(self)@) != old(self)@ ==> {
                &&& final(self)@ == trigger_spec(swap_spec(old(self)@))
                &&& r matches Some(req) && req@ == request_spec(final(self)@)
            },
            wf_session(old(self)@) ==> wf_session(final(self)@),
    {
        let new_source = self.target_lang;
        let new_target = if self.source_lang == Lang::Auto {
            Lang::EN
        } else {
            self.source_lang
        };
        if new_source == self.source_lang && new_target == self.target_lang {
            proof {
                assert(swap_spec(old(self)@) == old(self)@);
            }
            None
        } else {
            self.source_lang = new_source;
            self.target_lang = new_target;
            Some(self.manual_trigger())
        }
    }

    /// Apply a provider response carrying the generation of the request it
    /// answers. Only a response for the most recently dispatched generation
    /// is recorded (and ends the pending state); a stale response for a
    /// superseded request is discarded without any change.
    pub fn apply_response(&mut self, generation: u64, outcome: Outcome)
        ensures
            final(self)@ == respond_spec(old(self)@, generation as int, outcome@),
            wf_session(old(self)@) ==> wf_session(final(self)@),
    {
        if generation == self.generation {
            self.pending = false;
            self.last_result = Some(outcome);
        }
    }
}

/// Every trigger dispatches a request carrying exactly the session's current
/// text, source language and target language, under the next generation.
pub proof fn lemma_trigger_request_exact(v: SessionView)
    ensures
        request_spec(trigger_spec(v)).text == v.text,
        request_spec(trigger_spec(v)).source == v.source,
        request_spec(trigger_spec(v)).target == v.target,
        request_spec(trigger_spec(v)).generation == v.generation + 1,
        trigger_spec(v).pending,
{
}

/// The swap action exchanges source and target exactly when the source was
/// not `Auto`; when it was, the new source is the prior target and the new
/// target is the fallback language. Either way the result stays well formed
/// and nothing else of the session changes.
pub proof fn lemma_swap_exchanges(v: SessionView)
    requires
        wf_session(v),
    ensures
        v.source != Lang::Auto ==> swap_spec(v).source == v.target && swap_spec(v).target
            == v.source,
        v.source == Lang::Auto ==> swap_spec(v).source == v.target && swap_spec(v).target
            == fallback_lang(),
        wf_session(swap_spec(v)),
        swap_spec(v).text == v.text,
        swap_spec(v).pending == v.pending,
        swap_spec(v).last_result == v.last_result,
        swap_spec(v).generation == v.generation,
{
}

/// Most-recent-wins: after two triggers in quick succession, the response to
/// the first (superseded) request is discarded unchanged, while the response
/// to the second (latest) request is the one recorded and ends the pending
/// state.
pub proof fn lemma_latest_wins(v: SessionView, stale: OutcomeView, fresh: OutcomeView)
    ensures
        respond_spec(trigger_spec(trigger_spec(v)), trigger_spec(v).generation, stale)
            == trigger_spec(trigger_spec(v)),
        respond_spec(
            trigger_spec(trigger_spec(v)),
            trigger_spec(trigger_spec(v)).generation,
            fresh,
        ).last_result == Some(fresh),
        !respond_spec(
            trigger_spec(trigger_spec(v)),
            trigger_spec(trigger_spec(v)).generation,
            fresh,
        ).pending,
{
}

/// A recorded response never changes the text or the language pair, whether
/// it is recorded or discarded.
pub proof fn lemma_response_touches_only_result(v: SessionView, generation: int, o: OutcomeView)
    ensures
        respond_spec(v, generation, o).text == v.text,
        respond_spec(v, generation, o).source == v.source,
        respond_spec(v, generation, o).target == v.target,
        respond_spec(v, generation, o).generation == v.generation,
{
}

} // verus!
