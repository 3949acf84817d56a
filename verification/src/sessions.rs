//! The session table: one slot per translation window, in the order the
//! windows were opened. The capture path appends a new pending session for a
//! successful clipboard read and does nothing at all for a failed one; a
//! closed window leaves an empty slot, and a provider response delivered to
//! a closed or unknown slot is discarded without touching anything.

use vstd::prelude::*;

use crate::lang::Lang;
use crate::session::{
    initial_session, request_spec, respond_spec, trigger_spec, wf_session, Outcome, Request,
    SessionView, State,
};

verus! {

/// The session a fresh capture opens: the captured text, the chosen language
/// pair, and the first trigger already dispatched.
pub open spec fn new_session(text: Seq<char>, source: Lang, target: Lang) -> SessionView {
    trigger_spec(initial_session(text, source, target))
}

/// What a slot holds: `None` once the window was closed.
pub open spec fn slot_view(s: Option<State>) -> Option<SessionView> {
    match s {
        Option::None => Option::None,
        Option::Some(st) => Option::Some(st@),
    }
}

/// All open translation sessions, one slot per window ever opened.
pub struct SessionTable {
    pub slots: Vec<Option<State>>,
}

impl View for SessionTable {
    type V = Seq<Option<SessionView>>;

    open spec fn view(&self) -> Seq<Option<SessionView>> {
        self.slots@.map_values(|s: Option<State>| slot_view(s))
    }
}

impl SessionTable {
    /// Every open session is well formed.
    pub open spec fn wf(&self) -> bool {
        forall|i: int|
            0 <= i < self@.len() && self@[i] is Some ==> wf_session(self@[i]->Some_0)
    }

    /// An empty table: no capture has happened yet.
    pub fn new() -> (r: SessionTable)
        ensures
            r@ == Seq::<Option<SessionView>>::empty(),
            r.wf(),
    {
        let t = SessionTable { slots: Vec::new() };
        proof {
            assert(t@ =~= Seq::<Option<SessionView>>::empty());
        }
        t
    }

    /// The capture path, after the synthetic copy: `captured` is the
    /// clipboard text, or `None` when the read failed (empty or non-text
    /// clipboard). A failed read is dropped silently: no session is created
    /// and every existing session is left untouched. A successful read opens
    /// exactly one new session, pending, with its first request dispatched.
    pub fn handle_capture(&mut self, captured: Option<String>, source: Lang, target: Lang) -> (r:
        Option<(usize, Request)>)
        requires
            target != Lang::Auto,
        ensures
            captured is None ==> final(self)@ == old(self)@ && r is None,
            captured matches Some(text) ==> {
                &&& r matches Some((id, req))
                &&& id == old(self)@.len()
                &&& final(self)@ == old(self)@.push(Some(new_session(text@, source, target)))
                &&& req@ == request_spec(new_session(text@, source, target))
            },
            old(self).wf() ==> final(self).wf(),
    {
        match captured {
            None => {
                proof {
                    assert(final(self)@ =~= old(self)@);
                }
                None
            },
            Some(text) => {
                let id = self.slots.len();
                let (st, req) = State::create(text, source, target);
                self.slots.push(Some(st));
                proof {
                    assert(final(self)@ =~= old(self)@.push(
                        Some(new_session(st.text@, source, target)),
                    ));
                }
                Some((id, req))
            },
        }
    }

    /// Close a window: its slot is emptied and every other session is left
    /// as it was. Closing an unknown or already closed slot changes nothing.
    pub fn close(&mut self, id: usize)
        ensures
            id < old(self)@.len() ==> final(self)@ == old(self)@.update(id as int, None),
            id >= old(self)@.len() ==> final(self)@ == old(self)@,
            old(self).wf() ==> final(self).wf(),
    {
        if id < self.slots.len() {
            let slot = &mut self.slots[id];
            *slot = None;
            proof {
                assert(final(self)@ =~= old(self)@.update(id as int, None));
            }
        } else {
            proof {
                assert(final(self)@ =~= old(self)@);
            }
        }
    }

    /// Deliver a provider response for the request of generation
    /// `generation` to session `id`. If that window is still open, the
    /// session applies the response under the most-recent-wins rule; if it
    /// was closed (or never existed), the response is discarded and no
    /// session is mutated.
    pub fn deliver(&mut self, id: usize, generation: u64, outcome: Outcome)
        ensures
            id < old(self)@.len() && old(self)@[id as int] is Some ==> final(self)@ == old(
                self,
            )@.update(
                id as int,
                Some(
                    respond_spec(old(self)@[id as int]->Some_0, generation as int, outcome@),
                ),
            ),
            id >= old(self)@.len() || old(self)@[id as int] is None ==> final(self)@ == old(
                self,
            )@,
            old(self).wf() ==> final(self).wf(),
    {
        if id < self.slots.len() {
            let slot = &mut self.slots[id];
            match slot {
                Some(st) => {
                    st.apply_response(generation, outcome);
                    proof {
                        assert(final(self)@ =~= old(self)@.update(
                            id as int,
                            Some(
                                respond_spec(
                                    old(self)@[id as int]->Some_0,
                                    generation as int,
                                    outcome@,
                                ),
                            ),
                        ));
                    }
                },
                None => {
                    proof {
                        assert(final(self)@ =~= old(self)@);
                    }
                },
            }
        } else {
            proof {
                assert(final(self)@ =~= old(self)@);
            }
        }
    }
}

} // verus!
