//! The hotkey binding registry: a map from parsed chords to the two actions
//! the application knows (quit and capture), filled once at startup.
//! Registration fails on a malformed chord string or on a chord that is
//! already claimed; unregistering everything is idempotent and afterwards no
//! chord dispatches any action.

use vstd::prelude::*;

use crate::chord::{chord_spec, parse_hotkey, valid_chord, Chord};
use vstd::string::StringSliceAdditionalSpecFns;

verus! {

/// The zero-argument actions a chord can be bound to.
#[derive(Clone, Copy, Debug, PartialEq, Eq, Structural)]
pub enum HotkeyAction {
    /// Terminate the process.
    Quit,
    /// Run the capture sequence: synthetic copy, clipboard read, handoff.
    Capture,
}

/// Why a registration was refused.
#[derive(Clone, Copy, Debug, PartialEq, Eq, Structural)]
pub enum RegistrationError {
    /// The chord string does not follow the chord grammar.
    MalformedChord,
    /// The chord is already claimed by an earlier registration.
    AlreadyClaimed,
}

/// The action bound to chord `c`, scanning the bindings in registration
/// order; `None` when `c` is not bound.
pub open spec fn lookup(bs: Seq<(Chord, HotkeyAction)>, c: Chord) -> Option<HotkeyAction>
    decreases bs.len(),
{
    if bs.len() == 0 {
        None
    } else if bs[0].0 == c {
        Some(bs[0].1)
    } else {
        lookup(bs.skip(1), c)
    }
}

/// The set of chord-to-action bindings currently registered.
pub struct HotkeyRegistry {
    pub bindings: Vec<(Chord, HotkeyAction)>,
}

impl HotkeyRegistry {
    /// A fresh registry with no binding.
    pub fn new() -> (r: HotkeyRegistry)
        ensures
            r.bindings@ == Seq::<(Chord, HotkeyAction)>::empty(),
    {
        HotkeyRegistry { bindings: Vec::new() }
    }

    /// Register `action` under the chord string `combo`. Succeeds exactly
    /// when `combo` follows the chord grammar and its chord is not yet
    /// claimed; then the binding is appended. A malformed string gives
    /// `MalformedChord`, a well-formed but claimed chord gives
    /// `AlreadyClaimed`, and a failed registration changes nothing.
    pub fn register(&mut self, combo: &str, action: HotkeyAction) -> (r: Result<
        Chord,
        RegistrationError,
    >)
        ensures
            !valid_chord(combo.spec_bytes()) ==> r == Result::<
                Chord,
                RegistrationError,
            >::Err(RegistrationError::MalformedChord),
            valid_chord(combo.spec_bytes()) && lookup(
                old(self).bindings@,
                chord_spec(combo.spec_bytes())->Some_0,
            ) is Some ==> r == Result::<Chord, RegistrationError>::Err(
                RegistrationError::AlreadyClaimed,
            ),
            valid_chord(combo.spec_bytes()) && lookup(
                old(self).bindings@,
                chord_spec(combo.spec_bytes())->Some_0,
            ) is None ==> {
                &&& r == Result::<Chord, RegistrationError>::Ok(
                    chord_spec(combo.spec_bytes())->Some_0,
                )
                &&& final(self).bindings@ == old(self).bindings@.push(
                    (chord_spec(combo.spec_bytes())->Some_0, action),
                )
            },
            r is Err ==> final(self).bindings@ == old(self).bindings@,
    {
        match parse_hotkey(combo) {
            None => Err(RegistrationError::MalformedChord),
            Some(chord) => {
                match self.dispatch(chord) {
                    Some(_) => Err(RegistrationError::AlreadyClaimed),
                    None => {
                        self.bindings.push((chord, action));
                        Ok(chord)
                    },
                }
            },
        }
    }

    /// The action that chord `c` fires, if any: the OS-side dispatch loop
    /// asks this for every chord it observes.
    pub fn dispatch(&self, c: Chord) -> (r: Option<HotkeyAction>)
        ensures
            r == lookup(self.bindings@, c),
    {
        let n = self.bindings.len();
        let mut j: usize = 0;
        proof {
            assert(self.bindings@.skip(0) =~= self.bindings@);
        }
        while j < n
            invariant
                0 <= j <= n,
                n == self.bindings@.len(),
                lookup(self.bindings@, c) == lookup(self.bindings@.skip(j as int), c),
            decreases n - j,
        {
            proof {
                assert(self.bindings@.skip(j as int)[0] == self.bindings@[j as int]);
                assert(self.bindings@.skip(j as int).skip(1) =~= self.bindings@.skip(j + 1));
            }
            let (bc, ba) = self.bindings[j];
            if bc == c {
                return Some(ba);
            }
            j += 1;
        }
        proof {
            assert(self.bindings@.skip(j as int) =~= Seq::<(Chord, HotkeyAction)>::empty());
        }
        None
    }

    /// Remove every binding. Calling this any number of times never errors
    /// and always leaves the registry empty.
    pub fn unregister_all(&mut self)
        ensures
            final(self).bindings@ == Seq::<(Chord, HotkeyAction)>::empty(),
    {
        self.bindings = Vec::new();
    }
}

/// Unregistering everything is idempotent: an empty registry stays empty,
/// and after it no chord dispatches any action, so triggering the quit or
/// capture chord has no effect.
pub proof fn lemma_unregister_all_idempotent(c: Chord)
    ensures
        lookup(Seq::<(Chord, HotkeyAction)>::empty(), c) is None,
{
}

/// A successful registration changes dispatch for its own chord alone: the
/// new chord now fires its action, and every other chord dispatches exactly
/// as before.
pub proof fn lemma_register_extends_dispatch(
    bs: Seq<(Chord, HotkeyAction)>,
    c: Chord,
    a: HotkeyAction,
    d: Chord,
)
    requires
        lookup(bs, c) is None,
    ensures
        lookup(bs.push((c, a)), c) == Some(a),
        d != c ==> lookup(bs.push((c, a)), d) == lookup(bs, d),
    decreases bs.len(),
{
    if bs.len() == 0 {
        assert(bs.push((c, a)).skip(1) =~= Seq::<(Chord, HotkeyAction)>::empty());
    } else {
        assert(bs[0].0 != c);
        assert(bs.push((c, a))[0] == bs[0]);
        assert(bs.push((c, a)).skip(1) =~= bs.skip(1).push((c, a)));
        lemma_register_extends_dispatch(bs.skip(1), c, a, d);
    }
}

} // verus!
