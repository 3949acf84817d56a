//! The hotkey chord grammar: modifier names joined by `+` followed by one
//! base key, case-insensitive (for example `"CTRL+SHIFT+D"`). Modifiers are
//! `CTRL`, `SHIFT`, `ALT` and `SUPER`; a base key is one letter or digit.
//! The parser is specified and verified against the grammar, stated over the
//! UTF-8 bytes of the input string.

use vstd::prelude::*;
use vstd::slice::slice_subrange;
use vstd::string::StringSliceAdditionalSpecFns;

verus! {

/// ASCII byte values used by the grammar.
pub const PLUS: u8 = 43;

pub const LOWER_A: u8 = 97;

pub const LOWER_Z: u8 = 122;

pub const UPPER_A: u8 = 65;

pub const UPPER_Z: u8 = 90;

pub const DIGIT_0: u8 = 48;

pub const DIGIT_9: u8 = 57;

pub const UPPER_C: u8 = 67;

pub const UPPER_E: u8 = 69;

pub const UPPER_F: u8 = 70;

pub const UPPER_H: u8 = 72;

pub const UPPER_I: u8 = 73;

pub const UPPER_L: u8 = 76;

pub const UPPER_P: u8 = 80;

pub const UPPER_R: u8 = 82;

pub const UPPER_S: u8 = 83;

pub const UPPER_T: u8 = 84;

pub const UPPER_U: u8 = 85;

/// A parsed chord: the set of modifier keys plus one base key, stored as its
/// upper-case ASCII byte.
#[derive(Clone, Copy, Debug, PartialEq, Eq, Structural)]
pub struct Chord {
    pub ctrl: bool,
    pub shift: bool,
    pub alt: bool,
    pub meta: bool,
    pub key: u8,
}

/// Upper-case folding for a single ASCII byte.
pub open spec fn upper(b: u8) -> u8 {
    if LOWER_A <= b && b <= LOWER_Z {
        (b - 32) as u8
    } else {
        b
    }
}

/// A base key is one upper-case letter or one digit (after folding).
pub open spec fn is_key_byte(b: u8) -> bool {
    (UPPER_A <= b && b <= UPPER_Z) || (DIGIT_0 <= b && b <= DIGIT_9)
}

/// The last token of a chord: exactly one base-key byte.
pub open spec fn is_key_token(t: Seq<u8>) -> bool {
    t.len() == 1 && is_key_byte(upper(t[0]))
}

pub open spec fn is_ctrl_token(t: Seq<u8>) -> bool {
    t.len() == 4 && upper(t[0]) == UPPER_C && upper(t[1]) == UPPER_T && upper(t[2]) == UPPER_R && upper(
        t[3],
    ) == UPPER_L
}

pub open spec fn is_shift_token(t: Seq<u8>) -> bool {
    t.len() == 5 && upper(t[0]) == UPPER_S && upper(t[1]) == UPPER_H && upper(t[2]) == UPPER_I && upper(
        t[3],
    ) == UPPER_F && upper(t[4]) == UPPER_T
}

pub open spec fn is_alt_token(t: Seq<u8>) -> bool {
    t.len() == 3 && upper(t[0]) == UPPER_A && upper(t[1]) == UPPER_L && upper(t[2]) == UPPER_T
}

pub open spec fn is_super_token(t: Seq<u8>) -> bool {
    t.len() == 5 && upper(t[0]) == UPPER_S && upper(t[1]) == UPPER_U && upper(t[2]) == UPPER_P && upper(
        t[3],
    ) == UPPER_E && upper(t[4]) == UPPER_R
}

pub open spec fn is_mod_token(t: Seq<u8>) -> bool {
    is_ctrl_token(t) || is_shift_token(t) || is_alt_token(t) || is_super_token(t)
}

/// The chord with the modifier named by token `t` switched on.
pub open spec fn add_mod(t: Seq<u8>, c: Chord) -> Chord {
    if is_ctrl_token(t) {
        Chord { ctrl: true, ..c }
    } else if is_shift_token(t) {
        Chord { shift: true, ..c }
    } else if is_alt_token(t) {
        Chord { alt: true, ..c }
    } else {
        Chord { meta: true, ..c }
    }
}

/// Index of the first `+` in `s`, or `s.len()` if there is none.
pub open spec fn first_plus(s: Seq<u8>) -> int
    decreases s.len(),
{
    if s.len() == 0 {
        0
    } else if s[0] == PLUS {
        0
    } else {
        1 + first_plus(s.skip(1))
    }
}

pub proof fn lemma_first_plus(s: Seq<u8>)
    ensures
        0 <= first_plus(s) <= s.len(),
        first_plus(s) < s.len() ==> s[first_plus(s)] == PLUS,
        forall|k: int| 0 <= k < first_plus(s) ==> s[k] != PLUS,
    decreases s.len(),
{
    if s.len() == 0 {
    } else if s[0] == PLUS {
    } else {
        lemma_first_plus(s.skip(1));
        assert forall|k: int| 0 <= k < first_plus(s) implies s[k] != PLUS by {
            if k >= 1 {
                assert(s.skip(1)[k - 1] == s[k]);
            }
        }
    }
}

/// The chord denoted by the byte string `s`, or `None` if `s` does not
/// follow the grammar: every token before the last must be a modifier name,
/// and the last token must be a single base key.
pub open spec fn chord_spec(s: Seq<u8>) -> Option<Chord>
    decreases s.len(),
    via chord_spec_decreases
{
    let i = first_plus(s);
    if i == s.len() {
        if is_key_token(s) {
            Some(Chord { ctrl: false, shift: false, alt: false, meta: false, key: upper(s[0]) })
        } else {
            None
        }
    } else {
        let tok = s.subrange(0, i);
        let rest = chord_spec(s.skip(i + 1));
        if is_mod_token(tok) && rest is Some {
            Some(add_mod(tok, rest->Some_0))
        } else {
            None
        }
    }
}

#[via_fn]
proof fn chord_spec_decreases(s: Seq<u8>) {
    lemma_first_plus(s);
}

/// A chord string is well formed when it denotes a chord.
pub open spec fn valid_chord(s: Seq<u8>) -> bool {
    chord_spec(s) is Some
}

fn upper_byte(b: u8) -> (r: u8)
    ensures
        r == upper(b),
{
    if LOWER_A <= b && b <= LOWER_Z {
        b - 32
    } else {
        b
    }
}

fn find_plus(s: &[u8]) -> (i: usize)
    ensures
        i == first_plus(s@),
{
    proof {
        lemma_first_plus(s@);
    }
    let mut j: usize = 0;
    while j < s.len()
        invariant
            0 <= j <= s@.len(),
            forall|k: int| 0 <= k < j ==> s@[k] != PLUS,
        decreases s@.len() - j,
    {
        if s[j] == PLUS {
            proof {
                lemma_first_plus(s@);
                if first_plus(s@) < j {
                    assert(s@[first_plus(s@)] != PLUS);
                }
                if first_plus(s@) > j {
                    assert(s@[j as int] != PLUS);
                }
            }
            return j;
        }
        j += 1;
    }
    proof {
        lemma_first_plus(s@);
        if first_plus(s@) < s@.len() {
            assert(s@[first_plus(s@)] != PLUS);
        }
    }
    j
}

fn is_mod_token_exec(t: &[u8]) -> (r: Option<Chord>)
    ensures
        r is Some <==> is_mod_token(t@),
        is_mod_token(t@) ==> r->Some_0 == add_mod(
            t@,
            Chord { ctrl: false, shift: false, alt: false, meta: false, key: 0 },
        ),
{
    let base = Chord { ctrl: false, shift: false, alt: false, meta: false, key: 0 };
    if t.len() == 4 && upper_byte(t[0]) == UPPER_C && upper_byte(t[1]) == UPPER_T && upper_byte(t[2])
        == UPPER_R && upper_byte(t[3]) == UPPER_L {
        Some(Chord { ctrl: true, ..base })
    } else if t.len() == 5 && upper_byte(t[0]) == UPPER_S && upper_byte(t[1]) == UPPER_H && upper_byte(
        t[2],
    ) == UPPER_I && upper_byte(t[3]) == UPPER_F && upper_byte(t[4]) == UPPER_T {
        Some(Chord { shift: true, ..base })
    } else if t.len() == 3 && upper_byte(t[0]) == UPPER_A && upper_byte(t[1]) == UPPER_L && upper_byte(
        t[2],
    ) == UPPER_T {
        Some(Chord { alt: true, ..base })
    } else if t.len() == 5 && upper_byte(t[0]) == UPPER_S && upper_byte(t[1]) == UPPER_U && upper_byte(
        t[2],
    ) == UPPER_P && upper_byte(t[3]) == UPPER_E && upper_byte(t[4]) == UPPER_R {
        Some(Chord { meta: true, ..base })
    } else {
        None
    }
}

/// Merge the modifier flags of `m` into `c`.
fn merge_mod(m: Chord, c: Chord) -> (r: Chord)
    ensures
        r == (Chord {
            ctrl: c.ctrl || m.ctrl,
            shift: c.shift || m.shift,
            alt: c.alt || m.alt,
            meta: c.meta || m.meta,
            key: c.key,
        }),
{
    Chord {
        ctrl: c.ctrl || m.ctrl,
        shift: c.shift || m.shift,
        alt: c.alt || m.alt,
        meta: c.meta || m.meta,
        key: c.key,
    }
}

fn parse_chord_bytes(s: &[u8]) -> (r: Option<Chord>)
    ensures
        r == chord_spec(s@),
    decreases s@.len(),
{
    proof {
        lemma_first_plus(s@);
    }
    let i = find_plus(s);
    if i == s.len() {
        if s.len() == 1 {
            let k = upper_byte(s[0]);
            if (UPPER_A <= k && k <= UPPER_Z) || (DIGIT_0 <= k && k <= DIGIT_9) {
                Some(Chord { ctrl: false, shift: false, alt: false, meta: false, key: k })
            } else {
                None
            }
        } else {
            None
        }
    } else {
        let tok = slice_subrange(s, 0, i);
        let modifier = is_mod_token_exec(tok);
        match modifier {
            None => None,
            Some(m) => {
                let rest = slice_subrange(s, i + 1, s.len());
                proof {
                    assert(rest@ == s@.skip(i + 1));
                }
                match parse_chord_bytes(rest) {
                    None => None,
                    Some(c) => {
                        let merged = merge_mod(m, c);
                        proof {
                            assert(merged == add_mod(tok@, c));
                        }
                        Some(merged)
                    },
                }
            },
        }
    }
}

/// Parse a chord string such as `"CTRL+SHIFT+D"`. Returns `Some` exactly for
/// the strings that follow the chord grammar, and then returns the chord the
/// string denotes.
pub fn parse_hotkey(s: &str) -> (r: Option<Chord>)
    ensures
        r == chord_spec(s.spec_bytes()),
        r is Some <==> valid_chord(s.spec_bytes()),
{
    let bytes: &[u8] = s.as_bytes();
    parse_chord_bytes(bytes)
}

} // verus!
