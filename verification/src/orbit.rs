//! Escape-time counting: how many steps an orbit takes before it leaves the
//! escape radius, up to a cap. The orbit itself is iterated by the caller,
//! who reports after each step whether the point has escaped.

use vstd::prelude::*;
use crate::colormap::{color_for, BLACK};

verus! {

/// Index of the first step of an orbit that left the escape radius, where
/// `flags[k]` tells whether step `k` did; `flags.len()` where none did.
pub open spec fn first_escape(flags: Seq<bool>) -> nat
    decreases flags.len(),
{
    if flags.len() == 0 {
        0
    } else if flags[0] {
        0
    } else {
        1 + first_escape(flags.drop_first())
    }
}

/// The escape count of an orbit under the cap `cap`: the number of steps
/// taken before the first one that left the escape radius, and `cap` where
/// none of the first `cap` steps did.
pub open spec fn escape_count(flags: Seq<bool>, cap: u32) -> nat {
    if first_escape(flags) < cap {
        first_escape(flags)
    } else {
        cap as nat
    }
}

/// Whether an orbit with the recorded steps `flags` is to be iterated further.
pub open spec fn still_running(flags: Seq<bool>, cap: u32) -> bool {
    flags.len() < cap && first_escape(flags) == flags.len()
}

/// The recorded steps after one more report: the report is taken down while
/// the orbit is running and ignored afterwards.
pub open spec fn after_report(flags: Seq<bool>, cap: u32, escaped: bool) -> Seq<bool> {
    if still_running(flags, cap) {
        flags.push(escaped)
    } else {
        flags
    }
}

/// `first_escape` never exceeds the length, and equals it exactly when no
/// step escaped.
pub proof fn lemma_first_escape(flags: Seq<bool>)
    ensures
        first_escape(flags) <= flags.len(),
        first_escape(flags) == flags.len() <==> forall|k: int|
            0 <= k < flags.len() ==> !flags[k],
        first_escape(flags) < flags.len() ==> flags[first_escape(flags) as int],
        forall|k: int| 0 <= k < first_escape(flags) ==> !flags[k],
    decreases flags.len(),
{
    if flags.len() == 0 {
    } else if flags[0] {
    } else {
        let rest = flags.drop_first();
        lemma_first_escape(rest);
        assert forall|k: int| 0 <= k < first_escape(flags) implies !flags[k] by {
            if k > 0 {
                assert(flags[k] == rest[k - 1]);
            }
        }
        if first_escape(rest) < rest.len() {
            assert(flags[first_escape(flags) as int] == rest[first_escape(rest) as int]);
        }
        if first_escape(rest) == rest.len() {
            assert forall|k: int| 0 <= k < flags.len() implies !flags[k] by {
                if k > 0 {
                    assert(flags[k] == rest[k - 1]);
                }
            }
        } else {
            let j = choose|j: int| 0 <= j < rest.len() && rest[j];
            assert(flags[j + 1] == rest[j]);
        }
    }
}

/// Recording one more step changes `first_escape` only when neither that
/// step nor an earlier one escaped.
pub proof fn lemma_first_escape_push(flags: Seq<bool>, escaped: bool)
    ensures
        first_escape(flags) < flags.len() || escaped ==> first_escape(flags.push(escaped))
            == first_escape(flags),
        first_escape(flags) == flags.len() && !escaped ==> first_escape(flags.push(escaped))
            == flags.len() + 1,
    decreases flags.len(),
{
    lemma_first_escape(flags);
    let longer = flags.push(escaped);
    if flags.len() == 0 {
        assert(longer[0] == escaped);
        assert(longer.drop_first() =~= Seq::<bool>::empty());
        assert(first_escape(longer.drop_first()) == 0);
    } else {
        assert(longer[0] == flags[0]);
        assert(longer.drop_first() =~= flags.drop_first().push(escaped));
        if !flags[0] {
            lemma_first_escape_push(flags.drop_first(), escaped);
            assert(first_escape(longer) == 1 + first_escape(longer.drop_first()));
            assert(first_escape(flags) == 1 + first_escape(flags.drop_first()));
        }
    }
}

/// Counts the steps of one orbit. The caller iterates the orbit and reports
/// after each step whether the point left the escape radius; the counter says
/// when to stop and what the escape count is.
pub struct EscapeCounter {
    steps: u32,
    cap: u32,
    escaped: bool,
    seen: Ghost<Seq<bool>>,
}

impl EscapeCounter {
    #[verifier::type_invariant]
    spec fn wf(self) -> bool {
        &&& self.seen@.len() <= self.cap
        &&& self.escaped <==> first_escape(self.seen@) < self.seen@.len()
        &&& self.steps == first_escape(self.seen@)
    }

    /// The iteration cap that the counter was made with.
    pub closed spec fn cap(&self) -> u32 {
        self.cap
    }

    /// The escape tests recorded so far, in order.
    pub closed spec fn seen(&self) -> Seq<bool> {
        self.seen@
    }

    /// A counter for an orbit that has taken no step yet.
    pub fn new(cap: u32) -> (counter: EscapeCounter)
        ensures
            counter.cap() == cap,
            counter.seen() == Seq::<bool>::empty(),
    {
        EscapeCounter { steps: 0, cap, escaped: false, seen: Ghost(Seq::empty()) }
    }

    /// Whether the orbit is to take another step: it has not escaped and has
    /// taken fewer steps than the cap allows.
    pub fn running(&self) -> (go_on: bool)
        ensures
            go_on == still_running(self.seen(), self.cap()),
    {
        proof {
            use_type_invariant(self);
            lemma_first_escape(self.seen@);
        }
        !self.escaped && self.steps < self.cap
    }

    /// Records the escape test of the step just taken. Once the orbit has
    /// escaped or the cap is reached, further reports change nothing.
    pub fn record(&mut self, escaped: bool)
        ensures
            final(self).cap() == old(self).cap(),
            final(self).seen() == after_report(old(self).seen(), old(self).cap(), escaped),
    {
        proof {
            use_type_invariant(&*self);
            lemma_first_escape(self.seen@);
            lemma_first_escape_push(self.seen@, escaped);
        }
        if !self.escaped && self.steps < self.cap {
            let ghost longer = self.seen@.push(escaped);
            let steps: u32 = if escaped {
                self.steps
            } else {
                self.steps + 1
            };
            *self = EscapeCounter { steps, cap: self.cap, escaped, seen: Ghost(longer) };
        }
    }

    /// The escape count of the steps recorded so far. It never exceeds the
    /// cap, and equals the cap exactly when the cap is reached without escape.
    pub fn count(&self) -> (count: u32)
        ensures
            count == escape_count(self.seen(), self.cap()),
            count <= self.cap(),
            count == self.cap() <==> (self.seen().len() == self.cap() && forall|k: int|
                0 <= k < self.seen().len() ==> !self.seen()[k]),
    {
        proof {
            use_type_invariant(self);
            lemma_first_escape(self.seen@);
        }
        self.steps
    }
}

/// A point whose orbit stays inside the escape radius for all `cap` steps has
/// escape count `cap` and is painted opaque black.
pub proof fn lemma_unescaped_is_black(flags: Seq<bool>, cap: u32)
    requires
        flags.len() >= cap,
        forall|k: int| 0 <= k < cap ==> !flags[k],
    ensures
        escape_count(flags, cap) == cap,
        color_for(escape_count(flags, cap) as u32, cap) == BLACK,
{
    lemma_first_escape(flags);
}

/// The escape count lies between zero and the cap, and equals the cap exactly
/// when none of the first `cap` steps escaped.
pub proof fn lemma_escape_count_bounds(flags: Seq<bool>, cap: u32)
    ensures
        0 <= escape_count(flags, cap) <= cap,
        escape_count(flags, cap) <= flags.len(),
        escape_count(flags, cap) < cap && escape_count(flags, cap) < flags.len()
            ==> flags[escape_count(flags, cap) as int],
        forall|k: int| 0 <= k < escape_count(flags, cap) ==> !flags[k],
        flags.len() >= cap ==> (escape_count(flags, cap) == cap <==> forall|k: int|
            0 <= k < cap ==> !flags[k]),
{
    lemma_first_escape(flags);
}

} // verus!
