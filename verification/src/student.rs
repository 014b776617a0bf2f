//! Control structure of Cooper's finite recurrence for the cumulative
//! distribution function of Student's t distribution.
//!
//! For `v` degrees of freedom the recurrence accumulates one term per divisor
//! `k`, where `k` starts at `2 + v mod 2` and climbs in steps of two while
//! `k <= v - 2`. Which closing formula applies depends on the parity of `v`,
//! with `v == 1` a case of its own. This module fixes the branch and the
//! divisors; the floating-point accumulation is left to the caller.
use vstd::prelude::*;

verus! {

/// The closing formula that applies for a number of degrees of freedom.
#[derive(Clone, Copy, Debug, PartialEq, Eq, Structural)]
pub enum CdfBranch {
    /// Fewer than one degree of freedom: the function is defined as zero.
    Degenerate,
    /// An even number of degrees of freedom: the algebraic formula.
    Even,
    /// Exactly one degree of freedom: the arctangent alone.
    OddUnit,
    /// An odd number of degrees of freedom above one: the arctangent and the
    /// accumulated series.
    Odd,
}

/// The branch for `v` degrees of freedom.
pub open spec fn branch_of(v: int) -> CdfBranch {
    if v < 1 {
        CdfBranch::Degenerate
    } else if v % 2 == 0 {
        CdfBranch::Even
    } else if v == 1 {
        CdfBranch::OddUnit
    } else {
        CdfBranch::Odd
    }
}

/// The first divisor of the recurrence: two for even `v`, three for odd `v`.
pub open spec fn first_divisor(v: int) -> int {
    2 + v % 2
}

/// How many terms the recurrence accumulates.
pub open spec fn step_count(v: int) -> nat {
    if v < 4 {
        0
    } else {
        ((v - first_divisor(v)) / 2) as nat
    }
}

/// The divisors of the recurrence, in the order in which they are used.
pub open spec fn divisors(v: int) -> Seq<int> {
    Seq::new(step_count(v), |i: int| first_divisor(v) + 2 * i)
}

/// Selects the closing formula for `v` degrees of freedom.
pub fn cdf_branch(v: i32) -> (r: CdfBranch)
    ensures
        r == branch_of(v as int),
        r == CdfBranch::Degenerate <==> v < 1,
{
    if v < 1 {
        CdfBranch::Degenerate
    } else if v % 2 == 0 {
        CdfBranch::Even
    } else if v == 1 {
        CdfBranch::OddUnit
    } else {
        CdfBranch::Odd
    }
}

/// The divisors of the recurrence that are still to be used.
#[derive(Clone, Copy, Debug)]
pub struct Recurrence {
    next: i32,
    last: i32,
}

impl Recurrence {
    /// `next` and `last` have one parity, `next` is at least two, and `next`
    /// overshoots `last` by at most two, which still fits the machine integer.
    #[verifier::type_invariant]
    spec fn well_formed(self) -> bool {
        &&& 2 <= self.next
        &&& self.next <= self.last + 2
        &&& self.last + 2 <= i32::MAX
        &&& (self.last + 2 - self.next) % 2 == 0
    }

    /// The remaining divisors, the next one first.
    pub closed spec fn remaining(self) -> Seq<int> {
        Seq::new(
            ((self.last + 2 - self.next) / 2) as nat,
            |i: int| self.next + 2 * i,
        )
    }

    /// The recurrence for `v` degrees of freedom, before its first step.
    pub fn new(v: i32) -> (r: Recurrence)
        ensures
            r.remaining() == divisors(v as int),
    {
        let r = if v < 4 {
            Recurrence { next: 2, last: 0 }
        } else {
            Recurrence { next: 2 + v % 2, last: v - 2 }
        };
        assert(r.remaining() =~= divisors(v as int));
        r
    }

    /// The number of divisors still to be used.
    pub fn len(&self) -> (n: usize)
        ensures
            n == self.remaining().len(),
    {
        proof {
            use_type_invariant(self);
        }
        ((self.last + 2 - self.next) / 2) as usize
    }

    /// Hands out the next divisor, or `None` when the recurrence is complete.
    pub fn next(&mut self) -> (k: Option<i32>)
        ensures
            k.is_none() <==> old(self).remaining().len() == 0,
            k.is_none() ==> *final(self) == *old(self),
            k.is_some() ==> k.unwrap() == old(self).remaining()[0] && final(self).remaining()
                == old(self).remaining().drop_first(),
    {
        proof {
            use_type_invariant(&*self);
        }
        if self.next <= self.last {
            let k = self.next;
            self.next = k + 2;
            assert(self.remaining() =~= old(self).remaining().drop_first());
            Some(k)
        } else {
            None
        }
    }
}

/// The recurrence is entered only from four degrees of freedom on.
pub proof fn lemma_steps_from_four(v: int)
    ensures
        step_count(v) > 0 <==> v >= 4,
{
}

/// The recurrence never takes more than half as many steps as there are
/// degrees of freedom.
pub proof fn lemma_steps_bounded(v: int)
    requires
        v >= 0,
    ensures
        step_count(v) <= v / 2,
        v >= 2 ==> step_count(v) == (v - first_divisor(v)) / 2,
{
}

/// The divisors are exactly the integers of the parity of `v` from the first
/// divisor up to `v - 2`.
pub proof fn lemma_divisors_exact(v: int, k: int)
    ensures
        divisors(v).contains(k) <==> first_divisor(v) <= k <= v - 2 && (k - v) % 2 == 0 && v >= 4,
{
    if first_divisor(v) <= k <= v - 2 && (k - v) % 2 == 0 && v >= 4 {
        let i = (k - first_divisor(v)) / 2;
        assert(divisors(v)[i] == k);
    }
}

/// Each divisor exceeds its predecessor by two, so the divisors are strictly
/// increasing and none is used twice.
pub proof fn lemma_divisors_step(v: int, i: int)
    requires
        0 < i < step_count(v),
    ensures
        divisors(v)[i] == divisors(v)[i - 1] + 2,
{
}

/// No divisor is below two, so no step divides by zero or by one.
pub proof fn lemma_divisors_at_least_two(v: int, i: int)
    requires
        0 <= i < step_count(v),
    ensures
        2 <= divisors(v)[i] <= v - 2,
{
}

/// The branch decides how many steps can occur: none below one degree of
/// freedom, and none for exactly one.
pub proof fn lemma_branch_steps(v: int)
    ensures
        branch_of(v) == CdfBranch::Degenerate ==> step_count(v) == 0,
        branch_of(v) == CdfBranch::OddUnit ==> step_count(v) == 0,
        branch_of(v) == CdfBranch::Even ==> first_divisor(v) == 2,
        branch_of(v) == CdfBranch::Odd ==> first_divisor(v) == 3,
{
}

} // verus!
