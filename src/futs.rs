//! The four combinators: each owns its two operands and the decisions of
//! its race. A driver polls the operands that a step names and reports back.

use vstd::prelude::*;

use crate::outcome;
use crate::outcome::{flatten_action, flattened_action};
use crate::race::{begun, fits, next_action, next_phase, Action, Phase, Race, Side};

verus! {

/// `fastrand::Rng`, a seedable generator of pseudo-random numbers; opaque here.
#[verifier::external_type_specification]
#[verifier::external_body]
pub struct ExRng(fastrand::Rng);

/// Relies on `fastrand::Rng::new`: a generator seeded from the thread's own generator.
pub assume_specification[ fastrand::Rng::new ]() -> fastrand::Rng;

/// Relies on `fastrand::Rng::bool`: draws one pseudo-random `bool`, advancing the generator.
pub assume_specification[ fastrand::Rng::bool ](rng: &mut fastrand::Rng) -> bool;

/// A race that attempts its left operand first in every cycle.
pub struct Either<L, R> {
    /// The left operand.
    pub left: L,
    /// The right operand.
    pub right: R,
    /// The decisions of this race.
    pub race: Race,
}

impl<L, R> View for Either<L, R> {
    type V = Phase;

    open spec fn view(&self) -> Phase {
        self.race@
    }
}

impl<L, R> Either<L, R> {
    /// A pending race over `left` and `right`.
    pub fn new(left: L, right: R) -> (r: Either<L, R>)
        ensures
            r.left == left,
            r.right == right,
            r@ == Phase::Idle,
    {
        Either { left, right, race: Race::new() }
    }

    /// Where the race stands.
    pub fn phase(&self) -> (r: Phase)
        ensures
            r == self@,
    {
        self.race.phase()
    }

    /// Begins a cycle: the left operand is attempted first.
    pub fn begin(&mut self) -> (r: Side)
        requires
            old(self)@ == Phase::Idle,
        ensures
            r == Side::Left,
            final(self)@ == begun(r),
            final(self).left == old(self).left,
            final(self).right == old(self).right,
    {
        self.race.begin(Side::Left);
        Side::Left
    }

    /// Takes the report on the operand being attempted and says what to do next.
    pub fn report<A, B>(&mut self, report: Option<outcome::Either<A, B>>) -> (r: Action<
        outcome::Either<A, B>,
    >)
        requires
            fits(old(self)@, report),
        ensures
            final(self)@ == next_phase(old(self)@, report is Some),
            r == next_action(old(self)@, report),
            final(self).left == old(self).left,
            final(self).right == old(self).right,
    {
        self.race.report(report)
    }
}

/// A race that draws, at the start of each cycle, which operand to attempt first.
pub struct EitherFair<L, R> {
    /// The left operand.
    pub left: L,
    /// The right operand.
    pub right: R,
    /// The decisions of this race.
    pub race: Race,
    /// Where the coin of each cycle comes from.
    pub rng: fastrand::Rng,
}

impl<L, R> View for EitherFair<L, R> {
    type V = Phase;

    open spec fn view(&self) -> Phase {
        self.race@
    }
}

impl<L, R> EitherFair<L, R> {
    /// A pending race over `left` and `right` whose draws come from `rng`.
    pub fn new(left: L, right: R, rng: fastrand::Rng) -> (r: EitherFair<L, R>)
        ensures
            r.left == left,
            r.right == right,
            r@ == Phase::Idle,
    {
        EitherFair { left, right, race: Race::new(), rng }
    }

    /// Where the race stands.
    pub fn phase(&self) -> (r: Phase)
        ensures
            r == self@,
    {
        self.race.phase()
    }

    /// Begins a cycle that attempts the left operand first if `left_first`, else the right one.
    pub fn begin_with(&mut self, left_first: bool) -> (r: Side)
        requires
            old(self)@ == Phase::Idle,
        ensures
            r == (if left_first {
                Side::Left
            } else {
                Side::Right
            }),
            final(self)@ == begun(r),
            final(self).left == old(self).left,
            final(self).right == old(self).right,
    {
        let first = if left_first {
            Side::Left
        } else {
            Side::Right
        };
        self.race.begin(first);
        first
    }

    /// Begins a cycle whose first operand is drawn from the race's generator.
    pub fn begin(&mut self) -> (r: Side)
        requires
            old(self)@ == Phase::Idle,
        ensures
            final(self)@ == begun(r),
            final(self).left == old(self).left,
            final(self).right == old(self).right,
    {
        let left_first = self.rng.bool();
        self.begin_with(left_first)
    }

    /// Takes the report on the operand being attempted and says what to do next.
    pub fn report<A, B>(&mut self, report: Option<outcome::Either<A, B>>) -> (r: Action<
        outcome::Either<A, B>,
    >)
        requires
            fits(old(self)@, report),
        ensures
            final(self)@ == next_phase(old(self)@, report is Some),
            r == next_action(old(self)@, report),
            final(self).left == old(self).left,
            final(self).right == old(self).right,
    {
        self.race.report(report)
    }
}

/// A race of two fallible operands that attempts its left operand first in every cycle.
pub struct TryEither<L, R> {
    /// The race of the two operands, before folding.
    pub fut: Either<L, R>,
}

impl<L, R> View for TryEither<L, R> {
    type V = Phase;

    open spec fn view(&self) -> Phase {
        self.fut@
    }
}

impl<L, R> TryEither<L, R> {
    /// Where the race stands.
    pub fn phase(&self) -> (r: Phase)
        ensures
            r == self@,
    {
        self.fut.phase()
    }

    /// Begins a cycle: the left operand is attempted first.
    pub fn begin(&mut self) -> (r: Side)
        requires
            old(self)@ == Phase::Idle,
        ensures
            r == Side::Left,
            final(self)@ == begun(r),
            final(self).fut.left == old(self).fut.left,
            final(self).fut.right == old(self).fut.right,
    {
        self.fut.begin()
    }

    /// Takes the report on the operand being attempted and says what to do next;
    /// a final result is folded so that an error from either side ends the race as that error.
    pub fn report<OL, OR, E>(
        &mut self,
        report: Option<outcome::Either<Result<OL, E>, Result<OR, E>>>,
    ) -> (r: Action<Result<outcome::Either<OL, OR>, E>>)
        requires
            fits(old(self)@, report),
        ensures
            final(self)@ == next_phase(old(self)@, report is Some),
            r == flattened_action(next_action(old(self)@, report)),
            final(self).fut.left == old(self).fut.left,
            final(self).fut.right == old(self).fut.right,
    {
        let a = self.fut.report(report);
        flatten_action(a)
    }
}

/// A race of two fallible operands that draws, at the start of each cycle,
/// which operand to attempt first.
pub struct TryEitherFair<L, R> {
    /// The race of the two operands, before folding.
    pub fut: EitherFair<L, R>,
}

impl<L, R> View for TryEitherFair<L, R> {
    type V = Phase;

    open spec fn view(&self) -> Phase {
        self.fut@
    }
}

impl<L, R> TryEitherFair<L, R> {
    /// Where the race stands.
    pub fn phase(&self) -> (r: Phase)
        ensures
            r == self@,
    {
        self.fut.phase()
    }

    /// Begins a cycle that attempts the left operand first if `left_first`, else the right one.
    pub fn begin_with(&mut self, left_first: bool) -> (r: Side)
        requires
            old(self)@ == Phase::Idle,
        ensures
            r == (if left_first {
                Side::Left
            } else {
                Side::Right
            }),
            final(self)@ == begun(r),
            final(self).fut.left == old(self).fut.left,
            final(self).fut.right == old(self).fut.right,
    {
        self.fut.begin_with(left_first)
    }

    /// Begins a cycle whose first operand is drawn from the race's generator.
    pub fn begin(&mut self) -> (r: Side)
        requires
            old(self)@ == Phase::Idle,
        ensures
            final(self)@ == begun(r),
            final(self).fut.left == old(self).fut.left,
            final(self).fut.right == old(self).fut.right,
    {
        self.fut.begin()
    }

    /// Takes the report on the operand being attempted and says what to do next;
    /// a final result is folded so that an error from either side ends the race as that error.
    pub fn report<OL, OR, E>(
        &mut self,
        report: Option<outcome::Either<Result<OL, E>, Result<OR, E>>>,
    ) -> (r: Action<Result<outcome::Either<OL, OR>, E>>)
        requires
            fits(old(self)@, report),
        ensures
            final(self)@ == next_phase(old(self)@, report is Some),
            r == flattened_action(next_action(old(self)@, report)),
            final(self).fut.left == old(self).fut.left,
            final(self).fut.right == old(self).fut.right,
    {
        let a = self.fut.report(report);
        flatten_action(a)
    }
}

} // verus!
