//! Racing two operands and reporting which one finished first.

use vstd::prelude::*;

pub mod futs;
pub mod laws;
pub mod outcome;
pub mod race;

pub use outcome::{flatten, Either};

use core::future::Future;

verus! {

/// A race of `left` against `right` in which the left operand wins ties.
pub fn either<L, R>(left: L, right: R) -> (r: futs::Either<L, R>)
    where
        L: Future,
        R: Future,
    ensures
        r.left == left,
        r.right == right,
        r@ == race::Phase::Idle,
{
    futs::Either::new(left, right)
}

/// A race of `left` against `right` in which ties are broken by a coin drawn
/// each cycle from a generator seeded from the thread's own.
pub fn either_fair<L, R>(left: L, right: R) -> (r: futs::EitherFair<L, R>)
    where
        L: Future,
        R: Future,
    ensures
        r.left == left,
        r.right == right,
        r@ == race::Phase::Idle,
{
    futs::EitherFair::new(left, right, fastrand::Rng::new())
}

/// A race of `left` against `right` in which ties are broken by coins drawn from `rng`.
pub fn either_fair_with<L, R>(left: L, right: R, rng: fastrand::Rng) -> (r: futs::EitherFair<L, R>)
    where
        L: Future,
        R: Future,
    ensures
        r.left == left,
        r.right == right,
        r@ == race::Phase::Idle,
{
    futs::EitherFair::new(left, right, rng)
}

/// A race of two fallible operands, left winning ties, that ends with the
/// first success tagged by its side or with the first error.
pub fn try_either<OL, OR, E, L, R>(left: L, right: R) -> (r: futs::TryEither<L, R>)
    where
        L: Future<Output = Result<OL, E>>,
        R: Future<Output = Result<OR, E>>,
    ensures
        r.fut.left == left,
        r.fut.right == right,
        r@ == race::Phase::Idle,
{
    futs::TryEither { fut: either(left, right) }
}

/// The fair counterpart of [`try_either`], its coins drawn from a generator
/// seeded from the thread's own.
pub fn try_either_fair<OL, OR, E, L, R>(left: L, right: R) -> (r: futs::TryEitherFair<L, R>)
    where
        L: Future<Output = Result<OL, E>>,
        R: Future<Output = Result<OR, E>>,
    ensures
        r.fut.left == left,
        r.fut.right == right,
        r@ == race::Phase::Idle,
{
    futs::TryEitherFair { fut: either_fair(left, right) }
}

/// The fair counterpart of [`try_either`], its coins drawn from `rng`.
pub fn try_either_fair_with<OL, OR, E, L, R>(left: L, right: R, rng: fastrand::Rng) -> (r:
    futs::TryEitherFair<L, R>)
    where
        L: Future<Output = Result<OL, E>>,
        R: Future<Output = Result<OR, E>>,
    ensures
        r.fut.left == left,
        r.fut.right == right,
        r@ == race::Phase::Idle,
{
    futs::TryEitherFair { fut: either_fair_with(left, right, rng) }
}

} // verus!
