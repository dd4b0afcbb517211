//! The tagged outcome of a race, and how a race of fallible operands
//! folds it into one `Result`.

use vstd::prelude::*;

use crate::race::Action;

verus! {

/// The outcome of a race: the value of the operand that finished first,
/// tagged with that operand's side.
#[derive(Clone, Copy, Debug, PartialEq, Eq, Hash)]
pub enum Either<L, R> {
    /// The left operand finished first, with this value.
    Left(L),
    /// The right operand finished first, with this value.
    Right(R),
}

/// What a race of two fallible operands reports for the tagged outcome `t`:
/// a success keeps its side, an error loses it.
pub open spec fn flattened<OL, OR, E>(t: Either<Result<OL, E>, Result<OR, E>>) -> Result<
    Either<OL, OR>,
    E,
> {
    match t {
        Either::Left(Ok(v)) => Ok(Either::Left(v)),
        Either::Right(Ok(v)) => Ok(Either::Right(v)),
        Either::Left(Err(e)) => Err(e),
        Either::Right(Err(e)) => Err(e),
    }
}

/// Folds the tagged outcome of two fallible operands into one `Result`.
pub fn flatten<OL, OR, E>(t: Either<Result<OL, E>, Result<OR, E>>) -> (r: Result<
    Either<OL, OR>,
    E,
>)
    ensures
        r == flattened(t),
{
    match t {
        Either::Left(Ok(v)) => Ok(Either::Left(v)),
        Either::Right(Ok(v)) => Ok(Either::Right(v)),
        Either::Left(Err(e)) => Err(e),
        Either::Right(Err(e)) => Err(e),
    }
}

/// The step of a race of fallible operands, given the step `a` of the race beneath it:
/// its final result is folded by [`flattened`], its other steps are kept.
pub open spec fn flattened_action<OL, OR, E>(
    a: Action<Either<Result<OL, E>, Result<OR, E>>>,
) -> Action<Result<Either<OL, OR>, E>> {
    match a {
        Action::Attempt(s) => Action::Attempt(s),
        Action::Ready(t) => Action::Ready(flattened(t)),
        Action::Pending => Action::Pending,
    }
}

/// Folds the result carried by a step, if any, into one `Result`.
pub fn flatten_action<OL, OR, E>(a: Action<Either<Result<OL, E>, Result<OR, E>>>) -> (r:
    Action<Result<Either<OL, OR>, E>>)
    ensures
        r == flattened_action(a),
{
    match a {
        Action::Attempt(s) => Action::Attempt(s),
        Action::Ready(t) => Action::Ready(flatten(t)),
        Action::Pending => Action::Pending,
    }
}

} // verus!
