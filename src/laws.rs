//! What a driver that follows the steps of a race observes, over one cycle
//! and over a run of cycles.

use vstd::prelude::*;

use crate::outcome::Either;
use crate::race::{begun, fits, next_action, next_phase, opposite, Action, Phase, Side};

verus! {

/// What attempting operand `s` reports, where the left operand would give
/// `l` and the right one `r` (`None`: still pending).
pub open spec fn report_on<A, B>(s: Side, l: Option<A>, r: Option<B>) -> Option<Either<A, B>> {
    match s {
        Side::Left => match l {
            Some(a) => Some(Either::Left(a)),
            None => None,
        },
        Side::Right => match r {
            Some(b) => Some(Either::Right(b)),
            None => None,
        },
    }
}

/// The value of the first ready operand, checking `first` before the other.
pub open spec fn first_ready<A, B>(first: Side, l: Option<A>, r: Option<B>) -> Option<Either<A, B>> {
    match report_on(first, l, r) {
        Some(t) => Some(t),
        None => report_on(opposite(first), l, r),
    }
}

/// One cycle of an idle race that attempts `first` first, the left operand
/// giving `l` and the right `r`, driven as the steps say: the operands
/// attempted, in order; the last step; and the phase it leaves.
pub open spec fn drive_cycle<A, B>(first: Side, l: Option<A>, r: Option<B>) -> (
    Seq<Side>,
    Action<Either<A, B>>,
    Phase,
) {
    let p0 = begun(first);
    let rep0 = report_on(first, l, r);
    let a0 = next_action(p0, rep0);
    let p1 = next_phase(p0, rep0 is Some);
    match a0 {
        Action::Attempt(s) => {
            let rep1 = report_on(s, l, r);
            (seq![first, s], next_action(p1, rep1), next_phase(p1, rep1 is Some))
        },
        _ => (seq![first], a0, p1),
    }
}

/// Whether every report that [`drive_cycle`] hands the race is one its step accepts.
pub open spec fn cycle_fits<A, B>(first: Side, l: Option<A>, r: Option<B>) -> bool {
    let p0 = begun(first);
    let rep0 = report_on(first, l, r);
    let p1 = next_phase(p0, rep0 is Some);
    &&& fits(p0, rep0)
    &&& (rep0 is None ==> fits(p1, report_on(opposite(first), l, r)))
}

/// A race driven one cycle after another from cycle `i` on: cycle `k`
/// attempts `firsts[k]` first and finds the operands giving `ls[k]` and
/// `rs[k]`. The first cycle that ends the race, with its result; `None` if
/// the race is still pending after the last cycle.
pub open spec fn run_from<A, B>(
    firsts: Seq<Side>,
    ls: Seq<Option<A>>,
    rs: Seq<Option<B>>,
    i: int,
) -> Option<(int, Either<A, B>)>
    decreases firsts.len() - i,
{
    if i < 0 || i >= firsts.len() {
        None
    } else {
        let c = drive_cycle(firsts[i], ls[i], rs[i]);
        if c.2 == Phase::Idle {
            run_from(firsts, ls, rs, i + 1)
        } else {
            match c.1 {
                Action::Ready(t) => Some((i, t)),
                _ => None,
            }
        }
    }
}

/// A cycle attempts its first operand, and the other one exactly when the
/// first is pending. It ends with the value of the first ready operand,
/// tagged by its side, and leaves the race resolved; when neither is ready
/// it suspends and leaves the race idle, as it found it. Every report it
/// makes is one the race accepts.
pub proof fn lemma_cycle<A, B>(first: Side, l: Option<A>, r: Option<B>)
    ensures
        cycle_fits(first, l, r),
        drive_cycle(first, l, r).0 == (if report_on(first, l, r) is Some {
            seq![first]
        } else {
            seq![first, opposite(first)]
        }),
        drive_cycle(first, l, r).1 == (match first_ready(first, l, r) {
            Some(t) => Action::Ready(t),
            None => Action::Pending,
        }),
        drive_cycle(first, l, r).2 == (if first_ready(first, l, r) is Some {
            Phase::Resolved
        } else {
            Phase::Idle
        }),
{
}

/// When both operands are ready in the same cycle of a race that attempts
/// the left operand first, the left operand wins, and the right one is not
/// attempted.
pub proof fn lemma_left_wins_ties<A, B>(a: A, b: B)
    ensures
        drive_cycle(Side::Left, Some(a), Some(b)) == (
            seq![Side::Left],
            Action::<Either<A, B>>::Ready(Either::Left(a)),
            Phase::Resolved,
        ),
{
}

/// A cycle in which neither operand is ready attempts both, suspends, and
/// leaves the race idle, as it found it; so any number of such cycles in a
/// row do the same, and none of them ends the race.
pub proof fn lemma_pending_cycles<A, B>(firsts: Seq<Side>, ls: Seq<Option<A>>, rs: Seq<Option<B>>)
    requires
        ls.len() == firsts.len(),
        rs.len() == firsts.len(),
        forall|i: int| 0 <= i < firsts.len() ==> ls[i] is None,
        forall|i: int| 0 <= i < firsts.len() ==> rs[i] is None,
    ensures
        forall|i: int|
            0 <= i < firsts.len() ==> #[trigger] drive_cycle(firsts[i], ls[i], rs[i]) == (
                seq![firsts[i], opposite(firsts[i])],
                Action::<Either<A, B>>::Pending,
                Phase::Idle,
            ),
        run_from(firsts, ls, rs, 0) == None::<(int, Either<A, B>)>,
{
    lemma_pending_from(firsts, ls, rs, 0);
}

proof fn lemma_pending_from<A, B>(
    firsts: Seq<Side>,
    ls: Seq<Option<A>>,
    rs: Seq<Option<B>>,
    j: int,
)
    requires
        0 <= j,
        ls.len() == firsts.len(),
        rs.len() == firsts.len(),
        forall|i: int| 0 <= i < firsts.len() ==> ls[i] is None,
        forall|i: int| 0 <= i < firsts.len() ==> rs[i] is None,
    ensures
        run_from(firsts, ls, rs, j) == None::<(int, Either<A, B>)>,
    decreases firsts.len() - j,
{
    if j < firsts.len() {
        lemma_pending_from(firsts, ls, rs, j + 1);
    }
}

/// When the left operand becomes ready with `v` at cycle `k`, after pending
/// in every earlier cycle, and the right operand never becomes ready, the
/// race ends at cycle `k` with `Left(v)`, whichever operand each cycle
/// attempts first.
pub proof fn lemma_left_alone<A, B>(
    firsts: Seq<Side>,
    ls: Seq<Option<A>>,
    rs: Seq<Option<B>>,
    k: int,
    v: A,
)
    requires
        ls.len() == firsts.len(),
        rs.len() == firsts.len(),
        0 <= k < firsts.len(),
        forall|i: int| 0 <= i < k ==> ls[i] is None,
        ls[k] == Some(v),
        forall|i: int| 0 <= i < firsts.len() ==> rs[i] is None,
    ensures
        run_from(firsts, ls, rs, 0) == Some((k, Either::<A, B>::Left(v))),
{
    lemma_left_alone_from(firsts, ls, rs, k, v, 0);
}

proof fn lemma_left_alone_from<A, B>(
    firsts: Seq<Side>,
    ls: Seq<Option<A>>,
    rs: Seq<Option<B>>,
    k: int,
    v: A,
    j: int,
)
    requires
        ls.len() == firsts.len(),
        rs.len() == firsts.len(),
        0 <= j <= k < firsts.len(),
        forall|i: int| 0 <= i < k ==> ls[i] is None,
        ls[k] == Some(v),
        forall|i: int| 0 <= i < firsts.len() ==> rs[i] is None,
    ensures
        run_from(firsts, ls, rs, j) == Some((k, Either::<A, B>::Left(v))),
    decreases k - j,
{
    if j < k {
        lemma_left_alone_from(firsts, ls, rs, k, v, j + 1);
    }
}

/// When the right operand becomes ready with `v` at cycle `k`, after pending
/// in every earlier cycle, and the left operand never becomes ready, the
/// race ends at cycle `k` with `Right(v)`, whichever operand each cycle
/// attempts first.
pub proof fn lemma_right_alone<A, B>(
    firsts: Seq<Side>,
    ls: Seq<Option<A>>,
    rs: Seq<Option<B>>,
    k: int,
    v: B,
)
    requires
        ls.len() == firsts.len(),
        rs.len() == firsts.len(),
        0 <= k < firsts.len(),
        forall|i: int| 0 <= i < k ==> rs[i] is None,
        rs[k] == Some(v),
        forall|i: int| 0 <= i < firsts.len() ==> ls[i] is None,
    ensures
        run_from(firsts, ls, rs, 0) == Some((k, Either::<A, B>::Right(v))),
{
    lemma_right_alone_from(firsts, ls, rs, k, v, 0);
}

proof fn lemma_right_alone_from<A, B>(
    firsts: Seq<Side>,
    ls: Seq<Option<A>>,
    rs: Seq<Option<B>>,
    k: int,
    v: B,
    j: int,
)
    requires
        ls.len() == firsts.len(),
        rs.len() == firsts.len(),
        0 <= j <= k < firsts.len(),
        forall|i: int| 0 <= i < k ==> rs[i] is None,
        rs[k] == Some(v),
        forall|i: int| 0 <= i < firsts.len() ==> ls[i] is None,
    ensures
        run_from(firsts, ls, rs, j) == Some((k, Either::<A, B>::Right(v))),
    decreases k - j,
{
    if j < k {
        lemma_right_alone_from(firsts, ls, rs, k, v, j + 1);
    }
}

} // verus!
