use std::future::{pending, ready, Future};
use std::pin::Pin;
use std::task::{Context, Poll, Waker};

use futures_either::futs::{EitherFair, TryEither};
use futures_either::race::{Action, Phase, Side};
use futures_either::{either, either_fair_with, flatten, try_either, try_either_fair_with, Either};

/// Pending for a given number of polls, then ready with its value; counts its polls.
struct Countdown<T> {
    left: u32,
    value: Option<T>,
    polls: u32,
}

impl<T: Unpin> Future for Countdown<T> {
    type Output = T;

    fn poll(mut self: Pin<&mut Self>, _cx: &mut Context<'_>) -> Poll<T> {
        self.polls += 1;
        if self.left == 0 {
            Poll::Ready(self.value.take().unwrap())
        } else {
            self.left -= 1;
            Poll::Pending
        }
    }
}

fn countdown<T>(left: u32, value: T) -> Countdown<T> {
    Countdown { left, value: Some(value), polls: 0 }
}

/// Never ready; counts its polls.
struct Never<T> {
    polls: u32,
    kind: std::marker::PhantomData<fn() -> T>,
}

impl<T> Future for Never<T> {
    type Output = T;

    fn poll(mut self: Pin<&mut Self>, _cx: &mut Context<'_>) -> Poll<T> {
        self.polls += 1;
        Poll::Pending
    }
}

fn never<T>() -> Never<T> {
    Never { polls: 0, kind: std::marker::PhantomData }
}

fn attempt<L, R>(left: &mut L, right: &mut R, side: Side) -> Option<Either<L::Output, R::Output>>
where
    L: Future + Unpin,
    R: Future + Unpin,
{
    let mut cx = Context::from_waker(Waker::noop());
    match side {
        Side::Left => match Pin::new(left).poll(&mut cx) {
            Poll::Ready(v) => Some(Either::Left(v)),
            Poll::Pending => None,
        },
        Side::Right => match Pin::new(right).poll(&mut cx) {
            Poll::Ready(v) => Some(Either::Right(v)),
            Poll::Pending => None,
        },
    }
}

/// Runs one cycle of an unfair race; `None` when it suspends.
fn cycle<L, R>(race: &mut futures_either::futs::Either<L, R>) -> Option<Either<L::Output, R::Output>>
where
    L: Future + Unpin,
    R: Future + Unpin,
{
    let mut side = race.begin();
    loop {
        let report = attempt(&mut race.left, &mut race.right, side);
        match race.report(report) {
            Action::Attempt(s) => side = s,
            Action::Ready(t) => return Some(t),
            Action::Pending => return None,
        }
    }
}

/// Runs one cycle of a fair race; `None` when it suspends.
fn cycle_fair<L, R>(race: &mut EitherFair<L, R>) -> Option<Either<L::Output, R::Output>>
where
    L: Future + Unpin,
    R: Future + Unpin,
{
    let mut side = race.begin();
    loop {
        let report = attempt(&mut race.left, &mut race.right, side);
        match race.report(report) {
            Action::Attempt(s) => side = s,
            Action::Ready(t) => return Some(t),
            Action::Pending => return None,
        }
    }
}

/// Runs one cycle of an unfair race of fallible operands; `None` when it suspends.
fn cycle_try<OL, OR, E, L, R>(race: &mut TryEither<L, R>) -> Option<Result<Either<OL, OR>, E>>
where
    L: Future<Output = Result<OL, E>> + Unpin,
    R: Future<Output = Result<OR, E>> + Unpin,
{
    let mut side = race.begin();
    loop {
        let report = attempt(&mut race.fut.left, &mut race.fut.right, side);
        match race.report(report) {
            Action::Attempt(s) => side = s,
            Action::Ready(t) => return Some(t),
            Action::Pending => return None,
        }
    }
}

/// Runs cycles until the race ends; the result and the number of cycles.
fn run<L, R>(race: &mut futures_either::futs::Either<L, R>, limit: u32) -> (Either<L::Output, R::Output>, u32)
where
    L: Future + Unpin,
    R: Future + Unpin,
{
    for n in 1..=limit {
        if let Some(t) = cycle(race) {
            return (t, n);
        }
    }
    panic!("the race did not end");
}

fn run_try<OL, OR, E, L, R>(race: &mut TryEither<L, R>, limit: u32) -> Result<Either<OL, OR>, E>
where
    L: Future<Output = Result<OL, E>> + Unpin,
    R: Future<Output = Result<OR, E>> + Unpin,
{
    for _ in 0..limit {
        if let Some(t) = cycle_try(race) {
            return t;
        }
    }
    panic!("the race did not end");
}

#[test]
fn left_ready_right_never() {
    let mut race = either(ready(42), pending::<bool>());
    let (out, cycles) = run(&mut race, 5);
    assert_eq!(out, Either::Left(42));
    assert_eq!(cycles, 1);
    assert_eq!(race.phase(), Phase::Resolved);
}

#[test]
fn right_ready_left_never() {
    let mut race = either(pending::<i32>(), ready(false));
    let (out, cycles) = run(&mut race, 5);
    assert_eq!(out, Either::Right(false));
    assert_eq!(cycles, 1);
}

#[test]
fn left_wins_after_pending_cycles() {
    let mut race = either(countdown(3, 7u8), never::<bool>());
    let (out, cycles) = run(&mut race, 10);
    assert_eq!(out, Either::Left(7));
    assert_eq!(cycles, 4);
    assert_eq!(race.left.polls, 4);
    // the right operand is not attempted in the cycle where the left one is ready
    assert_eq!(race.right.polls, 3);
}

#[test]
fn right_wins_after_pending_cycles() {
    let mut race = either(never::<u8>(), countdown(2, "done"));
    let (out, cycles) = run(&mut race, 10);
    assert_eq!(out, Either::Right("done"));
    assert_eq!(cycles, 3);
    assert_eq!(race.left.polls, 3);
    assert_eq!(race.right.polls, 3);
}

#[test]
fn unfair_tie_goes_left() {
    let mut race = either(countdown(0, 1), countdown(0, 2));
    assert_eq!(cycle(&mut race), Some(Either::Left(1)));
    assert_eq!(race.right.polls, 0);
}

#[test]
fn unfair_tie_after_waiting_goes_left() {
    let mut race = either(countdown(2, 'a'), countdown(2, 'b'));
    let (out, cycles) = run(&mut race, 10);
    assert_eq!(out, Either::Left('a'));
    assert_eq!(cycles, 3);
    assert_eq!(race.right.polls, 2);
}

#[test]
fn repeated_pending_cycles() {
    let mut race = either(never::<i32>(), never::<i32>());
    for n in 1..=20u32 {
        assert_eq!(cycle(&mut race), None);
        assert_eq!(race.phase(), Phase::Idle);
        assert_eq!(race.left.polls, n);
        assert_eq!(race.right.polls, n);
    }
}

#[test]
fn steps_of_a_pending_cycle() {
    let mut race = either(never::<i32>(), never::<i32>());
    assert_eq!(race.phase(), Phase::Idle);
    assert_eq!(race.begin(), Side::Left);
    assert_eq!(race.phase(), Phase::Attempting { side: Side::Left, first: true });
    assert_eq!(race.report::<i32, i32>(None), Action::Attempt(Side::Right));
    assert_eq!(race.phase(), Phase::Attempting { side: Side::Right, first: false });
    assert_eq!(race.report::<i32, i32>(None), Action::Pending);
    assert_eq!(race.phase(), Phase::Idle);
}

#[test]
fn fair_first_side_follows_the_coin() {
    let mut race = either_fair_with(ready(1), ready(2), fastrand::Rng::with_seed(1));
    assert_eq!(race.begin_with(false), Side::Right);
    assert_eq!(race.phase(), Phase::Attempting { side: Side::Right, first: true });
    assert_eq!(race.report(Some(Either::<i32, i32>::Right(2))), Action::Ready(Either::Right(2)));
    assert_eq!(race.phase(), Phase::Resolved);

    let mut race = either_fair_with(ready(1), ready(2), fastrand::Rng::with_seed(1));
    assert_eq!(race.begin_with(true), Side::Left);
    assert_eq!(race.report(Some(Either::<i32, i32>::Left(1))), Action::Ready(Either::Left(1)));
}

#[test]
fn fair_right_first_falls_back_to_left() {
    let mut race = either_fair_with(ready(1), never::<i32>(), fastrand::Rng::with_seed(3));
    assert_eq!(race.begin_with(false), Side::Right);
    assert_eq!(race.report::<i32, i32>(None), Action::Attempt(Side::Left));
    assert_eq!(race.report(Some(Either::<i32, i32>::Left(1))), Action::Ready(Either::Left(1)));
}

#[test]
fn fair_one_sided_results() {
    let mut race = either_fair_with(pending::<bool>(), ready(42), fastrand::Rng::with_seed(9));
    assert_eq!(cycle_fair(&mut race), Some(Either::Right(42)));
    let mut race = either_fair_with(ready(42), pending::<bool>(), fastrand::Rng::with_seed(9));
    assert_eq!(cycle_fair(&mut race), Some(Either::Left(42)));
}

fn fair_outcomes(seed: u64, trials: usize) -> Vec<bool> {
    let mut rng = fastrand::Rng::with_seed(seed);
    let mut out = Vec::with_capacity(trials);
    for _ in 0..trials {
        let mut race = either_fair_with(ready(42), ready(false), rng.fork());
        match cycle_fair(&mut race) {
            Some(Either::Left(v)) => {
                assert_eq!(v, 42);
                out.push(true);
            }
            Some(Either::Right(v)) => {
                assert!(!v);
                out.push(false);
            }
            None => panic!("both operands were ready"),
        }
    }
    out
}

#[test]
fn fair_ties_are_balanced() {
    let trials = 10_000;
    let lefts = fair_outcomes(0x5eed, trials).iter().filter(|l| **l).count();
    let fraction = lefts as f64 / trials as f64;
    assert!((fraction - 0.5).abs() <= 0.02, "left fraction {}", fraction);
}

#[test]
fn fair_ties_reproducible_with_seed() {
    let a = fair_outcomes(77, 500);
    let b = fair_outcomes(77, 500);
    assert_eq!(a, b);
    assert!(a.contains(&true) && a.contains(&false));
}

#[test]
fn try_error_from_right_while_left_pending() {
    let mut race = try_either(countdown(3, Ok::<i32, bool>(42)), ready(Err::<bool, bool>(false)));
    assert_eq!(run_try(&mut race, 5), Err(false));
}

#[test]
fn try_error_from_right_left_never() {
    let mut race = try_either(pending::<Result<bool, i32>>(), ready(Err::<i32, i32>(42)));
    assert_eq!(run_try(&mut race, 5), Err(42));
}

#[test]
fn try_unfair_both_ready_goes_left() {
    let mut race = try_either(ready(Ok::<i32, bool>(42)), ready(Err::<bool, bool>(false)));
    assert_eq!(run_try(&mut race, 5), Ok(Either::Left(42)));
}

#[test]
fn try_success_from_right() {
    let mut race = try_either(never::<Result<u8, String>>(), countdown(1, Ok::<&str, String>("up")));
    assert_eq!(run_try(&mut race, 5), Ok(Either::Right("up")));
}

#[test]
fn try_error_from_left() {
    let mut race = try_either(countdown(1, Err::<u8, i64>(-3)), never::<Result<u8, i64>>());
    assert_eq!(run_try(&mut race, 5), Err(-3));
}

#[test]
fn try_fair_steps_fold_the_result() {
    let mut race = try_either_fair_with(
        ready(Ok::<i32, bool>(42)),
        ready(Err::<bool, bool>(false)),
        fastrand::Rng::with_seed(5),
    );
    assert_eq!(race.begin_with(false), Side::Right);
    let step = race.report(Some(Either::<Result<i32, bool>, Result<bool, bool>>::Right(Err(false))));
    assert_eq!(step, Action::Ready(Err(false)));
    assert_eq!(race.phase(), Phase::Resolved);

    let mut race = try_either_fair_with(
        ready(Ok::<i32, bool>(42)),
        ready(Err::<bool, bool>(false)),
        fastrand::Rng::with_seed(5),
    );
    assert_eq!(race.begin_with(true), Side::Left);
    let step = race.report(Some(Either::<Result<i32, bool>, Result<bool, bool>>::Left(Ok(42))));
    assert_eq!(step, Action::Ready(Ok(Either::Left(42))));
}

#[test]
fn try_fair_pending_step_kept() {
    let mut race = try_either_fair_with(
        never::<Result<i32, bool>>(),
        never::<Result<i32, bool>>(),
        fastrand::Rng::with_seed(5),
    );
    let first = race.begin();
    let step = race.report::<i32, i32, bool>(None);
    assert_eq!(step, Action::Attempt(first.other()));
    assert_eq!(race.report::<i32, i32, bool>(None), Action::Pending);
    assert_eq!(race.phase(), Phase::Idle);
}

#[test]
fn flatten_each_case() {
    assert_eq!(flatten(Either::<Result<i32, u8>, Result<bool, u8>>::Left(Ok(42))), Ok(Either::Left(42)));
    assert_eq!(flatten(Either::<Result<i32, u8>, Result<bool, u8>>::Right(Ok(true))), Ok(Either::Right(true)));
    assert_eq!(flatten(Either::<Result<i32, u8>, Result<bool, u8>>::Left(Err(1))), Err(1));
    assert_eq!(flatten(Either::<Result<i32, u8>, Result<bool, u8>>::Right(Err(2))), Err(2));
}

#[test]
fn tagged_payload_round_trip() {
    let t: Either<i32, bool> = Either::Left(42);
    match t {
        Either::Left(v) => assert_eq!(v, 42),
        Either::Right(_) => panic!("wrong side"),
    }
    assert_ne!(Either::<i32, i32>::Left(1), Either::Right(1));
    assert_eq!(Either::<i32, i32>::Right(5), Either::Right(5));
    assert_ne!(Either::<i32, i32>::Left(5), Either::Left(6));
}

#[test]
fn side_other() {
    assert_eq!(Side::Left.other(), Side::Right);
    assert_eq!(Side::Right.other(), Side::Left);
}
