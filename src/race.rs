//! The decisions of a race, as a state machine that a driver consults.
//!
//! A race is driven in cycles. A cycle begins on an idle race and names the
//! operand to attempt first. The driver attempts that operand and reports
//! what it found; the race answers with the next thing to do: attempt the
//! other operand, finish with a tagged result, or suspend until woken.
//! Both operands are attempted in a cycle unless the first one is ready.

use vstd::prelude::*;

use crate::outcome::Either;

verus! {

/// One of the two operands of a race.
#[derive(Clone, Copy, Debug, PartialEq, Eq, Structural)]
pub enum Side {
    Left,
    Right,
}

/// The operand that is not `s`.
pub open spec fn opposite(s: Side) -> Side {
    match s {
        Side::Left => Side::Right,
        Side::Right => Side::Left,
    }
}

impl Side {
    /// The other operand.
    pub fn other(self) -> (r: Side)
        ensures
            r == opposite(self),
    {
        match self {
            Side::Left => Side::Right,
            Side::Right => Side::Left,
        }
    }
}

/// Where a race stands.
#[derive(Clone, Copy, Debug, PartialEq, Eq, Structural)]
pub enum Phase {
    /// Pending, between two cycles.
    Idle,
    /// Pending, in a cycle whose driver is attempting `side`; `first` tells
    /// whether it is the first attempt of the cycle.
    Attempting { side: Side, first: bool },
    /// A result has been reported; the race takes no further step.
    Resolved,
}

/// What the driver does next.
#[derive(Clone, Copy, Debug, PartialEq, Eq)]
pub enum Action<T> {
    /// Attempt this operand and report what it gave.
    Attempt(Side),
    /// The race is over with this result.
    Ready(T),
    /// Neither operand was ready: suspend until one of them wakes the driver.
    Pending,
}

/// The phase of a cycle that attempts `first` first.
pub open spec fn begun(first: Side) -> Phase {
    Phase::Attempting { side: first, first: true }
}

/// Whether `report` is a report on the operand that `p` is attempting:
/// nothing (the operand is pending) or a value tagged with that operand's side.
pub open spec fn fits<A, B>(p: Phase, report: Option<Either<A, B>>) -> bool {
    &&& p is Attempting
    &&& match report {
        Some(Either::Left(_)) => p->side == Side::Left,
        Some(Either::Right(_)) => p->side == Side::Right,
        None => true,
    }
}

/// The phase after a report on the attempted operand, `ready` telling whether it gave a value.
pub open spec fn next_phase(p: Phase, ready: bool) -> Phase {
    match p {
        Phase::Attempting { side, first } => {
            if ready {
                Phase::Resolved
            } else if first {
                Phase::Attempting { side: opposite(side), first: false }
            } else {
                Phase::Idle
            }
        },
        _ => p,
    }
}

/// What the driver does after `report` on the operand that `p` is attempting:
/// a ready operand ends the race at once, with its value and side; a pending
/// one hands over to the other operand, or ends the cycle once both were tried.
pub open spec fn next_action<A, B>(p: Phase, report: Option<Either<A, B>>) -> Action<
    Either<A, B>,
> {
    match report {
        Some(t) => Action::Ready(t),
        None => if p->first {
            Action::Attempt(opposite(p->side))
        } else {
            Action::Pending
        },
    }
}

/// The decision state of one race.
pub struct Race {
    phase: Phase,
}

impl View for Race {
    type V = Phase;

    closed spec fn view(&self) -> Phase {
        self.phase
    }
}

impl Race {
    /// A race that no cycle has touched yet.
    pub fn new() -> (r: Race)
        ensures
            r@ == Phase::Idle,
    {
        Race { phase: Phase::Idle }
    }

    /// Where the race stands.
    pub fn phase(&self) -> (r: Phase)
        ensures
            r == self@,
    {
        self.phase
    }

    /// Begins a cycle on an idle race; `first` is the operand to attempt first.
    pub fn begin(&mut self, first: Side)
        requires
            old(self)@ == Phase::Idle,
        ensures
            final(self)@ == begun(first),
    {
        self.phase = Phase::Attempting { side: first, first: true };
    }

    /// Takes the report on the operand being attempted and says what to do next.
    pub fn report<A, B>(&mut self, report: Option<Either<A, B>>) -> (r: Action<
        Either<A, B>,
    >)
        requires
            fits(old(self)@, report),
        ensures
            final(self)@ == next_phase(old(self)@, report is Some),
            r == next_action(old(self)@, report),
    {
        let (side, first) = match self.phase {
            Phase::Attempting { side, first } => (side, first),
            _ => (Side::Left, false),
        };
        match report {
            Some(t) => {
                self.phase = Phase::Resolved;
                Action::Ready(t)
            },
            None => {
                if first {
                    let next = side.other();
                    self.phase = Phase::Attempting { side: next, first: false };
                    Action::Attempt(next)
                } else {
                    self.phase = Phase::Idle;
                    Action::Pending
                }
            },
        }
    }
}

} // verus!
