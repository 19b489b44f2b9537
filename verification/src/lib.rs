//! Progress tracking for long-running operations.
//!
//! An operation owns a [`ProgressUpdater`] and reports through it; every
//! report is published as an immutable [`ProgressUpdate`] on a bounded
//! broadcast channel that any number of observers read independently.
//!
//! This file holds the data model: the lifecycle [`State`], the snapshot
//! type [`ProgressUpdate`] and its mathematical view [`Snapshot`]. The
//! state machine of a controller and its laws are in [`lifecycle`], the
//! controller and the channel in [`updater`], the decisions of an observer
//! in [`observe`].

use vstd::prelude::*;

pub mod lifecycle;
pub mod observe;
pub mod updater;

pub use observe::{Action, Event, Observer};
pub use updater::{channel, progress, subscribe, ProgressUpdater, CHANNEL_CAPACITY};

verus! {

/// The lifecycle state of a progress-tracked operation.
#[derive(Debug, Clone, Copy, PartialEq, Eq, PartialOrd, Ord, Hash, Structural)]
pub enum State {
    /// The operation is in progress.
    Working,
    /// The operation has been completed successfully.
    Completed,
    /// The operation has been paused.
    Paused,
    /// The operation has been cancelled.
    Cancelled,
}

impl State {
    /// A terminal state is one that no operation ever leaves.
    pub open spec fn is_terminal(self) -> bool {
        self is Completed || self is Cancelled
    }

    /// Returns `true` if the state is [`Cancelled`](State::Cancelled).
    #[must_use]
    pub fn is_cancelled(&self) -> (r: bool)
        ensures
            r == (*self is Cancelled),
    {
        matches!(self, Self::Cancelled)
    }

    /// Returns `true` if the state is [`Working`](State::Working).
    #[must_use]
    pub fn is_working(&self) -> (r: bool)
        ensures
            r == (*self is Working),
    {
        matches!(self, Self::Working)
    }

    /// Returns `true` if the state is [`Completed`](State::Completed).
    #[must_use]
    pub fn is_completed(&self) -> (r: bool)
        ensures
            r == (*self is Completed),
    {
        matches!(self, Self::Completed)
    }

    /// Returns `true` if the state is [`Paused`](State::Paused).
    #[must_use]
    pub fn is_paused(&self) -> (r: bool)
        ensures
            r == (*self is Paused),
    {
        matches!(self, Self::Paused)
    }
}

/// The mathematical value of one progress snapshot: what a
/// [`ProgressUpdate`] holds, with the message as a sequence of characters.
pub struct Snapshot {
    /// The progress counter. It may exceed `total`.
    pub current: nat,
    /// The target value. Zero is legal and leaves the fraction undefined.
    pub total: nat,
    /// The lifecycle state at the instant of the snapshot.
    pub state: State,
    /// The annotation attached to the snapshot, if any.
    pub message: Option<Seq<char>>,
}

impl Snapshot {
    /// Whether the snapshot is the last one of its operation.
    pub open spec fn is_terminal(self) -> bool {
        self.state.is_terminal()
    }

    /// What is left to do: `total - current`, and zero once `current` has
    /// reached or passed `total`.
    pub open spec fn remaining(self) -> nat {
        if self.current <= self.total {
            (self.total - self.current) as nat
        } else {
            0
        }
    }

    /// The completed fraction as numerator and denominator. A zero total
    /// gives `0 / 1`; any other total gives `current / total`.
    pub open spec fn ratio(self) -> (nat, nat) {
        if self.total == 0 {
            (0, 1)
        } else {
            (self.current, self.total)
        }
    }
}

/// A single progress snapshot: counter, target, lifecycle state and an
/// optional message. Snapshots are immutable once emitted.
#[derive(Debug, PartialEq, Eq, PartialOrd, Ord, Hash)]
pub struct ProgressUpdate {
    current: u64,
    total: u64,
    state: State,
    message: Option<String>,
}

impl View for ProgressUpdate {
    type V = Snapshot;

    closed spec fn view(&self) -> Snapshot {
        Snapshot {
            current: self.current as nat,
            total: self.total as nat,
            state: self.state,
            message: match self.message {
                Some(m) => Some(m@),
                None => None,
            },
        }
    }
}

impl Clone for ProgressUpdate {
    fn clone(&self) -> (r: Self)
        ensures
            r@ == self@,
    {
        self.in_state(self.state)
    }
}

impl ProgressUpdate {
    /// Creates a snapshot from its four parts.
    #[must_use]
    pub fn new(total: u64, current: u64, state: State, message: Option<String>) -> (r: Self)
        ensures
            r@ == (Snapshot {
                current: current as nat,
                total: total as nat,
                state,
                message: match message {
                    Some(m) => Some(m@),
                    None => None,
                },
            }),
    {
        Self { current, total, state, message }
    }

    /// Returns the total expected value when the operation will be complete.
    #[must_use]
    pub fn total(&self) -> (r: u64)
        ensures
            r == self@.total,
    {
        self.total
    }

    /// Returns the current progress value.
    #[must_use]
    pub fn current(&self) -> (r: u64)
        ensures
            r == self@.current,
    {
        self.current
    }

    /// Returns the completed fraction as a pair of integers, numerator
    /// first. The denominator is never zero: a zero total yields `(0, 1)`.
    /// With `current <= total` the numerator does not exceed the
    /// denominator, so the fraction lies between zero and one.
    #[must_use]
    pub fn completed_ratio(&self) -> (r: (u64, u64))
        ensures
            (r.0 as nat, r.1 as nat) == self@.ratio(),
            r.1 > 0,
            self@.total == 0 ==> r.0 == 0,
            self@.current <= self@.total ==> r.0 <= r.1,
    {
        if self.total == 0 {
            (0, 1)
        } else {
            (self.current, self.total)
        }
    }

    /// Returns the remaining progress, `total - current`, and zero where
    /// `current` exceeds `total`.
    #[must_use]
    pub fn remaining(&self) -> (r: u64)
        ensures
            r == self@.remaining(),
            r == if self@.total >= self@.current {
                self@.total - self@.current
            } else {
                0
            },
    {
        self.total.saturating_sub(self.current)
    }

    /// Returns `true` if the state is [`Cancelled`](State::Cancelled).
    #[must_use]
    pub fn is_cancelled(&self) -> (r: bool)
        ensures
            r == (self@.state is Cancelled),
    {
        matches!(self.state, State::Cancelled)
    }

    /// Returns `true` if the state is [`Working`](State::Working).
    #[must_use]
    pub fn is_working(&self) -> (r: bool)
        ensures
            r == (self@.state is Working),
    {
        matches!(self.state, State::Working)
    }

    /// Returns `true` if the state is [`Completed`](State::Completed).
    #[must_use]
    pub fn is_completed(&self) -> (r: bool)
        ensures
            r == (self@.state is Completed),
    {
        matches!(self.state, State::Completed)
    }

    /// Returns `true` if the state is [`Paused`](State::Paused).
    #[must_use]
    pub fn is_paused(&self) -> (r: bool)
        ensures
            r == (self@.state is Paused),
    {
        matches!(self.state, State::Paused)
    }

    /// Returns the optional descriptive message about the current progress.
    #[must_use]
    pub fn message(&self) -> (r: Option<&str>)
        ensures
            match r {
                Some(m) => self@.message == Some(m@),
                None => self@.message is None,
            },
    {
        match &self.message {
            Some(m) => Some(m.as_str()),
            None => None,
        }
    }

    /// Returns the current state of the progress operation.
    #[must_use]
    pub fn state(&self) -> (r: State)
        ensures
            r == self@.state,
    {
        self.state
    }

    /// Returns `true` if the snapshot is the last one of its operation:
    /// completed or cancelled.
    #[must_use]
    pub fn is_terminal(&self) -> (r: bool)
        ensures
            r == self@.is_terminal(),
    {
        matches!(self.state, State::Completed | State::Cancelled)
    }

    /// Returns a copy of the message.
    fn copy_message(&self) -> (r: Option<String>)
        ensures
            match r {
                Some(m) => self@.message == Some(m@),
                None => self@.message is None,
            },
    {
        match &self.message {
            Some(m) => Some(m.clone()),
            None => None,
        }
    }

    /// Returns a copy of the snapshot in another lifecycle state.
    #[must_use]
    pub fn in_state(&self, state: State) -> (r: Self)
        ensures
            r@ == self@.in_state(state),
    {
        Self { current: self.current, total: self.total, state, message: self.copy_message() }
    }

    /// Returns a copy of the snapshot measured against another total.
    #[must_use]
    pub fn retargeted(&self, total: u64) -> (r: Self)
        ensures
            r@ == self@.retargeted(total as nat),
    {
        Self { current: self.current, total, state: self.state, message: self.copy_message() }
    }
}

} // verus!
