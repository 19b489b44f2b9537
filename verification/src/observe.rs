//! The decisions of an observer that follows an operation to its end.
//!
//! An observer waits on two sources at once: the operation itself and its
//! sequence of snapshots. Whoever does the waiting hands each thing that
//! happened to [`Observer::handle`] as an [`Event`] and carries out the
//! [`Action`] it gets back.

use crate::ProgressUpdate;
use vstd::prelude::*;

verus! {

/// What happened while an observer was waiting.
pub enum Event<T> {
    /// The operation resolved with its output.
    Resolved(T),
    /// The snapshot sequence yielded a snapshot.
    Update(ProgressUpdate),
    /// The snapshot sequence ended.
    Ended,
}

/// What an observer does about an event.
pub enum Action<T> {
    /// Stop observing and return the output of the operation. Snapshots not
    /// yet consumed are discarded.
    Finish(T),
    /// Hand the snapshot to the callback, then go on waiting.
    Notify(ProgressUpdate),
    /// Go on waiting.
    Wait,
}

/// The state of one observation: whether the snapshot sequence is still to
/// be waited on.
pub struct Observer {
    watching: bool,
}

impl Observer {
    /// Whether the snapshot sequence has not ended yet.
    pub closed spec fn watching(&self) -> bool {
        self.watching
    }

    /// Starts an observation: both sources are waited on.
    pub fn new() -> (r: Self)
        ensures
            r.watching(),
    {
        Observer { watching: true }
    }

    /// Returns `true` while the snapshot sequence is still to be waited on.
    /// Once it is `false` only the operation is.
    pub fn is_watching(&self) -> (r: bool)
        ensures
            r == self.watching(),
    {
        self.watching
    }

    /// Decides what to do about `event`.
    ///
    /// The operation's output ends the observation at once. Every snapshot
    /// goes to the callback, as it is. The end of the snapshot sequence ends
    /// nothing: the observer goes on waiting for the operation alone.
    pub fn handle<T>(&mut self, event: Event<T>) -> (action: Action<T>)
        ensures
            action == match event {
                Event::Resolved(output) => Action::Finish(output),
                Event::Update(update) => Action::Notify(update),
                Event::Ended => Action::Wait,
            },
            final(self).watching() == (old(self).watching() && !(event is Ended)),
    {
        match event {
            Event::Resolved(output) => Action::Finish(output),
            Event::Update(update) => Action::Notify(update),
            Event::Ended => {
                self.watching = false;
                Action::Wait
            },
        }
    }
}

} // verus!
