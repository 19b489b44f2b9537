//! The lifecycle of a controller as a mathematical model, and the laws
//! that hold of it.
//!
//! A [`Controller`] is the value of a
//! [`ProgressUpdater`](crate::updater::ProgressUpdater): the working
//! snapshot together with the log of every snapshot handed to the channel.
//! Each operation of the updater is one spec function here, and the
//! updater's contracts say that the executable code follows them.

use crate::{Snapshot, State};
use vstd::prelude::*;

verus! {

impl Snapshot {
    /// The snapshot a controller starts from: nothing done, working, no
    /// message.
    pub open spec fn initial(total: nat) -> Snapshot {
        Snapshot { current: 0, total, state: State::Working, message: None }
    }

    /// The snapshot after a progress report: the counter and the message are
    /// replaced and the operation is working (again).
    pub open spec fn reported(self, current: nat, message: Option<Seq<char>>) -> Snapshot {
        Snapshot { current, total: self.total, state: State::Working, message }
    }

    /// The same snapshot in another lifecycle state.
    pub open spec fn in_state(self, state: State) -> Snapshot {
        Snapshot { current: self.current, total: self.total, state, message: self.message }
    }

    /// The same snapshot with another message.
    pub open spec fn annotated(self, message: Option<Seq<char>>) -> Snapshot {
        Snapshot { current: self.current, total: self.total, state: self.state, message }
    }

    /// The same snapshot measured against another total.
    pub open spec fn retargeted(self, total: nat) -> Snapshot {
        Snapshot { current: self.current, total, state: self.state, message: self.message }
    }
}

/// One call an operation can make on its controller.
pub enum Command {
    /// `update(current)`
    Update(nat),
    /// `update_with_message(current, message)`
    UpdateWithMessage(nat, Seq<char>),
    /// `pause()`
    Pause,
    /// `pause_with_message(message)`
    PauseWithMessage(Seq<char>),
    /// `complete()`
    Complete,
    /// `set_total(total)`
    SetTotal(nat),
}

/// Whether `complete()` occurs among `commands`.
pub open spec fn completes(commands: Seq<Command>) -> bool {
    exists|i: int| 0 <= i < commands.len() && #[trigger] commands[i] is Complete
}

/// Exactly one snapshot of `log` is terminal, and it is the last one.
pub open spec fn ends_with_only_terminal(log: Seq<Snapshot>) -> bool {
    &&& log.len() > 0
    &&& forall|i: int|
        0 <= i < log.len() ==> (#[trigger] log[i].is_terminal() <==> i == log.len() - 1)
}

/// The value of a controller.
pub struct Controller {
    /// The working snapshot: the state that the next report starts from.
    pub state: Snapshot,
    /// Every snapshot handed to the channel so far, oldest first.
    pub published: Seq<Snapshot>,
}

impl Controller {
    /// A fresh controller for `total`: nothing published yet.
    pub open spec fn initial(total: nat) -> Controller {
        Controller { state: Snapshot::initial(total), published: Seq::empty() }
    }

    /// The invariant of every controller: the log ends with the working
    /// snapshot, only the last entry of the log can be terminal, and a
    /// controller that has published nothing is not terminal.
    pub open spec fn wf(self) -> bool {
        &&& self.published.len() == 0 ==> !self.state.is_terminal()
        &&& self.published.len() > 0 ==> self.published.last() == self.state
        &&& forall|i: int|
            0 <= i < self.published.len() - 1 ==> !(#[trigger] self.published[i]).is_terminal()
    }

    /// The one step every operation takes: a terminal controller stays as it
    /// is; any other makes `next` its working snapshot and publishes it.
    pub open spec fn publish(self, next: Snapshot) -> Controller {
        if self.state.is_terminal() {
            self
        } else {
            Controller { state: next, published: self.published.push(next) }
        }
    }

    /// `update(current)`: new counter, message cleared, working.
    pub open spec fn update(self, current: nat) -> Controller {
        self.publish(self.state.reported(current, None))
    }

    /// `update_with_message(current, message)`: new counter, new message,
    /// working.
    pub open spec fn update_with_message(self, current: nat, message: Seq<char>) -> Controller {
        self.publish(self.state.reported(current, Some(message)))
    }

    /// `pause()`: paused; counter and message stay.
    pub open spec fn pause(self) -> Controller {
        self.publish(self.state.in_state(State::Paused))
    }

    /// `pause_with_message(message)`: paused with a new message; the counter
    /// stays.
    pub open spec fn pause_with_message(self, message: Seq<char>) -> Controller {
        self.publish(self.state.in_state(State::Paused).annotated(Some(message)))
    }

    /// `complete()`: completed; counter and message stay.
    pub open spec fn complete(self) -> Controller {
        self.publish(self.state.in_state(State::Completed))
    }

    /// `set_total(total)`: new total; everything else stays.
    pub open spec fn set_total(self, total: nat) -> Controller {
        self.publish(self.state.retargeted(total))
    }

    /// Giving the controller up: cancelled unless it is terminal already;
    /// counter and message stay.
    pub open spec fn release(self) -> Controller {
        self.publish(self.state.in_state(State::Cancelled))
    }

    /// The controller after one command.
    pub open spec fn apply(self, command: Command) -> Controller {
        match command {
            Command::Update(current) => self.update(current),
            Command::UpdateWithMessage(current, message) => self.update_with_message(
                current,
                message,
            ),
            Command::Pause => self.pause(),
            Command::PauseWithMessage(message) => self.pause_with_message(message),
            Command::Complete => self.complete(),
            Command::SetTotal(total) => self.set_total(total),
        }
    }

    /// The controller after a sequence of commands, first to last.
    pub open spec fn run(self, commands: Seq<Command>) -> Controller
        decreases commands.len(),
    {
        if commands.len() == 0 {
            self
        } else {
            self.run(commands.drop_last()).apply(commands.last())
        }
    }
}

/// A fresh controller satisfies the invariant.
pub proof fn lemma_initial_wf(total: nat)
    ensures
        Controller::initial(total).wf(),
{
}

/// Publishing keeps the invariant, whatever is published.
pub proof fn lemma_publish_wf(c: Controller, next: Snapshot)
    requires
        c.wf(),
    ensures
        c.publish(next).wf(),
{
}

/// Every command, and giving the controller up, keeps the invariant.
pub proof fn lemma_apply_wf(c: Controller, command: Command)
    requires
        c.wf(),
    ensures
        c.apply(command).wf(),
        c.release().wf(),
{
}

/// A terminal controller is never changed again and publishes nothing more:
/// no command revives it, and giving it up is silent.
pub proof fn lemma_terminal_is_final(c: Controller, command: Command)
    requires
        c.state.is_terminal(),
    ensures
        c.apply(command) == c,
        c.release() == c,
{
}

/// A controller that is not terminal publishes exactly one snapshot with
/// each command and when it is given up: the whole new working state, not
/// a difference to the one before.
pub proof fn lemma_each_step_publishes_the_state(c: Controller, command: Command)
    requires
        !c.state.is_terminal(),
    ensures
        c.apply(command).published == c.published.push(c.apply(command).state),
        c.release().published == c.published.push(c.release().state),
{
}

/// Only `complete()` and giving the controller up end its lifecycle.
pub proof fn lemma_only_complete_and_release_end(c: Controller, command: Command)
    requires
        !c.state.is_terminal(),
    ensures
        c.apply(command).state.is_terminal() <==> command is Complete,
        c.apply(command).state.state is Completed <==> command is Complete,
        c.release().state.state is Cancelled,
{
}

/// A controller on which `complete()` is called and which is then given up
/// publishes exactly one terminal snapshot, with state `Completed`: giving
/// it up adds nothing.
pub proof fn lemma_complete_then_release(c: Controller)
    requires
        c.wf(),
        !c.state.is_terminal(),
    ensures
        c.complete().release() == c.complete(),
        c.complete().release().published == c.published.push(c.state.in_state(State::Completed)),
        ends_with_only_terminal(c.complete().release().published),
        c.complete().release().published.last().state is Completed,
{
}

/// A controller that is given up without `complete()` publishes exactly one
/// terminal snapshot, with state `Cancelled` and with the counter, total and
/// message it had last.
pub proof fn lemma_release_without_complete(c: Controller)
    requires
        c.wf(),
        !c.state.is_terminal(),
    ensures
        c.release().published == c.published.push(c.state.in_state(State::Cancelled)),
        ends_with_only_terminal(c.release().published),
        c.release().published.last().state is Cancelled,
        c.release().published.last().current == c.state.current,
        c.release().published.last().total == c.state.total,
        c.release().published.last().message == c.state.message,
{
}

/// Giving a controller up leaves it terminal, and giving it up again changes
/// nothing: the terminal snapshot is published once.
pub proof fn lemma_release_is_idempotent(c: Controller)
    ensures
        c.release().state.is_terminal(),
        c.release().release() == c.release(),
{
}

/// Running commands keeps the invariant and never cancels. A terminal
/// controller comes out as it went in; any other comes out completed
/// exactly if `complete()` was among the commands.
pub proof fn lemma_run(c: Controller, commands: Seq<Command>)
    requires
        c.wf(),
    ensures
        c.run(commands).wf(),
        c.state.is_terminal() ==> c.run(commands) == c,
        !c.state.is_terminal() ==> (c.run(commands).state.state is Completed <==> completes(
            commands,
        )),
        !c.state.is_terminal() ==> !(c.run(commands).state.state is Cancelled),
    decreases commands.len(),
{
    if commands.len() > 0 {
        let before = commands.drop_last();
        lemma_run(c, before);
        if completes(commands) {
            // A `complete()` among the commands is the last one or among
            // those before it.
            let i = choose|i: int| 0 <= i < commands.len() && #[trigger] commands[i] is Complete;
            if i < before.len() {
                assert(before[i] is Complete);
            }
        }
    }
}

/// Whatever an operation does with its controller before it gives it up,
/// the log then holds exactly one terminal snapshot, as its last entry. If
/// `complete()` was called it is the snapshot that the operation completed
/// with; if not, it is the last working snapshot, cancelled.
pub proof fn lemma_exactly_one_terminal(total: nat, commands: Seq<Command>)
    ensures
        ends_with_only_terminal(Controller::initial(total).run(commands).release().published),
        Controller::initial(total).run(commands).release().published.last() == (if completes(
            commands,
        ) {
            Controller::initial(total).run(commands).state
        } else {
            Controller::initial(total).run(commands).state.in_state(State::Cancelled)
        }),
        Controller::initial(total).run(commands).release().published.last().state == (if completes(
            commands,
        ) {
            State::Completed
        } else {
            State::Cancelled
        }),
{
    lemma_run(Controller::initial(total), commands);
}

} // verus!
