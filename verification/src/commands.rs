//! The commands of the tool. A command does no outside work itself: it says
//! what is to be done next and is told what came of it.

use vstd::prelude::*;

pub mod commit;
pub mod laws;

verus! {

/// A command, run step by step by whoever can reach the terminal, the
/// network and the subprocesses.
pub trait Command {
    /// What the command remembers between two steps.
    type State;

    /// What the outside world can report back.
    type Event;

    /// What the command can ask for.
    type Action;

    /// Starts the command with its optional argument: the state to resume
    /// from, and the first thing to do.
    fn execute(&self, arg: Option<String>) -> (Self::State, Self::Action);

    /// Goes on after `event`, the result of the action asked for last: the
    /// state to resume from, and the next thing to do.
    fn resume(&self, state: Self::State, event: Self::Event) -> (Self::State, Self::Action);
}

} // verus!
