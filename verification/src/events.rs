//! The events a session publishes on its broadcast channel, and the session
//! states they drive.
//!
//! A session publishes any number of `Output` events followed by exactly one
//! terminal event (`Completed`, `Failed` or `Cancelled`), which is always the
//! last event of its history.

use vstd::prelude::*;

verus! {

/// Which captured stream of the child process a line of output came from.
#[derive(Clone, Copy, Debug, PartialEq, Eq, Structural)]
pub enum StreamKind {
    Stdout,
    Stderr,
}

/// A discrete unit published on a session's event channel.
#[derive(Debug, PartialEq, Eq)]
pub enum Event {
    /// One complete line read from the child's stdout or stderr.
    Output { stream: StreamKind, text: String },
    /// The process exited on its own; `exit_code` is absent when the process
    /// was ended by a signal.
    Completed { exit_success: bool, exit_code: Option<i32> },
    /// The process could not be waited on; the session ended abnormally.
    Failed { message: String },
    /// The process was killed on request.
    Cancelled,
}

/// The lifecycle state of a session. `Running` is the only live state;
/// the other three are terminal and no transition leaves them.
#[derive(Clone, Copy, Debug, PartialEq, Eq, Structural)]
pub enum SessionState {
    Running,
    Completed,
    Failed,
    Cancelled,
}

/// A terminal event ends a session; `Output` events do not.
pub open spec fn is_terminal_event(e: Event) -> bool {
    !(e is Output)
}

/// A terminal state is final.
pub open spec fn is_terminal_state(s: SessionState) -> bool {
    s != SessionState::Running
}

/// The terminal event that moves a session into `s`, for each terminal state.
pub open spec fn state_of_terminal_event(e: Event) -> SessionState {
    match e {
        Event::Output { .. } => SessionState::Running,
        Event::Completed { .. } => SessionState::Completed,
        Event::Failed { .. } => SessionState::Failed,
        Event::Cancelled => SessionState::Cancelled,
    }
}

/// How many terminal events a history holds.
pub open spec fn count_terminal(h: Seq<Event>) -> nat
    decreases h.len(),
{
    if h.len() == 0 {
        0
    } else {
        count_terminal(h.drop_last()) + if is_terminal_event(h.last()) {
            1nat
        } else {
            0nat
        }
    }
}

/// A closed session's history: some `Output` events, then exactly one
/// terminal event, which is last.
pub open spec fn terminal_history(h: Seq<Event>) -> bool {
    &&& h.len() > 0
    &&& is_terminal_event(h.last())
    &&& forall|i: int| 0 <= i < h.len() - 1 ==> !is_terminal_event(#[trigger] h[i])
}

/// A live session's history holds `Output` events only.
pub open spec fn output_only_history(h: Seq<Event>) -> bool {
    forall|i: int| 0 <= i < h.len() ==> !is_terminal_event(#[trigger] h[i])
}

/// A history of outputs only has no terminal event to count.
pub proof fn lemma_output_only_counts_zero(h: Seq<Event>)
    requires
        output_only_history(h),
    ensures
        count_terminal(h) == 0,
    decreases h.len(),
{
    if h.len() > 0 {
        lemma_output_only_counts_zero(h.drop_last());
    }
}

/// A terminal history holds exactly one terminal event.
pub proof fn lemma_terminal_history_counts_one(h: Seq<Event>)
    requires
        terminal_history(h),
    ensures
        count_terminal(h) == 1,
{
    assert(output_only_history(h.drop_last()));
    lemma_output_only_counts_zero(h.drop_last());
}

impl Clone for Event {
    /// An event clones to an equal event, so fan-out hands every subscriber
    /// the very value that was published.
    fn clone(&self) -> (res: Self)
        ensures
            res == *self,
    {
        match self {
            Event::Output { stream, text } => Event::Output { stream: *stream, text: text.clone() },
            Event::Completed { exit_success, exit_code } => Event::Completed {
                exit_success: *exit_success,
                exit_code: *exit_code,
            },
            Event::Failed { message } => Event::Failed { message: message.clone() },
            Event::Cancelled => Event::Cancelled,
        }
    }
}

} // verus!
