//! The worker's decisions.
//!
//! The worker is a state machine. Whoever runs it waits on the request
//! queue, tells the machine what arrived, does what the machine answers, and
//! tells it how that went. [`event_loop`] is one turn of it.

use crate::loader::{answer, LoadError, LoadErrorView};
use crate::status::{COMPLETED, ERRORED, PROCESSING};
use vstd::prelude::*;
use vstd::string::*;

verus! {

/// Where the worker stands between two events.
#[derive(Debug, PartialEq, Eq)]
pub enum Worker {
    /// Waiting for the next request.
    Waiting,
    /// A request was taken; its image is being read into the locked buffer.
    Loading { path: String },
    /// The queue was closed. The worker does not start again.
    Stopped,
}

/// A [`Worker`] as contracts see it.
pub enum WorkerView {
    Waiting,
    Loading { path: Seq<char> },
    Stopped,
}

impl View for Worker {
    type V = WorkerView;

    open spec fn view(&self) -> WorkerView {
        match self {
            Worker::Waiting => WorkerView::Waiting,
            Worker::Loading { path } => WorkerView::Loading { path: path@ },
            Worker::Stopped => WorkerView::Stopped,
        }
    }
}

/// What happened outside the worker.
#[derive(Debug, PartialEq, Eq)]
pub enum Event {
    /// The queue handed over the path of an image.
    Request { path: String },
    /// The queue was closed.
    Closed,
    /// The load that the worker asked for has ended.
    Loaded { result: Result<(), LoadError> },
}

/// An [`Event`] as contracts see it.
pub enum EventView {
    Request { path: Seq<char> },
    Closed,
    Loaded { result: Result<(), LoadErrorView> },
}

impl View for Event {
    type V = EventView;

    open spec fn view(&self) -> EventView {
        match self {
            Event::Request { path } => EventView::Request { path: path@ },
            Event::Closed => EventView::Closed,
            Event::Loaded { result } => EventView::Loaded { result: answer(*result) },
        }
    }
}

/// What the worker wants done next.
#[derive(Debug, PartialEq, Eq)]
pub enum Action {
    /// Publish `status`, then lock the buffer and load the image at `path`
    /// into its bytes. Answer with [`Event::Loaded`].
    Load { status: usize, path: String },
    /// With the buffer still locked: store `name`, if there is one, as the
    /// buffer's path; emit `diagnostic`, if there is one; publish `status`;
    /// unlock, and wait for the next request.
    Finish { status: usize, name: Option<String>, diagnostic: Option<String> },
    /// Nothing: the event does not belong to where the worker stands.
    Ignore,
    /// Leave the loop.
    Stop,
}

/// An [`Action`] as contracts see it.
pub enum ActionView {
    Load { status: usize, path: Seq<char> },
    Finish { status: usize, name: Option<Seq<char>>, diagnostic: Option<Seq<char>> },
    Ignore,
    Stop,
}

/// An optional text as contracts see it.
pub open spec fn text(line: Option<String>) -> Option<Seq<char>> {
    match line {
        Some(line) => Some(line@),
        None => None,
    }
}

impl View for Action {
    type V = ActionView;

    open spec fn view(&self) -> ActionView {
        match self {
            Action::Load { status, path } => ActionView::Load { status: *status, path: path@ },
            Action::Finish { status, name, diagnostic } => ActionView::Finish {
                status: *status,
                name: text(*name),
                diagnostic: text(*diagnostic),
            },
            Action::Ignore => ActionView::Ignore,
            Action::Stop => ActionView::Stop,
        }
    }
}

/// The line that reports a failed load: a fixed opening, then the error's
/// message.
pub open spec fn diagnostic_line(message: Seq<char>) -> Seq<char> {
    "popsicle-gtk: image loading error: "@ + message
}

/// The worker's rule: where it stands next, and what it wants done.
///
/// A request starts a load under `PROCESSING`. The end of the load ends the
/// request: under `COMPLETED`, with the request's path as the buffer's new
/// name, or under `ERRORED`, with a diagnostic and the name left alone.
/// Closing the queue stops the worker for good. An event that does not
/// belong to where the worker stands changes nothing.
pub open spec fn step(worker: WorkerView, event: EventView) -> (WorkerView, ActionView) {
    match (worker, event) {
        (WorkerView::Waiting, EventView::Request { path }) => (
            WorkerView::Loading { path },
            ActionView::Load { status: PROCESSING, path },
        ),
        (WorkerView::Waiting, EventView::Closed) => (WorkerView::Stopped, ActionView::Stop),
        (WorkerView::Loading { path }, EventView::Loaded { result: Ok(()) }) => (
            WorkerView::Waiting,
            ActionView::Finish { status: COMPLETED, name: Some(path), diagnostic: None },
        ),
        (WorkerView::Loading { path }, EventView::Loaded { result: Err(error) }) => (
            WorkerView::Waiting,
            ActionView::Finish {
                status: ERRORED,
                name: None,
                diagnostic: Some(diagnostic_line(error.message)),
            },
        ),
        (WorkerView::Stopped, _) => (WorkerView::Stopped, ActionView::Stop),
        (_, _) => (worker, ActionView::Ignore),
    }
}

impl Worker {
    /// A worker that waits for its first request.
    pub fn new() -> (worker: Worker)
        ensures
            worker@ == WorkerView::Waiting,
    {
        Worker::Waiting
    }
}

/// The line to emit for `error`.
fn report(error: &LoadError) -> (line: String)
    ensures
        line@ == diagnostic_line(error@.message),
{
    let mut line = String::from_str("popsicle-gtk: image loading error: ");
    line.append(error.message.as_str());
    line
}

/// One turn of the worker: takes `event` and answers where the worker stands
/// next and what is to be done, as [`step`] rules.
pub fn event_loop(worker: Worker, event: Event) -> (turn: (Worker, Action))
    ensures
        (turn.0@, turn.1@) == step(worker@, event@),
{
    match worker {
        Worker::Waiting => match event {
            Event::Request { path } => {
                let load = Action::Load { status: PROCESSING, path: path.clone() };
                (Worker::Loading { path }, load)
            },
            Event::Closed => (Worker::Stopped, Action::Stop),
            Event::Loaded { .. } => (Worker::Waiting, Action::Ignore),
        },
        Worker::Loading { path } => match event {
            Event::Loaded { result: Ok(()) } => (
                Worker::Waiting,
                Action::Finish { status: COMPLETED, name: Some(path), diagnostic: None },
            ),
            Event::Loaded { result: Err(error) } => (
                Worker::Waiting,
                Action::Finish { status: ERRORED, name: None, diagnostic: Some(report(&error)) },
            ),
            _ => (Worker::Loading { path }, Action::Ignore),
        },
        Worker::Stopped => (Worker::Stopped, Action::Stop),
    }
}

} // verus!
