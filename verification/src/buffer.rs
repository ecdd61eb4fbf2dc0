//! The buffer that the worker fills and readers poll.

use crate::status::{COMPLETED, IDLE};
use crate::worker::{text, Action, ActionView};
use vstd::prelude::*;

verus! {

/// A structure for buffering disk images in the background.
///
/// It holds the plain values. Sharing it between threads is the caller's
/// work: `data` belongs behind a lock, and `state` is what the caller
/// publishes where readers can poll it without that lock.
#[derive(Debug, PartialEq, Eq)]
pub struct BufferingData {
    /// The path of the image, and the image contents.
    pub data: (String, Vec<u8>),
    /// Whether `data` is ready to be used: one of the status values.
    pub state: usize,
}

/// A [`BufferingData`] as contracts see it.
pub struct Snapshot {
    pub path: Seq<char>,
    pub bytes: Seq<u8>,
    pub state: usize,
}

impl View for BufferingData {
    type V = Snapshot;

    open spec fn view(&self) -> Snapshot {
        Snapshot { path: self.data.0@, bytes: self.data.1@, state: self.state }
    }
}

/// The buffer after `action` was carried out on it. Reading the image is not
/// part of this: a `Load` only publishes its status here.
pub open spec fn apply(buffer: Snapshot, action: ActionView) -> Snapshot {
    match action {
        ActionView::Load { status, .. } => Snapshot { state: status, ..buffer },
        ActionView::Finish { status, name, .. } => Snapshot {
            path: match name {
                Some(name) => name,
                None => buffer.path,
            },
            bytes: buffer.bytes,
            state: status,
        },
        ActionView::Ignore => buffer,
        ActionView::Stop => buffer,
    }
}

/// The line that carrying out `action` emits, if any.
pub open spec fn emitted(action: ActionView) -> Option<Seq<char>> {
    match action {
        ActionView::Finish { diagnostic, .. } => diagnostic,
        _ => None,
    }
}

/// What a reader may take from the buffer: its path and bytes after a load
/// that succeeded, and nothing under any other status.
pub open spec fn readable(buffer: Snapshot) -> Option<(Seq<char>, Seq<u8>)> {
    if buffer.state == COMPLETED {
        Some((buffer.path, buffer.bytes))
    } else {
        None
    }
}

impl BufferingData {
    /// An empty buffer: no path, no bytes, and the status `IDLE`.
    pub fn new() -> (buffer: BufferingData)
        ensures
            buffer@ == (Snapshot { path: Seq::empty(), bytes: Seq::empty(), state: IDLE }),
    {
        BufferingData { data: (String::new(), Vec::new()), state: IDLE }
    }

    /// Carries out `action` on the buffer, and hands back the line to emit,
    /// if the action has one.
    pub fn apply(&mut self, action: &Action) -> (line: Option<String>)
        ensures
            final(self)@ == apply(old(self)@, action@),
            text(line) == emitted(action@),
    {
        match action {
            Action::Load { status, .. } => {
                self.state = *status;
                None
            },
            Action::Finish { status, name, diagnostic } => {
                match name {
                    Some(name) => {
                        self.data.0 = name.clone();
                    },
                    None => {},
                }
                self.state = *status;
                match diagnostic {
                    Some(line) => Some(line.clone()),
                    None => None,
                }
            },
            Action::Ignore => None,
            Action::Stop => None,
        }
    }

    /// The image, for a reader: the path and the bytes if the last load
    /// succeeded, nothing under any other status.
    pub fn image(&self) -> (ready: Option<(&String, &Vec<u8>)>)
        ensures
            match ready {
                Some((path, bytes)) => readable(self@) == Some((path@, bytes@)),
                None => readable(self@) is None,
            },
    {
        if self.state == COMPLETED {
            Some((&self.data.0, &self.data.1))
        } else {
            None
        }
    }
}

} // verus!
