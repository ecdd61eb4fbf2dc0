//! Taking a finished read of an image file into the buffer.
//!
//! Reading the file is the caller's work. What it reports comes here as an
//! [`ImageRead`]; [`load_image`] puts the bytes of a complete read into the
//! buffer and turns a failed one into a [`LoadError`].

use vstd::prelude::*;
use vstd::string::*;

verus! {

/// What reading one image file came to.
#[derive(Debug, PartialEq, Eq)]
pub enum ImageRead {
    /// The file was opened and read to its end: its bytes.
    Complete(Vec<u8>),
    /// The file could not be opened: the cause, as the reader words it.
    OpenFailed(String),
    /// The file was opened, and reading it failed: the cause.
    ReadFailed(String),
}

/// An [`ImageRead`] as contracts see it.
pub enum ImageReadView {
    Complete(Seq<u8>),
    OpenFailed(Seq<char>),
    ReadFailed(Seq<char>),
}

impl View for ImageRead {
    type V = ImageReadView;

    open spec fn view(&self) -> ImageReadView {
        match self {
            ImageRead::Complete(bytes) => ImageReadView::Complete(bytes@),
            ImageRead::OpenFailed(why) => ImageReadView::OpenFailed(why@),
            ImageRead::ReadFailed(why) => ImageReadView::ReadFailed(why@),
        }
    }
}

/// The stage at which a load failed.
#[derive(Debug, Clone, Copy, PartialEq, Eq, Structural)]
pub enum LoadStage {
    /// The image could not be opened.
    Open,
    /// The image was opened, and reading it failed.
    Read,
}

/// Why an image did not reach the buffer.
#[derive(Debug, PartialEq, Eq)]
pub struct LoadError {
    /// The stage that failed.
    pub stage: LoadStage,
    /// The message for the user: the cause behind a fixed opening.
    pub message: String,
}

/// A [`LoadError`] as contracts see it.
pub struct LoadErrorView {
    pub stage: LoadStage,
    pub message: Seq<char>,
}

impl View for LoadError {
    type V = LoadErrorView;

    open spec fn view(&self) -> LoadErrorView {
        LoadErrorView { stage: self.stage, message: self.message@ }
    }
}

/// The message of a failed load: a fixed opening, then the cause. A failed
/// read is worded like a failed open.
pub open spec fn failure_message(why: Seq<char>) -> Seq<char> {
    "unable to open image: "@ + why
}

/// The error that a read stands for, if it failed.
pub open spec fn load_error(read: ImageReadView) -> Option<LoadErrorView> {
    match read {
        ImageReadView::Complete(_) => None,
        ImageReadView::OpenFailed(why) => Some(
            LoadErrorView { stage: LoadStage::Open, message: failure_message(why) },
        ),
        ImageReadView::ReadFailed(why) => Some(
            LoadErrorView { stage: LoadStage::Read, message: failure_message(why) },
        ),
    }
}

/// What a load answers for a read.
pub open spec fn load_result(read: ImageReadView) -> Result<(), LoadErrorView> {
    match load_error(read) {
        None => Ok(()),
        Some(error) => Err(error),
    }
}

/// The answer of a load as contracts see it.
pub open spec fn answer(result: Result<(), LoadError>) -> Result<(), LoadErrorView> {
    match result {
        Ok(()) => Ok(()),
        Err(error) => Err(error@),
    }
}

/// The buffered bytes after a load: those of a complete read, else the ones
/// that were there.
pub open spec fn loaded_bytes(read: ImageReadView, before: Seq<u8>) -> Seq<u8> {
    match read {
        ImageReadView::Complete(bytes) => bytes,
        _ => before,
    }
}

/// The error for a failure at `stage` with the cause `why`.
fn failure(stage: LoadStage, why: String) -> (error: LoadError)
    ensures
        error@ == (LoadErrorView { stage, message: failure_message(why@) }),
{
    let mut message = String::from_str("unable to open image: ");
    message.append(why.as_str());
    LoadError { stage, message }
}

/// Takes the outcome of reading an image into `data`.
///
/// A complete read replaces the buffered bytes. A failed one leaves them as
/// they were and comes back as the error to report.
pub fn load_image(read: ImageRead, data: &mut Vec<u8>) -> (result: Result<(), LoadError>)
    ensures
        final(data)@ == loaded_bytes(read@, old(data)@),
        answer(result) == load_result(read@),
{
    match read {
        ImageRead::Complete(bytes) => {
            *data = bytes;
            Ok(())
        },
        ImageRead::OpenFailed(why) => Err(failure(LoadStage::Open, why)),
        ImageRead::ReadFailed(why) => Err(failure(LoadStage::Read, why)),
    }
}

} // verus!
