//! The page that tells the user of a failure.

use vstd::prelude::*;
use vstd::string::*;

verus! {

/// What a page shows: the name of its icon, its heading, and the text below
/// the heading. Drawing the page is the caller's work.
#[derive(Debug, PartialEq, Eq)]
pub struct Page {
    pub icon: String,
    pub topic: String,
    pub description: String,
}

/// The page for a critical error.
#[derive(Debug, PartialEq, Eq)]
pub struct ErrorView {
    pub view: Page,
}

impl ErrorView {
    /// The error page as it is first shown: the error icon, the fixed
    /// heading, and no description yet.
    pub fn new() -> (page: ErrorView)
        ensures
            page.view.icon@ == "dialog-error"@,
            page.view.topic@ == "Critical Error Occurred"@,
            page.view.description@ == Seq::<char>::empty(),
    {
        ErrorView {
            view: Page {
                icon: String::from_str("dialog-error"),
                topic: String::from_str("Critical Error Occurred"),
                description: String::new(),
            },
        }
    }
}

} // verus!
