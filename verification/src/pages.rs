//! Error-page state.
//!
//! The caller's window shows an error page when the configuration file
//! exists but cannot be loaded.  Its state is two strings; laying them out
//! belongs to the presentation layer.

use vstd::prelude::*;

verus! {

/// What the error page shows.
#[derive(Clone, Debug)]
pub struct ErrorPage {
    pub title: String,
    pub body: String,
}

impl ErrorPage {
    /// A fresh error page with its placeholder texts.
    pub fn new() -> (r: ErrorPage)
        ensures
            r.title@ == "Error"@,
            r.body@ == "------"@,
    {
        ErrorPage { title: "Error".to_owned(), body: "------".to_owned() }
    }
}

} // verus!
