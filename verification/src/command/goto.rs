//! The navigation step.

use crate::error::{outcome_view, RunnerErrorKind};
use crate::webdriver::{Request, RequestView};
use vstd::prelude::*;

verus! {

/// Navigates the top-level browsing context to an address.
#[derive(Debug)]
pub struct Goto {
    url: String,
}

impl Goto {
    /// The address.
    pub closed spec fn spec_url(&self) -> Seq<char> {
        self.url@
    }

    pub fn new(url: String) -> (r: Self)
        ensures
            r.spec_url() == url@,
    {
        Self { url }
    }

    /// What the command asks of the session: to navigate to the address.
    pub fn request(&self) -> (q: Request)
        ensures
            q@ == RequestView::Goto(self.spec_url()),
    {
        Request::Goto(self.url.clone())
    }

    /// Takes the session's answer as it is.
    pub fn finish(&self, result: Result<(), RunnerErrorKind>) -> (r: Result<(), RunnerErrorKind>)
        ensures
            outcome_view(r) == outcome_view(result),
    {
        result
    }
}

} // verus!
