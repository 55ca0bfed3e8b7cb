//! The window-resize step.

use crate::error::{outcome_view, RunnerErrorKind};
use crate::webdriver::{Request, RequestView};
use vstd::prelude::*;

verus! {

/// Resizes the browser window.
#[derive(Debug, Clone, Copy, PartialEq, Eq, Structural)]
pub struct SetWindowSize {
    width: u32,
    height: u32,
}

impl SetWindowSize {
    pub closed spec fn spec_width(&self) -> u32 {
        self.width
    }

    pub closed spec fn spec_height(&self) -> u32 {
        self.height
    }

    pub fn new(width: u32, height: u32) -> (r: Self)
        ensures
            r.spec_width() == width,
            r.spec_height() == height,
    {
        Self { width, height }
    }

    /// What the command asks of the session: one resize, to the given size.
    pub fn request(&self) -> (q: Request)
        ensures
            q@ == (RequestView::SetWindowSize {
                width: self.spec_width(),
                height: self.spec_height(),
            }),
    {
        Request::SetWindowSize { width: self.width, height: self.height }
    }

    /// Takes the session's answer as it is: there is no retry.
    pub fn finish(&self, result: Result<(), RunnerErrorKind>) -> (r: Result<(), RunnerErrorKind>)
        ensures
            outcome_view(r) == outcome_view(result),
    {
        result
    }
}

} // verus!
