//! Waiting for an element to be displayed.

use crate::command::{settle_wait, wait_outcome};
use crate::error::{outcome_view, RunnerErrorKind};
use crate::locator::{Locator, LocatorView};
use crate::poll::Condition;
use crate::webdriver::{wait_request, wait_request_spec, Request};
use vstd::prelude::*;

verus! {

/// Waits until the element is displayed.
#[derive(Debug)]
pub struct WaitForElementVisible {
    target: Locator,
    timeout: u64,
}

impl WaitForElementVisible {
    /// The element waited for.
    pub closed spec fn spec_target(&self) -> LocatorView {
        self.target@
    }

    /// The deadline in milliseconds.
    pub closed spec fn spec_timeout(&self) -> u64 {
        self.timeout
    }

    pub fn new(target: Locator, timeout: u64) -> (r: Self)
        ensures
            r.spec_target() == target@,
            r.spec_timeout() == timeout,
    {
        Self { target, timeout }
    }

    /// What the command asks of the session: to poll for the condition.
    pub fn request(&self) -> (q: Request)
        ensures
            q@ == wait_request_spec(Condition::Visible, self.spec_target(), self.spec_timeout()),
    {
        wait_request(Condition::Visible, self.target.clone(), self.timeout)
    }

    /// Takes the outcome of the poll: whatever made it fail, the command
    /// fails with a timeout under its own name.
    pub fn finish(&self, result: Result<(), RunnerErrorKind>) -> (r: Result<(), RunnerErrorKind>)
        ensures
            outcome_view(r) == wait_outcome(result, "WaitForElementVisible"@),
    {
        settle_wait(result, "WaitForElementVisible")
    }
}

} // verus!
