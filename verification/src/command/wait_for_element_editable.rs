//! Waiting for an element to accept, or no longer to accept, input.

use crate::command::{settle_wait, wait_outcome};
use crate::error::{outcome_view, RunnerErrorKind};
use crate::locator::{Locator, LocatorView};
use crate::poll::Condition;
use crate::webdriver::{wait_request, wait_request_spec, Request};
use vstd::prelude::*;

verus! {

/// Waits until the element accepts input.
#[derive(Debug)]
pub struct WaitForElementEditable {
    target: Locator,
    timeout: u64,
}

impl WaitForElementEditable {
    /// The element waited for.
    pub closed spec fn spec_target(&self) -> LocatorView {
        self.target@
    }

    /// The deadline in milliseconds.
    pub closed spec fn spec_timeout(&self) -> u64 {
        self.timeout
    }

    pub fn new(target: Locator, timeout: u64) -> (r: Self)
        ensures
            r.spec_target() == target@,
            r.spec_timeout() == timeout,
    {
        Self { target, timeout }
    }

    /// What the command asks of the session: to poll for the condition.
    pub fn request(&self) -> (q: Request)
        ensures
            q@ == wait_request_spec(Condition::Editable, self.spec_target(), self.spec_timeout()),
    {
        wait_request(Condition::Editable, self.target.clone(), self.timeout)
    }

    /// Takes the outcome of the poll: whatever made it fail, the command
    /// fails with a timeout under its own name.
    pub fn finish(&self, result: Result<(), RunnerErrorKind>) -> (r: Result<(), RunnerErrorKind>)
        ensures
            outcome_view(r) == wait_outcome(result, "WaitForElementEditable"@),
    {
        settle_wait(result, "WaitForElementEditable")
    }
}

/// Waits until the element no longer accepts input.
#[derive(Debug)]
pub struct WaitForElementNotEditable {
    target: Locator,
    timeout: u64,
}

impl WaitForElementNotEditable {
    /// The element waited for.
    pub closed spec fn spec_target(&self) -> LocatorView {
        self.target@
    }

    /// The deadline in milliseconds.
    pub closed spec fn spec_timeout(&self) -> u64 {
        self.timeout
    }

    pub fn new(target: Locator, timeout: u64) -> (r: Self)
        ensures
            r.spec_target() == target@,
            r.spec_timeout() == timeout,
    {
        Self { target, timeout }
    }

    /// What the command asks of the session: to poll for the condition.
    pub fn request(&self) -> (q: Request)
        ensures
            q@ == wait_request_spec(Condition::NotEditable, self.spec_target(), self.spec_timeout()),
    {
        wait_request(Condition::NotEditable, self.target.clone(), self.timeout)
    }

    /// Takes the outcome of the poll: whatever made it fail, the command
    /// fails with a timeout under its own name.
    pub fn finish(&self, result: Result<(), RunnerErrorKind>) -> (r: Result<(), RunnerErrorKind>)
        ensures
            outcome_view(r) == wait_outcome(result, "WaitForElementNotEditable"@),
    {
        settle_wait(result, "WaitForElementNotEditable")
    }
}

} // verus!
