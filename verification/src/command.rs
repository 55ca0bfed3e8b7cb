//! The closed set of steps that a test is made of. A step first says what
//! it asks of the session, then judges the session's answer.

pub mod assert_alert;
pub mod execute_async;
pub mod goto;
pub mod set_window_size;
pub mod wait_for_element_editable;
pub mod wait_for_element_present;
pub mod wait_for_element_visible;

use crate::command::assert_alert::{verdict, AssertAlert};
use crate::command::execute_async::ExecuteAsync;
use crate::command::goto::Goto;
use crate::command::set_window_size::SetWindowSize;
use crate::command::wait_for_element_editable::{WaitForElementEditable, WaitForElementNotEditable};
use crate::command::wait_for_element_present::{WaitForElementNotPresent, WaitForElementPresent};
use crate::command::wait_for_element_visible::WaitForElementVisible;
use crate::error::{outcome_view, ErrorView, RunnerErrorKind};
use crate::poll::Condition;
use crate::store::VarStore;
use crate::webdriver::{
    json_of, text_of, unit_of, wait_request_spec, Reply, Request, RequestView,
};
use serde_json::Value;
use vstd::prelude::*;

verus! {

/// The outcome of a wait command named `name`: a poll that failed, for
/// whatever reason, is a timeout of that command.
pub open spec fn wait_outcome(result: Result<(), RunnerErrorKind>, name: Seq<char>) -> Result<
    (),
    ErrorView,
> {
    match result {
        Ok(_) => Ok(()),
        Err(_) => Err(ErrorView::Timeout(name)),
    }
}

/// Maps the result of a poll to the outcome of the wait command `name`.
pub fn settle_wait(result: Result<(), RunnerErrorKind>, name: &str) -> (r: Result<
    (),
    RunnerErrorKind,
>)
    ensures
        outcome_view(r) == wait_outcome(result, name@),
{
    match result {
        Ok(()) => Ok(()),
        Err(_) => Err(RunnerErrorKind::Timeout(name.to_owned())),
    }
}

/// One step of a test.
#[derive(Debug)]
pub enum Command {
    Goto(Goto),
    AssertAlert(AssertAlert),
    ExecuteAsync(ExecuteAsync),
    SetWindowSize(SetWindowSize),
    WaitForElementPresent(WaitForElementPresent),
    WaitForElementNotPresent(WaitForElementNotPresent),
    WaitForElementVisible(WaitForElementVisible),
    WaitForElementEditable(WaitForElementEditable),
    WaitForElementNotEditable(WaitForElementNotEditable),
}

/// The outcome of a wait command named `name` on a reply.
pub open spec fn wait_reply_outcome(reply: Reply, name: Seq<char>) -> Result<(), ErrorView> {
    match unit_of(reply) {
        Ok(_) => Ok(()),
        Err(_) => Err(ErrorView::Timeout(name)),
    }
}

impl Command {
    /// The command's name, which a timeout carries.
    pub open spec fn spec_name(&self) -> Seq<char> {
        match self {
            Command::Goto(_) => "Goto"@,
            Command::AssertAlert(_) => "AssertAlert"@,
            Command::ExecuteAsync(_) => "ExecuteAsync"@,
            Command::SetWindowSize(_) => "SetWindowSize"@,
            Command::WaitForElementPresent(_) => "WaitForElementPresent"@,
            Command::WaitForElementNotPresent(_) => "WaitForElementNotPresent"@,
            Command::WaitForElementVisible(_) => "WaitForElementVisible"@,
            Command::WaitForElementEditable(_) => "WaitForElementEditable"@,
            Command::WaitForElementNotEditable(_) => "WaitForElementNotEditable"@,
        }
    }

    /// What the command asks of the session, given the recorded variables.
    pub open spec fn request_spec(&self, data: VarStore) -> RequestView {
        match self {
            Command::Goto(c) => RequestView::Goto(c.spec_url()),
            Command::AssertAlert(_) => RequestView::AlertText,
            Command::ExecuteAsync(c) => RequestView::Execute {
                script: c.spec_script(),
                names: data.keys(),
                args: data.values_in_order(),
                asynchronous: true,
            },
            Command::SetWindowSize(c) => RequestView::SetWindowSize {
                width: c.spec_width(),
                height: c.spec_height(),
            },
            Command::WaitForElementPresent(c) => wait_request_spec(
                Condition::Present,
                c.spec_target(),
                c.spec_timeout(),
            ),
            Command::WaitForElementNotPresent(c) => wait_request_spec(
                Condition::NotPresent,
                c.spec_target(),
                c.spec_timeout(),
            ),
            Command::WaitForElementVisible(c) => wait_request_spec(
                Condition::Visible,
                c.spec_target(),
                c.spec_timeout(),
            ),
            Command::WaitForElementEditable(c) => wait_request_spec(
                Condition::Editable,
                c.spec_target(),
                c.spec_timeout(),
            ),
            Command::WaitForElementNotEditable(c) => wait_request_spec(
                Condition::NotEditable,
                c.spec_target(),
                c.spec_timeout(),
            ),
        }
    }

    /// The outcome of the command on the session's reply.
    pub open spec fn outcome_spec(&self, reply: Reply) -> Result<(), ErrorView> {
        match self {
            Command::Goto(_) => unit_of(reply),
            Command::AssertAlert(c) => match text_of(reply) {
                Ok(s) => verdict(s, c.spec_text()),
                Err(e) => Err(e),
            },
            Command::ExecuteAsync(_) => match json_of(reply) {
                Ok(_) => Ok(()),
                Err(e) => Err(e),
            },
            Command::SetWindowSize(_) => unit_of(reply),
            _ => wait_reply_outcome(reply, self.spec_name()),
        }
    }

    /// The binding that the command makes on the session's reply: that of
    /// an asynchronous script that names a variable and returned a value.
    pub open spec fn binding_spec(&self, reply: Reply) -> Option<(Seq<char>, Value)> {
        match (self, reply) {
            (Command::ExecuteAsync(c), Reply::Json(v)) => match c.spec_variable() {
                Some(name) => Some((name, v)),
                None => None,
            },
            _ => None,
        }
    }

    /// The command's name.
    pub fn name(&self) -> (r: &'static str)
        ensures
            r@ == self.spec_name(),
    {
        match self {
            Command::Goto(_) => "Goto",
            Command::AssertAlert(_) => "AssertAlert",
            Command::ExecuteAsync(_) => "ExecuteAsync",
            Command::SetWindowSize(_) => "SetWindowSize",
            Command::WaitForElementPresent(_) => "WaitForElementPresent",
            Command::WaitForElementNotPresent(_) => "WaitForElementNotPresent",
            Command::WaitForElementVisible(_) => "WaitForElementVisible",
            Command::WaitForElementEditable(_) => "WaitForElementEditable",
            Command::WaitForElementNotEditable(_) => "WaitForElementNotEditable",
        }
    }

    /// What the command asks of the session.
    pub fn request(&self, data: &VarStore) -> (q: Request)
        requires
            data.wf(),
        ensures
            q@ == self.request_spec(*data),
    {
        match self {
            Command::Goto(c) => c.request(),
            Command::AssertAlert(c) => c.request(),
            Command::ExecuteAsync(c) => c.request(data),
            Command::SetWindowSize(c) => c.request(),
            Command::WaitForElementPresent(c) => c.request(),
            Command::WaitForElementNotPresent(c) => c.request(),
            Command::WaitForElementVisible(c) => c.request(),
            Command::WaitForElementEditable(c) => c.request(),
            Command::WaitForElementNotEditable(c) => c.request(),
        }
    }

    /// Judges the session's reply and records what the command binds. Only
    /// a script step that succeeded changes the store.
    pub fn finish(&self, reply: Reply, data: &mut VarStore) -> (r: Result<(), RunnerErrorKind>)
        requires
            old(data).wf(),
        ensures
            final(data).wf(),
            outcome_view(r) == self.outcome_spec(reply),
            match self.binding_spec(reply) {
                Some((name, value)) => final(data).is_insert_of(*old(data), name, value),
                None => *final(data) == *old(data),
            },
    {
        match self {
            Command::Goto(c) => c.finish(reply.into_unit()),
            Command::AssertAlert(c) => c.finish(reply.into_text()),
            Command::ExecuteAsync(c) => c.finish(reply.into_json(), data),
            Command::SetWindowSize(c) => c.finish(reply.into_unit()),
            Command::WaitForElementPresent(c) => c.finish(reply.into_unit()),
            Command::WaitForElementNotPresent(c) => c.finish(reply.into_unit()),
            Command::WaitForElementVisible(c) => c.finish(reply.into_unit()),
            Command::WaitForElementEditable(c) => c.finish(reply.into_unit()),
            Command::WaitForElementNotEditable(c) => c.finish(reply.into_unit()),
        }
    }
}

} // verus!
