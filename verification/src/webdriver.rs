//! The boundary to the automation backend: what the interpreter asks of a
//! session, and what a session answers.

pub mod client;

use crate::error::{ErrorView, RunnerErrorKind};
use crate::locator::{Locator, LocatorView};
use crate::poll::Condition;
use crate::store::texts;
use serde_json::Value;
use vstd::prelude::*;
use vstd::string::StringExecFns;

verus! {

/// One operation that the session is asked to perform.
#[derive(Debug)]
pub enum Request {
    /// Navigate the top-level browsing context.
    Goto(String),
    /// Read the text of the dialog that is on display.
    AlertText,
    /// Resize the window.
    SetWindowSize { width: u32, height: u32 },
    /// Run a script with the recorded variables as named arguments:
    /// `names[i]` is bound to `args[i]`. An asynchronous script signals its
    /// completion itself.
    Execute { script: String, names: Vec<String>, args: Vec<Value>, asynchronous: bool },
    /// Poll until the condition holds of the located element, for at most
    /// `timeout` ms, with `interval` ms between two probes.
    Wait { condition: Condition, target: Locator, timeout: u64, interval: u64 },
    /// Look up the first element that the locator matches.
    Find(Locator),
    /// Look up every element that the locator matches, in document order.
    FindAll(Locator),
    /// Report the address of the current page.
    CurrentUrl,
    /// Act on the element with the given reference.
    Element { reference: String, action: ElementAction },
    /// Release the session.
    Close,
}

/// One operation on an element.
#[derive(Debug)]
pub enum ElementAction {
    /// Read an attribute.
    Attr(String),
    /// Read a property.
    Prop(String),
    /// Read the rendered text.
    Text,
    /// Read the markup: the inner one if `true`, else the outer one.
    Html(bool),
    /// Look up the first descendant that the locator matches.
    Find(Locator),
    Click,
    /// Select the option at an index.
    SelectByIndex(usize),
    /// Select the option with a value.
    SelectByValue(String),
}

/// The mathematical value of an [`ElementAction`].
pub enum ElementActionView {
    Attr(Seq<char>),
    Prop(Seq<char>),
    Text,
    Html(bool),
    Find(LocatorView),
    Click,
    SelectByIndex(usize),
    SelectByValue(Seq<char>),
}

impl View for ElementAction {
    type V = ElementActionView;

    open spec fn view(&self) -> ElementActionView {
        match self {
            ElementAction::Attr(s) => ElementActionView::Attr(s@),
            ElementAction::Prop(s) => ElementActionView::Prop(s@),
            ElementAction::Text => ElementActionView::Text,
            ElementAction::Html(inner) => ElementActionView::Html(*inner),
            ElementAction::Find(l) => ElementActionView::Find(l@),
            ElementAction::Click => ElementActionView::Click,
            ElementAction::SelectByIndex(i) => ElementActionView::SelectByIndex(*i),
            ElementAction::SelectByValue(s) => ElementActionView::SelectByValue(s@),
        }
    }
}

/// The mathematical value of a [`Request`].
pub enum RequestView {
    Goto(Seq<char>),
    AlertText,
    SetWindowSize { width: u32, height: u32 },
    Execute { script: Seq<char>, names: Seq<Seq<char>>, args: Seq<Value>, asynchronous: bool },
    Wait { condition: Condition, target: LocatorView, timeout: u64, interval: u64 },
    Find(LocatorView),
    FindAll(LocatorView),
    CurrentUrl,
    Element { reference: Seq<char>, action: ElementActionView },
    Close,
}

/// The request of a wait: the pause between two probes is a third of the
/// timeout.
pub open spec fn wait_request_spec(
    condition: Condition,
    target: LocatorView,
    timeout: u64,
) -> RequestView {
    RequestView::Wait {
        condition,
        target,
        timeout,
        interval: crate::poll::interval_of(timeout as int) as u64,
    }
}

impl View for Request {
    type V = RequestView;

    open spec fn view(&self) -> RequestView {
        match self {
            Request::Goto(url) => RequestView::Goto(url@),
            Request::AlertText => RequestView::AlertText,
            Request::SetWindowSize { width, height } => RequestView::SetWindowSize {
                width: *width,
                height: *height,
            },
            Request::Execute { script, names, args, asynchronous } => RequestView::Execute {
                script: script@,
                names: texts(names@),
                args: args@,
                asynchronous: *asynchronous,
            },
            Request::Wait { condition, target, timeout, interval } => RequestView::Wait {
                condition: *condition,
                target: target@,
                timeout: *timeout,
                interval: *interval,
            },
            Request::Find(l) => RequestView::Find(l@),
            Request::FindAll(l) => RequestView::FindAll(l@),
            Request::CurrentUrl => RequestView::CurrentUrl,
            Request::Element { reference, action } => RequestView::Element {
                reference: reference@,
                action: action@,
            },
            Request::Close => RequestView::Close,
        }
    }
}

/// Builds the request of a wait for `condition` on `target`.
pub fn wait_request(condition: Condition, target: Locator, timeout: u64) -> (q: Request)
    ensures
        q@ == wait_request_spec(condition, target@, timeout),
{
    let poll = crate::poll::Poll::new(timeout);
    Request::Wait { condition, target, timeout, interval: poll.interval() }
}

/// What the session answers to a [`Request`].
#[derive(Debug)]
pub enum Reply {
    /// The operation was performed and has nothing to report.
    Done,
    /// The operation read a text.
    Text(String),
    /// The operation read a text that may be missing, as an attribute may.
    MaybeText(Option<String>),
    /// The operation found these elements, given by their references in
    /// document order.
    Elements(Vec<String>),
    /// The operation returned a JSON value.
    Json(Value),
    /// The operation failed.
    Failed(RunnerErrorKind),
}

/// What a reply is taken for where the operation reports nothing.
pub open spec fn unit_of(reply: Reply) -> Result<(), ErrorView> {
    match reply {
        Reply::Done => Ok(()),
        Reply::Failed(e) => Err(e@),
        _ => Err(ErrorView::BackendError("unexpected reply"@)),
    }
}

/// What a reply is taken for where the operation reads a text.
pub open spec fn text_of(reply: Reply) -> Result<Seq<char>, ErrorView> {
    match reply {
        Reply::Text(s) => Ok(s@),
        Reply::Failed(e) => Err(e@),
        _ => Err(ErrorView::BackendError("unexpected reply"@)),
    }
}

/// What a reply is taken for where the operation reads a text that may be
/// missing.
pub open spec fn maybe_text_of(reply: Reply) -> Result<Option<Seq<char>>, ErrorView> {
    match reply {
        Reply::MaybeText(s) => Ok(option_text(s)),
        Reply::Failed(e) => Err(e@),
        _ => Err(ErrorView::BackendError("unexpected reply"@)),
    }
}

/// The view of a result that may be missing.
pub open spec fn maybe_text_view(r: Result<Option<String>, RunnerErrorKind>) -> Result<
    Option<Seq<char>>,
    ErrorView,
> {
    match r {
        Ok(s) => Ok(option_text(s)),
        Err(e) => Err(e@),
    }
}

/// What a reply is taken for where the operation returns a JSON value.
pub open spec fn json_of(reply: Reply) -> Result<Value, ErrorView> {
    match reply {
        Reply::Json(v) => Ok(v),
        Reply::Failed(e) => Err(e@),
        _ => Err(ErrorView::BackendError("unexpected reply"@)),
    }
}

/// The view of a text result.
pub open spec fn text_view(r: Result<String, RunnerErrorKind>) -> Result<Seq<char>, ErrorView> {
    match r {
        Ok(s) => Ok(s@),
        Err(e) => Err(e@),
    }
}

/// The view of a JSON result.
pub open spec fn json_view(r: Result<Value, RunnerErrorKind>) -> Result<Value, ErrorView> {
    match r {
        Ok(v) => Ok(v),
        Err(e) => Err(e@),
    }
}

/// What `Url::parse` of the url crate makes of a text: the serialization
/// of the absolute URL that it parses to, or `None` where it parses to none.
pub uninterp spec fn parsed_url(raw: Seq<char>) -> Option<Seq<char>>;

/// The text of an optional string.
pub open spec fn option_text(s: Option<String>) -> Option<Seq<char>> {
    match s {
        Some(t) => Some(t@),
        None => None,
    }
}

/// Calls `Url::parse` of the url crate, which parses an absolute URL or
/// returns an error, and `Url::as_str`, which gives the serialization of
/// what was parsed. The result depends on the text alone.
#[verifier::external_body]
fn parse_url(raw: &str) -> (r: Option<String>)
    ensures
        option_text(r) == parsed_url(raw@),
{
    match url::Url::parse(raw) {
        Ok(u) => Some(u.as_str().to_owned()),
        Err(_) => None,
    }
}

/// What the address that a session reports is taken for, given what it
/// parses to: the parsed URL, or a backend error that carries the text.
pub open spec fn url_outcome(parsed: Option<Seq<char>>, raw: Seq<char>) -> Result<
    Seq<char>,
    ErrorView,
> {
    match parsed {
        Some(u) => Ok(u),
        None => Err(ErrorView::BackendError("current_url: "@ + raw)),
    }
}

/// Judges the address `raw` that a session reported, given what it parsed
/// to.
pub fn validated_url(parsed: Option<String>, raw: &str) -> (r: Result<String, RunnerErrorKind>)
    ensures
        text_view(r) == url_outcome(option_text(parsed), raw@),
{
    match parsed {
        Some(u) => Ok(u),
        None => {
            let mut message = "current_url: ".to_owned();
            message.append(raw);
            Err(RunnerErrorKind::BackendError(message))
        },
    }
}

/// Validates the address that a session reported as its current one: it
/// is returned as the URL it parses to, and refused where it parses to none.
pub fn current_url(raw: &str) -> (r: Result<String, RunnerErrorKind>)
    ensures
        text_view(r) == url_outcome(parsed_url(raw@), raw@),
{
    validated_url(parse_url(raw), raw)
}

impl Reply {
    /// The reply to an operation that reports nothing; any other answer
    /// than `Done` or a failure is a fault of the backend.
    pub fn into_unit(self) -> (r: Result<(), RunnerErrorKind>)
        ensures
            crate::error::outcome_view(r) == unit_of(self),
    {
        match self {
            Reply::Done => Ok(()),
            Reply::Failed(e) => Err(e),
            _ => Err(RunnerErrorKind::BackendError("unexpected reply".to_owned())),
        }
    }

    /// The reply to an operation that reads a text; any other answer than a
    /// text or a failure is a fault of the backend.
    pub fn into_text(self) -> (r: Result<String, RunnerErrorKind>)
        ensures
            text_view(r) == text_of(self),
    {
        match self {
            Reply::Text(s) => Ok(s),
            Reply::Failed(e) => Err(e),
            _ => Err(RunnerErrorKind::BackendError("unexpected reply".to_owned())),
        }
    }

    /// The reply to an operation that reads a text that may be missing;
    /// any other kind of answer is a fault of the backend.
    pub fn into_maybe_text(self) -> (r: Result<Option<String>, RunnerErrorKind>)
        ensures
            maybe_text_view(r) == maybe_text_of(self),
    {
        match self {
            Reply::MaybeText(s) => Ok(s),
            Reply::Failed(e) => Err(e),
            _ => Err(RunnerErrorKind::BackendError("unexpected reply".to_owned())),
        }
    }

    /// The reply to an operation that returns a JSON value; any other
    /// answer than a value or a failure is a fault of the backend.
    pub fn into_json(self) -> (r: Result<Value, RunnerErrorKind>)
        ensures
            json_view(r) == json_of(self),
    {
        match self {
            Reply::Json(v) => Ok(v),
            Reply::Failed(e) => Err(e),
            _ => Err(RunnerErrorKind::BackendError("unexpected reply".to_owned())),
        }
    }
}

} // verus!
