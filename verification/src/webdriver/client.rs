//! Handles on a session and on its elements. A handle performs nothing
//! itself: each operation yields the request that the owner of the
//! connection sends, and the handle judges what came back.

use crate::error::{ErrorView, RunnerErrorKind};
use crate::locator::Locator;
use crate::poll::Condition;
use crate::webdriver::{
    wait_request, wait_request_spec, ElementAction, ElementActionView, Reply, Request, RequestView,
};
use serde_json::Value;
use vstd::prelude::*;

verus! {

/// A handle on one session, known by the session's identifier.
#[derive(Debug)]
pub struct Client {
    session: String,
}

/// A handle on one element of the page of a session.
#[derive(Debug)]
pub struct WebElement {
    reference: String,
    session: String,
}

/// What a reply to a lookup is taken for: the references of the elements
/// found, in document order.
pub open spec fn elements_of(reply: Reply) -> Result<Seq<Seq<char>>, ErrorView> {
    match reply {
        Reply::Elements(refs) => Ok(crate::store::texts(refs@)),
        Reply::Failed(e) => Err(e@),
        _ => Err(ErrorView::BackendError("unexpected reply"@)),
    }
}

/// What a reply to a lookup of one element is taken for: the first element
/// found; a lookup that found none has failed.
pub open spec fn first_element_of(reply: Reply) -> Result<Seq<char>, ErrorView> {
    match elements_of(reply) {
        Ok(refs) => if refs.len() > 0 {
            Ok(refs[0])
        } else {
            Err(ErrorView::BackendError("no such element"@))
        },
        Err(e) => Err(e),
    }
}

impl Client {
    /// The identifier of the session.
    pub closed spec fn spec_session(&self) -> Seq<char> {
        self.session@
    }

    /// A handle on the session with the given identifier.
    pub fn new(session: String) -> (r: Self)
        ensures
            r.spec_session() == session@,
    {
        Client { session }
    }

    /// The identifier of the session.
    pub fn session(&self) -> (r: &str)
        ensures
            r@ == self.spec_session(),
    {
        self.session.as_str()
    }

    /// The request that navigates to `url`.
    pub fn goto(&self, url: &str) -> (q: Request)
        ensures
            q@ == RequestView::Goto(url@),
    {
        Request::Goto(url.to_owned())
    }

    /// The request that looks up the first element that `locator` matches.
    pub fn find(&self, locator: Locator) -> (q: Request)
        ensures
            q@ == RequestView::Find(locator@),
    {
        Request::Find(locator)
    }

    /// The request that looks up every element that `locator` matches.
    pub fn find_all(&self, locator: Locator) -> (q: Request)
        ensures
            q@ == RequestView::FindAll(locator@),
    {
        Request::FindAll(locator)
    }

    /// The handle on the element with the given reference in this session.
    pub fn element(&self, reference: String) -> (r: WebElement)
        ensures
            r.spec_reference() == reference@,
            r.spec_session() == self.spec_session(),
    {
        WebElement { reference, session: self.session.clone() }
    }

    /// Judges the reply to [`Self::find`]: the first element found, and a
    /// failure where none was found.
    pub fn found(&self, reply: Reply) -> (r: Result<WebElement, RunnerErrorKind>)
        ensures
            match first_element_of(reply) {
                Ok(reference) => r matches Ok(e) && e.spec_reference() == reference
                    && e.spec_session() == self.spec_session(),
                Err(cause) => r matches Err(e) && e@ == cause,
            },
    {
        match reply {
            Reply::Elements(refs) => {
                if refs.len() > 0 {
                    Ok(self.element(refs[0].clone()))
                } else {
                    Err(RunnerErrorKind::BackendError("no such element".to_owned()))
                }
            },
            Reply::Failed(e) => Err(e),
            _ => Err(RunnerErrorKind::BackendError("unexpected reply".to_owned())),
        }
    }

    /// Judges the reply to [`Self::find_all`]: every element found, in
    /// document order; to have found none is no failure.
    pub fn found_all(&self, reply: Reply) -> (r: Result<Vec<WebElement>, RunnerErrorKind>)
        ensures
            match elements_of(reply) {
                Ok(refs) => r matches Ok(found) && found@.len() == refs.len() && forall|i: int|
                    0 <= i < refs.len() ==> (#[trigger] found@[i]).spec_reference() == refs[i]
                        && found@[i].spec_session() == self.spec_session(),
                Err(cause) => r matches Err(e) && e@ == cause,
            },
    {
        match reply {
            Reply::Elements(refs) => {
                let mut found: Vec<WebElement> = Vec::new();
                let mut i: usize = 0;
                while i < refs.len()
                    invariant
                        i <= refs@.len(),
                        found@.len() == i,
                        forall|j: int|
                            0 <= j < i ==> (#[trigger] found@[j]).spec_reference() == refs@[j]@
                                && found@[j].spec_session() == self.spec_session(),
                    decreases refs@.len() - i,
                {
                    found.push(self.element(refs[i].clone()));
                    i += 1;
                }
                Ok(found)
            },
            Reply::Failed(e) => Err(e),
            _ => Err(RunnerErrorKind::BackendError("unexpected reply".to_owned())),
        }
    }

    /// The request that polls until the element is displayed.
    pub fn wait_for_visible(&self, locator: Locator, timeout: u64) -> (q: Request)
        ensures
            q@ == wait_request_spec(Condition::Visible, locator@, timeout),
    {
        wait_request(Condition::Visible, locator, timeout)
    }

    /// The request that polls until the element is gone from the document.
    pub fn wait_for_not_present(&self, locator: Locator, timeout: u64) -> (q: Request)
        ensures
            q@ == wait_request_spec(Condition::NotPresent, locator@, timeout),
    {
        wait_request(Condition::NotPresent, locator, timeout)
    }

    /// The request that polls until the element is in the document.
    pub fn wait_for_present(&self, locator: Locator, timeout: u64) -> (q: Request)
        ensures
            q@ == wait_request_spec(Condition::Present, locator@, timeout),
    {
        wait_request(Condition::Present, locator, timeout)
    }

    /// The request that polls until the element accepts input.
    pub fn wait_for_editable(&self, locator: Locator, timeout: u64) -> (q: Request)
        ensures
            q@ == wait_request_spec(Condition::Editable, locator@, timeout),
    {
        wait_request(Condition::Editable, locator, timeout)
    }

    /// The request that polls until the element no longer accepts input.
    pub fn wait_for_not_editable(&self, locator: Locator, timeout: u64) -> (q: Request)
        ensures
            q@ == wait_request_spec(Condition::NotEditable, locator@, timeout),
    {
        wait_request(Condition::NotEditable, locator, timeout)
    }

    /// The request that reads the text of the dialog on display.
    pub fn alert_text(&self) -> (q: Request)
        ensures
            q@ == RequestView::AlertText,
    {
        Request::AlertText
    }

    /// The request that reports the current address; what comes back goes
    /// through [`crate::webdriver::current_url`].
    pub fn current_url(&self) -> (q: Request)
        ensures
            q@ == RequestView::CurrentUrl,
    {
        Request::CurrentUrl
    }

    /// The request that resizes the window.
    pub fn set_window_size(&self, width: u32, height: u32) -> (q: Request)
        ensures
            q@ == (RequestView::SetWindowSize { width, height }),
    {
        Request::SetWindowSize { width, height }
    }

    /// The request that runs `script` synchronously with the given
    /// positional arguments, which have no names.
    pub fn execute(&self, script: &str, args: Vec<Value>) -> (q: Request)
        ensures
            q@ == (RequestView::Execute {
                script: script@,
                names: Seq::<Seq<char>>::empty(),
                args: args@,
                asynchronous: false,
            }),
    {
        let names: Vec<String> = Vec::new();
        proof {
            assert(crate::store::texts(names@) =~= Seq::<Seq<char>>::empty());
        }
        Request::Execute { script: script.to_owned(), names, args, asynchronous: false }
    }

    /// The request that releases the session. The handle is consumed: a
    /// session is closed at most once.
    pub fn close(self) -> (q: Request)
        ensures
            q@ == RequestView::Close,
    {
        Request::Close
    }
}

impl WebElement {
    /// The reference by which the backend knows the element.
    pub closed spec fn spec_reference(&self) -> Seq<char> {
        self.reference@
    }

    /// The identifier of the session that the element belongs to.
    pub closed spec fn spec_session(&self) -> Seq<char> {
        self.session@
    }

    /// The request of `action` on this element.
    pub open spec fn request_spec(&self, action: ElementActionView) -> RequestView {
        RequestView::Element { reference: self.spec_reference(), action }
    }

    /// The reference by which the backend knows the element.
    pub fn reference(&self) -> (r: &str)
        ensures
            r@ == self.spec_reference(),
    {
        self.reference.as_str()
    }

    /// The request that reads an attribute.
    pub fn attr(&self, attribute: &str) -> (q: Request)
        ensures
            q@ == self.request_spec(ElementActionView::Attr(attribute@)),
    {
        Request::Element {
            reference: self.reference.clone(),
            action: ElementAction::Attr(attribute.to_owned()),
        }
    }

    /// The request that reads a property.
    pub fn prop(&self, prop: &str) -> (q: Request)
        ensures
            q@ == self.request_spec(ElementActionView::Prop(prop@)),
    {
        Request::Element {
            reference: self.reference.clone(),
            action: ElementAction::Prop(prop.to_owned()),
        }
    }

    /// The request that reads the rendered text.
    pub fn text(&self) -> (q: Request)
        ensures
            q@ == self.request_spec(ElementActionView::Text),
    {
        Request::Element { reference: self.reference.clone(), action: ElementAction::Text }
    }

    /// The request that reads the markup, inner or outer.
    pub fn html(&self, inner: bool) -> (q: Request)
        ensures
            q@ == self.request_spec(ElementActionView::Html(inner)),
    {
        Request::Element { reference: self.reference.clone(), action: ElementAction::Html(inner) }
    }

    /// The request that looks up the first descendant that `search` matches.
    pub fn find(&self, search: Locator) -> (q: Request)
        ensures
            q@ == self.request_spec(ElementActionView::Find(search@)),
    {
        Request::Element { reference: self.reference.clone(), action: ElementAction::Find(search) }
    }

    /// Gives the element up for a click. The handle on the owning session
    /// comes back together with the request, so it is back whether the
    /// click then succeeds or fails; a failure arrives as the reply.
    pub fn click(self) -> (r: (Client, Request))
        ensures
            r.0.spec_session() == self.spec_session(),
            r.1@ == self.request_spec(ElementActionView::Click),
    {
        (
            Client { session: self.session },
            Request::Element { reference: self.reference, action: ElementAction::Click },
        )
    }

    /// Gives the element up for the selection of the option at `index`; the
    /// handle on the owning session comes back as with [`Self::click`].
    pub fn select_by_index(self, index: usize) -> (r: (Client, Request))
        ensures
            r.0.spec_session() == self.spec_session(),
            r.1@ == self.request_spec(ElementActionView::SelectByIndex(index)),
    {
        (
            Client { session: self.session },
            Request::Element {
                reference: self.reference,
                action: ElementAction::SelectByIndex(index),
            },
        )
    }

    /// Gives the element up for the selection of the option with `value`;
    /// the handle on the owning session comes back as with [`Self::click`].
    pub fn select_by_value(self, value: &str) -> (r: (Client, Request))
        ensures
            r.0.spec_session() == self.spec_session(),
            r.1@ == self.request_spec(ElementActionView::SelectByValue(value@)),
    {
        (
            Client { session: self.session },
            Request::Element {
                reference: self.reference,
                action: ElementAction::SelectByValue(value.to_owned()),
            },
        )
    }
}

} // verus!
