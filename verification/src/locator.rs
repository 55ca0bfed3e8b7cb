//! How an element is looked up on the page.

use vstd::prelude::*;

verus! {

/// The lookup strategy of a [`Locator`].
#[derive(Debug, Clone, Copy, PartialEq, Eq, Structural)]
pub enum Strategy {
    Css,
    XPath,
    Id,
    LinkText,
}

/// A strategy together with the text it is applied to.
#[derive(Debug, PartialEq, Eq)]
pub enum Locator {
    /// A CSS selector.
    Css(String),
    /// An XPath expression.
    XPath(String),
    /// The `id` attribute of the element.
    Id(String),
    /// The exact text of a link.
    LinkText(String),
}

/// The mathematical value of a [`Locator`].
pub struct LocatorView {
    pub strategy: Strategy,
    pub value: Seq<char>,
}

impl View for Locator {
    type V = LocatorView;

    open spec fn view(&self) -> LocatorView {
        match self {
            Locator::Css(s) => LocatorView { strategy: Strategy::Css, value: s@ },
            Locator::XPath(s) => LocatorView { strategy: Strategy::XPath, value: s@ },
            Locator::Id(s) => LocatorView { strategy: Strategy::Id, value: s@ },
            Locator::LinkText(s) => LocatorView { strategy: Strategy::LinkText, value: s@ },
        }
    }
}

impl Clone for Locator {
    fn clone(&self) -> (r: Self)
        ensures
            r@ == self@,
    {
        match self {
            Locator::Css(s) => Locator::Css(s.clone()),
            Locator::XPath(s) => Locator::XPath(s.clone()),
            Locator::Id(s) => Locator::Id(s.clone()),
            Locator::LinkText(s) => Locator::LinkText(s.clone()),
        }
    }
}

impl Locator {
    /// Which strategy the backend is to use.
    pub fn strategy(&self) -> (r: Strategy)
        ensures
            r == self@.strategy,
    {
        match self {
            Locator::Css(_) => Strategy::Css,
            Locator::XPath(_) => Strategy::XPath,
            Locator::Id(_) => Strategy::Id,
            Locator::LinkText(_) => Strategy::LinkText,
        }
    }

    /// The text that the strategy is applied to.
    pub fn value(&self) -> (r: &str)
        ensures
            r@ == self@.value,
    {
        match self {
            Locator::Css(s) => s.as_str(),
            Locator::XPath(s) => s.as_str(),
            Locator::Id(s) => s.as_str(),
            Locator::LinkText(s) => s.as_str(),
        }
    }
}

} // verus!
