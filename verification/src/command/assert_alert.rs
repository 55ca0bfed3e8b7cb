//! The assertion on the text of the dialog on display.

use crate::error::{outcome_view, ErrorView, RunnerErrorKind};
use crate::webdriver::{text_view, Request, RequestView};
use vstd::prelude::*;

verus! {

/// Asserts that the dialog on display shows exactly the given text.
#[derive(Debug)]
pub struct AssertAlert {
    text: String,
}

/// The verdict on an observed dialog text: success where it is the expected
/// text character for character, else both texts.
pub open spec fn verdict(observed: Seq<char>, expected: Seq<char>) -> Result<(), ErrorView> {
    if observed == expected {
        Ok(())
    } else {
        Err(ErrorView::AssertFailed { lhs: observed, rhs: expected })
    }
}

impl AssertAlert {
    /// The expected text.
    pub closed spec fn spec_text(&self) -> Seq<char> {
        self.text@
    }

    pub fn new(text: String) -> (r: Self)
        ensures
            r.spec_text() == text@,
    {
        Self { text }
    }

    /// The expected text.
    pub fn text(&self) -> (r: &str)
        ensures
            r@ == self.spec_text(),
    {
        self.text.as_str()
    }

    /// What the command asks of the session: the dialog's text.
    pub fn request(&self) -> (q: Request)
        ensures
            q@ == RequestView::AlertText,
    {
        Request::AlertText
    }

    /// Judges what the session read. A failure to read is passed on; a text
    /// is compared with the expected one as it stands, with no trimming or
    /// folding.
    pub fn finish(&self, observed: Result<String, RunnerErrorKind>) -> (r: Result<
        (),
        RunnerErrorKind,
    >)
        ensures
            outcome_view(r) == (match text_view(observed) {
                Ok(s) => verdict(s, self.spec_text()),
                Err(e) => Err(e),
            }),
    {
        match observed {
            Ok(alert) => {
                if alert == self.text {
                    Ok(())
                } else {
                    Err(RunnerErrorKind::AssertFailed { lhs: alert, rhs: self.text.clone() })
                }
            },
            Err(e) => Err(e),
        }
    }
}

/// The assertion succeeds if and only if the observed text is the expected
/// one; any other text fails it with the observed text as `lhs` and the
/// expected one as `rhs`.
pub proof fn lemma_assert_alert_exact(observed: Seq<char>, expected: Seq<char>)
    ensures
        verdict(observed, expected) is Ok <==> observed == expected,
        observed != expected ==> verdict(observed, expected) == Err::<(), ErrorView>(
            ErrorView::AssertFailed { lhs: observed, rhs: expected },
        ),
{
}

} // verus!
