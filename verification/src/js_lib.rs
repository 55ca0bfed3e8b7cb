//! The browser-side shim that answers the page's next prompt. The two
//! script fragments are opaque text: they are joined and sent, never read.

use crate::runner::Runner;
use crate::webdriver::{Request, RequestView};
use vstd::prelude::*;
use vstd::string::StringExecFns;

verus! {

/// The text of a string literal that denotes `s`: `s` between double quotes
/// with the characters escaped that std's `Debug` for `str` escapes.
pub uninterp spec fn debug_quoted(s: Seq<char>) -> Seq<char>;

/// Formats `s` with std's `Debug` for `str`, which writes it as a quoted
/// and escaped literal; the result depends on the characters of `s` alone.
#[verifier::external_body]
fn quote(s: &str) -> (r: String)
    ensures
        r@ == debug_quoted(s@),
{
    format!("{:?}", s)
}

/// The script that installs the dialog handler and arms it with an answer
/// that is already written as a literal.
pub open spec fn prompt_code(install: Seq<char>, arm: Seq<char>, literal: Seq<char>) -> Seq<char> {
    install + arm + " replaceAlertMethod(null); answerOnNextPrompt("@ + literal + ");"@
}

/// Joins the two fragments and the two calls: install the handler, then arm
/// it with `literal`, so that only the next prompt is answered.
pub fn compose_prompt_code(install: &str, arm: &str, literal: &str) -> (r: String)
    ensures
        r@ == prompt_code(install@, arm@, literal@),
{
    let mut code = install.to_owned();
    code.append(arm);
    code.append(" replaceAlertMethod(null); answerOnNextPrompt(");
    code.append(literal);
    code.append(");");
    code
}

/// The request that makes the page answer its next prompt with `answer`:
/// one synchronous execution of both fragments and the two calls.
pub fn answer_on_next_prompt(runner: &Runner, install: &str, arm: &str, answer: &str) -> (q:
    Request)
    requires
        runner.wf(),
    ensures
        q@ == (RequestView::Execute {
            script: prompt_code(install@, arm@, debug_quoted(answer@)),
            names: runner.store().keys(),
            args: runner.store().values_in_order(),
            asynchronous: false,
        }),
{
    let literal = quote(answer);
    let code = compose_prompt_code(install, arm, literal.as_str());
    runner.exec(code.as_str())
}

} // verus!
