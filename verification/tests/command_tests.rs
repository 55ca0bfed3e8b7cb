use serde_json::Value;
use siderunner::command::assert_alert::AssertAlert;
use siderunner::command::execute_async::ExecuteAsync;
use siderunner::command::goto::Goto;
use siderunner::command::set_window_size::SetWindowSize;
use siderunner::command::wait_for_element_editable::{
    WaitForElementEditable, WaitForElementNotEditable,
};
use siderunner::command::wait_for_element_present::{
    WaitForElementNotPresent, WaitForElementPresent,
};
use siderunner::command::wait_for_element_visible::WaitForElementVisible;
use siderunner::command::Command;
use siderunner::error::RunnerErrorKind;
use siderunner::locator::{Locator, Strategy};
use siderunner::poll::Condition;
use siderunner::store::VarStore;
use siderunner::webdriver::{Reply, Request};

fn timeout(name: &str) -> Result<(), RunnerErrorKind> {
    Err(RunnerErrorKind::Timeout(name.to_owned()))
}

fn backend(text: &str) -> RunnerErrorKind {
    RunnerErrorKind::BackendError(text.to_owned())
}

#[test]
fn locator_strategy_and_value() {
    assert_eq!(Locator::Css("#main".to_owned()).strategy(), Strategy::Css);
    assert_eq!(Locator::XPath("//a".to_owned()).strategy(), Strategy::XPath);
    assert_eq!(Locator::Id("x".to_owned()).strategy(), Strategy::Id);
    assert_eq!(Locator::LinkText("Next".to_owned()).strategy(), Strategy::LinkText);
    assert_eq!(Locator::Css("#main".to_owned()).value(), "#main");
    assert_eq!(Locator::LinkText("Next".to_owned()).value(), "Next");
    let l = Locator::Id("x".to_owned());
    assert_eq!(l.clone(), l);
}

#[test]
fn assert_alert_succeeds_on_identical_text() {
    let cmd = AssertAlert::new("Are you sure?".to_owned());
    assert_eq!(cmd.text(), "Are you sure?");
    assert!(matches!(cmd.request(), Request::AlertText));
    assert_eq!(cmd.finish(Ok("Are you sure?".to_owned())), Ok(()));
}

#[test]
fn assert_alert_fails_on_any_difference() {
    let cmd = AssertAlert::new("Are you sure?".to_owned());
    assert_eq!(
        cmd.finish(Ok("are you sure?".to_owned())),
        Err(RunnerErrorKind::AssertFailed {
            lhs: "are you sure?".to_owned(),
            rhs: "Are you sure?".to_owned(),
        })
    );
    assert_eq!(
        cmd.finish(Ok("Are you sure? ".to_owned())),
        Err(RunnerErrorKind::AssertFailed {
            lhs: "Are you sure? ".to_owned(),
            rhs: "Are you sure?".to_owned(),
        })
    );
    assert_eq!(
        cmd.finish(Ok(String::new())),
        Err(RunnerErrorKind::AssertFailed {
            lhs: String::new(),
            rhs: "Are you sure?".to_owned(),
        })
    );
}

#[test]
fn assert_alert_passes_a_backend_failure_on() {
    let cmd = AssertAlert::new("x".to_owned());
    assert_eq!(cmd.finish(Err(backend("no alert open"))), Err(backend("no alert open")));
}

#[test]
fn execute_async_binds_the_result() {
    let cmd = ExecuteAsync::new("done(1)".to_owned(), Some("one".to_owned()));
    let mut data = VarStore::new();
    assert_eq!(cmd.finish(Ok(Value::from(1)), &mut data), Ok(()));
    assert_eq!(data.get("one"), Some(&Value::from(1)));
    assert_eq!(cmd.finish(Ok(Value::from(2)), &mut data), Ok(()));
    assert_eq!(data.get("one"), Some(&Value::from(2)));
    assert_eq!(data.len(), 1);
}

#[test]
fn execute_async_without_variable_binds_nothing() {
    let cmd = ExecuteAsync::new("done(1)".to_owned(), None);
    let mut data = VarStore::new();
    assert_eq!(cmd.finish(Ok(Value::from(1)), &mut data), Ok(()));
    assert_eq!(data.len(), 0);
}

#[test]
fn execute_async_failure_binds_nothing() {
    let cmd = ExecuteAsync::new("done(1)".to_owned(), Some("one".to_owned()));
    let mut data = VarStore::new();
    assert_eq!(cmd.finish(Err(backend("script error")), &mut data), Err(backend("script error")));
    assert_eq!(data.get("one"), None);
}

#[test]
fn execute_async_request_names_the_recorded_variables() {
    let cmd = ExecuteAsync::new("done(a + b)".to_owned(), None);
    let mut data = VarStore::new();
    data.insert("a".to_owned(), Value::from(1));
    data.insert("b".to_owned(), Value::String("two".to_owned()));
    data.insert("a".to_owned(), Value::from(3));
    match cmd.request(&data) {
        Request::Execute { script, names, args, asynchronous } => {
            assert_eq!(script, "done(a + b)");
            assert_eq!(names, vec!["a".to_owned(), "b".to_owned()]);
            assert_eq!(args, vec![Value::from(3), Value::String("two".to_owned())]);
            assert!(asynchronous);
        }
        other => panic!("unexpected request {:?}", other),
    }
}

#[test]
fn set_window_size_asks_once_and_passes_the_answer_on() {
    let cmd = SetWindowSize::new(1024, 768);
    match cmd.request() {
        Request::SetWindowSize { width, height } => {
            assert_eq!(width, 1024);
            assert_eq!(height, 768);
        }
        other => panic!("unexpected request {:?}", other),
    }
    assert_eq!(cmd.finish(Ok(())), Ok(()));
    assert_eq!(cmd.finish(Err(backend("rejected"))), Err(backend("rejected")));
}

#[test]
fn goto_asks_for_the_address() {
    let cmd = Goto::new("https://example.test".to_owned());
    match cmd.request() {
        Request::Goto(url) => assert_eq!(url, "https://example.test"),
        other => panic!("unexpected request {:?}", other),
    }
    assert_eq!(cmd.finish(Ok(())), Ok(()));
    assert_eq!(cmd.finish(Err(backend("dns"))), Err(backend("dns")));
}

#[test]
fn wait_commands_poll_for_their_condition() {
    let target = Locator::Css("#main".to_owned());
    match WaitForElementVisible::new(target.clone(), 5000).request() {
        Request::Wait { condition, target: t, timeout, interval } => {
            assert_eq!(condition, Condition::Visible);
            assert_eq!(t, target);
            assert_eq!(timeout, 5000);
            assert_eq!(interval, 1666);
        }
        other => panic!("unexpected request {:?}", other),
    }
    assert!(matches!(
        WaitForElementPresent::new(target.clone(), 1).request(),
        Request::Wait { condition: Condition::Present, timeout: 1, interval: 0, .. }
    ));
    assert!(matches!(
        WaitForElementNotPresent::new(target.clone(), 30).request(),
        Request::Wait { condition: Condition::NotPresent, timeout: 30, interval: 10, .. }
    ));
    assert!(matches!(
        WaitForElementEditable::new(target.clone(), 31).request(),
        Request::Wait { condition: Condition::Editable, timeout: 31, interval: 10, .. }
    ));
    assert!(matches!(
        WaitForElementNotEditable::new(target.clone(), 32).request(),
        Request::Wait { condition: Condition::NotEditable, timeout: 32, interval: 10, .. }
    ));
}

#[test]
fn wait_commands_turn_any_failure_into_their_own_timeout() {
    let target = Locator::Id("x".to_owned());
    let present = WaitForElementPresent::new(target.clone(), 10);
    assert_eq!(present.finish(Ok(())), Ok(()));
    assert_eq!(present.finish(Err(backend("stale"))), timeout("WaitForElementPresent"));
    let not_present = WaitForElementNotPresent::new(target.clone(), 10);
    assert_eq!(not_present.finish(Ok(())), Ok(()));
    assert_eq!(not_present.finish(Err(backend("stale"))), timeout("WaitForElementNotPresent"));
    let visible = WaitForElementVisible::new(target.clone(), 10);
    assert_eq!(visible.finish(Ok(())), Ok(()));
    assert_eq!(
        visible.finish(Err(RunnerErrorKind::NoSuchValue("v".to_owned()))),
        timeout("WaitForElementVisible")
    );
    let editable = WaitForElementEditable::new(target.clone(), 10);
    assert_eq!(editable.finish(Ok(())), Ok(()));
    assert_eq!(editable.finish(Err(backend("stale"))), timeout("WaitForElementEditable"));
    let not_editable = WaitForElementNotEditable::new(target, 10);
    assert_eq!(not_editable.finish(Ok(())), Ok(()));
    assert_eq!(not_editable.finish(Err(backend("stale"))), timeout("WaitForElementNotEditable"));
}

#[test]
fn command_names() {
    let target = Locator::Id("x".to_owned());
    assert_eq!(Command::Goto(Goto::new(String::new())).name(), "Goto");
    assert_eq!(Command::AssertAlert(AssertAlert::new(String::new())).name(), "AssertAlert");
    assert_eq!(
        Command::ExecuteAsync(ExecuteAsync::new(String::new(), None)).name(),
        "ExecuteAsync"
    );
    assert_eq!(Command::SetWindowSize(SetWindowSize::new(1, 1)).name(), "SetWindowSize");
    assert_eq!(
        Command::WaitForElementVisible(WaitForElementVisible::new(target, 1)).name(),
        "WaitForElementVisible"
    );
}

#[test]
fn command_refuses_a_reply_of_the_wrong_kind() {
    let mut data = VarStore::new();
    let alert = Command::AssertAlert(AssertAlert::new("x".to_owned()));
    assert_eq!(alert.finish(Reply::Done, &mut data), Err(backend("unexpected reply")));
    let script = Command::ExecuteAsync(ExecuteAsync::new("s".to_owned(), Some("v".to_owned())));
    assert_eq!(
        script.finish(Reply::Text("t".to_owned()), &mut data),
        Err(backend("unexpected reply"))
    );
    assert_eq!(data.len(), 0);
    let size = Command::SetWindowSize(SetWindowSize::new(1, 1));
    assert_eq!(
        size.finish(Reply::Json(Value::Null), &mut data),
        Err(backend("unexpected reply"))
    );
    let wait = Command::WaitForElementPresent(WaitForElementPresent::new(
        Locator::Id("x".to_owned()),
        1,
    ));
    assert_eq!(
        wait.finish(Reply::Text("t".to_owned()), &mut data),
        timeout("WaitForElementPresent")
    );
}

#[test]
fn error_kind_names() {
    assert_eq!(backend("x").kind_name(), "BackendError");
    assert_eq!(
        RunnerErrorKind::AssertFailed { lhs: String::new(), rhs: String::new() }.kind_name(),
        "AssertFailed"
    );
    assert_eq!(RunnerErrorKind::Timeout(String::new()).kind_name(), "Timeout");
    assert_eq!(RunnerErrorKind::NoSuchValue(String::new()).kind_name(), "NoSuchValue");
    let e = RunnerErrorKind::AssertFailed { lhs: "a".to_owned(), rhs: "b".to_owned() };
    assert_eq!(e.clone(), e);
}
