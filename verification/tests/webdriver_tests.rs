use serde_json::Value;
use siderunner::error::RunnerErrorKind;
use siderunner::locator::Locator;
use siderunner::poll::Condition;
use siderunner::webdriver::client::Client;
use siderunner::webdriver::{current_url, validated_url, ElementAction, Reply, Request};

fn backend(text: &str) -> RunnerErrorKind {
    RunnerErrorKind::BackendError(text.to_owned())
}

#[test]
fn current_url_is_returned_as_parsed() {
    assert_eq!(current_url("https://example.test"), Ok("https://example.test/".to_owned()));
    assert_eq!(
        current_url("HTTP://Example.Test/a/../b?q=1#f"),
        Ok("http://example.test/b?q=1#f".to_owned())
    );
}

#[test]
fn unparsable_url_is_refused() {
    assert_eq!(current_url("not a url"), Err(backend("current_url: not a url")));
    assert_eq!(current_url(""), Err(backend("current_url: ")));
    assert_eq!(current_url("/relative/path"), Err(backend("current_url: /relative/path")));
}

#[test]
fn validated_url_judges_the_parse_result() {
    assert_eq!(validated_url(Some("a:b".to_owned()), "A:b"), Ok("a:b".to_owned()));
    assert_eq!(validated_url(None, "x"), Err(backend("current_url: x")));
}

#[test]
fn replies_are_taken_for_what_the_operation_reports() {
    assert_eq!(Reply::Done.into_unit(), Ok(()));
    assert_eq!(Reply::Failed(backend("x")).into_unit(), Err(backend("x")));
    assert_eq!(Reply::Text("t".to_owned()).into_unit(), Err(backend("unexpected reply")));
    assert_eq!(Reply::Text("t".to_owned()).into_text(), Ok("t".to_owned()));
    assert_eq!(Reply::Done.into_text(), Err(backend("unexpected reply")));
    assert_eq!(Reply::Failed(backend("x")).into_text(), Err(backend("x")));
    assert_eq!(Reply::Json(Value::Null).into_json(), Ok(Value::Null));
    assert_eq!(Reply::Done.into_json(), Err(backend("unexpected reply")));
    assert_eq!(Reply::MaybeText(None).into_maybe_text(), Ok(None));
    assert_eq!(
        Reply::MaybeText(Some("v".to_owned())).into_maybe_text(),
        Ok(Some("v".to_owned()))
    );
    assert_eq!(Reply::Text("v".to_owned()).into_maybe_text(), Err(backend("unexpected reply")));
}

#[test]
fn client_builds_session_requests() {
    let client = Client::new("s1".to_owned());
    assert_eq!(client.session(), "s1");
    assert!(matches!(client.goto("https://example.test"), Request::Goto(u) if u == "https://example.test"));
    assert!(matches!(client.find(Locator::Id("a".to_owned())), Request::Find(Locator::Id(v)) if v == "a"));
    assert!(matches!(
        client.find_all(Locator::Css("li".to_owned())),
        Request::FindAll(Locator::Css(v)) if v == "li"
    ));
    assert!(matches!(client.current_url(), Request::CurrentUrl));
    assert!(matches!(client.alert_text(), Request::AlertText));
    assert!(matches!(
        client.set_window_size(800, 600),
        Request::SetWindowSize { width: 800, height: 600 }
    ));
    match client.execute("return arguments[0];", vec![Value::from(1)]) {
        Request::Execute { script, names, args, asynchronous } => {
            assert_eq!(script, "return arguments[0];");
            assert!(names.is_empty());
            assert_eq!(args, vec![Value::from(1)]);
            assert!(!asynchronous);
        }
        other => panic!("unexpected request {:?}", other),
    }
    assert!(matches!(client.close(), Request::Close));
}

#[test]
fn client_waits_poll_at_a_third_of_the_timeout() {
    let client = Client::new("s1".to_owned());
    let l = Locator::Css("#main".to_owned());
    assert!(matches!(
        client.wait_for_visible(l.clone(), 5000),
        Request::Wait { condition: Condition::Visible, timeout: 5000, interval: 1666, .. }
    ));
    assert!(matches!(
        client.wait_for_present(l.clone(), 300),
        Request::Wait { condition: Condition::Present, timeout: 300, interval: 100, .. }
    ));
    assert!(matches!(
        client.wait_for_not_present(l.clone(), 301),
        Request::Wait { condition: Condition::NotPresent, timeout: 301, interval: 100, .. }
    ));
    assert!(matches!(
        client.wait_for_editable(l.clone(), 302),
        Request::Wait { condition: Condition::Editable, timeout: 302, interval: 100, .. }
    ));
    assert!(matches!(
        client.wait_for_not_editable(l, 303),
        Request::Wait { condition: Condition::NotEditable, timeout: 303, interval: 101, .. }
    ));
}

#[test]
fn find_takes_the_first_element_and_fails_on_none() {
    let client = Client::new("s1".to_owned());
    let found = client.found(Reply::Elements(vec!["e1".to_owned(), "e2".to_owned()])).unwrap();
    assert_eq!(found.reference(), "e1");
    match client.found(Reply::Elements(Vec::new())) {
        Err(e) => assert_eq!(e, backend("no such element")),
        Ok(e) => panic!("unexpected element {:?}", e),
    }
    match client.found(Reply::Failed(backend("gone"))) {
        Err(e) => assert_eq!(e, backend("gone")),
        Ok(e) => panic!("unexpected element {:?}", e),
    }
    match client.found(Reply::Done) {
        Err(e) => assert_eq!(e, backend("unexpected reply")),
        Ok(e) => panic!("unexpected element {:?}", e),
    }
}

#[test]
fn find_all_keeps_document_order_and_accepts_none() {
    let client = Client::new("s1".to_owned());
    let all = client
        .found_all(Reply::Elements(vec!["e1".to_owned(), "e2".to_owned(), "e3".to_owned()]))
        .unwrap();
    let refs: Vec<&str> = all.iter().map(|e| e.reference()).collect();
    assert_eq!(refs, vec!["e1", "e2", "e3"]);
    assert!(client.found_all(Reply::Elements(Vec::new())).unwrap().is_empty());
    match client.found_all(Reply::Failed(backend("gone"))) {
        Err(e) => assert_eq!(e, backend("gone")),
        Ok(e) => panic!("unexpected elements {:?}", e),
    }
}

#[test]
fn element_reads_are_requests_on_its_reference() {
    let client = Client::new("s1".to_owned());
    let e = client.element("e7".to_owned());
    assert!(matches!(
        e.attr("href"),
        Request::Element { reference, action: ElementAction::Attr(a) } if reference == "e7" && a == "href"
    ));
    assert!(matches!(
        e.prop("value"),
        Request::Element { reference, action: ElementAction::Prop(a) } if reference == "e7" && a == "value"
    ));
    assert!(matches!(e.text(), Request::Element { action: ElementAction::Text, .. }));
    assert!(matches!(e.html(true), Request::Element { action: ElementAction::Html(true), .. }));
    assert!(matches!(e.html(false), Request::Element { action: ElementAction::Html(false), .. }));
    assert!(matches!(
        e.find(Locator::XPath("./a".to_owned())),
        Request::Element { action: ElementAction::Find(Locator::XPath(x)), .. } if x == "./a"
    ));
}

#[test]
fn element_actions_hand_the_driver_back() {
    let client = Client::new("s1".to_owned());
    let (driver, request) = client.element("e7".to_owned()).click();
    assert_eq!(driver.session(), "s1");
    assert!(matches!(
        request,
        Request::Element { reference, action: ElementAction::Click } if reference == "e7"
    ));
    let (driver, request) = driver.element("e8".to_owned()).select_by_index(2);
    assert_eq!(driver.session(), "s1");
    assert!(matches!(
        request,
        Request::Element { reference, action: ElementAction::SelectByIndex(2) } if reference == "e8"
    ));
    let (driver, request) = driver.element("e9".to_owned()).select_by_value("red");
    assert_eq!(driver.session(), "s1");
    assert!(matches!(
        request,
        Request::Element { reference, action: ElementAction::SelectByValue(v) } if reference == "e9" && v == "red"
    ));
    assert_eq!(Reply::Failed(backend("stale element")).into_unit(), Err(backend("stale element")));
    assert!(matches!(driver.goto("about:blank"), Request::Goto(_)));
}
