use geckodriver::capabilities::{BrowserCapabilities, Capabilities, NewSessionParameters, SpecNewSessionParameters};
use geckodriver::command::{
    AddonInstallParameters, AddonUninstallParameters, GeckoContext, GeckoContextParameters, GeckoExtensionCommand,
    GetParameters, LocatorParameters, LocatorStrategy, SendKeysParameters, WebDriverCommand, WebDriverMessage,
    WebElement, XblLocatorParameters, ELEMENT_KEY, LEGACY_ELEMENT_KEY, WINDOW_KEY,
};
use geckodriver::connection::{after_failed_attempt, check_process, MarionetteConnection, ProcessState, Reply, RetryDecision};
use geckodriver::error::{status_from_code, ErrorStatus, WebDriverResult};
use geckodriver::extension::{extension_routes, AddonInstallRequest, GeckoExtensionRoute, HttpMethod};
use geckodriver::handler::{Dispatch, MarionetteHandler, MarionetteSettings, PrefValue};
use geckodriver::json::{Json, Number};
use geckodriver::message::{parse_handshake, MarionetteCommand, MarionetteError, MarionetteResponse};
use geckodriver::response::{to_web_element, WebDriverResponse};
use geckodriver::session::MarionetteSession;
use geckodriver::wire::{decode_frame, encode_frame, header_step, HeaderStep};

fn s(x: &str) -> Json {
    Json::String(x.to_string())
}

fn n(x: u64) -> Json {
    Json::Number(Number::PosInt(x))
}

fn members(m: Vec<(&str, Json)>) -> Capabilities {
    m.into_iter().map(|(k, v)| (k.to_string(), v)).collect()
}

fn obj(m: Vec<(&str, Json)>) -> Json {
    Json::Object(members(m))
}

fn get<'a>(j: &'a Json, key: &str) -> Option<&'a Json> {
    match j {
        Json::Object(m) => m.iter().find(|(k, _)| k == key).map(|(_, v)| v),
        _ => None,
    }
}

fn string_at<'a>(j: &'a Json, key: &str) -> &'a str {
    match get(j, key) {
        Some(Json::String(x)) => x,
        _ => panic!("no string member {}", key),
    }
}

fn install(body: Json) -> WebDriverResult<AddonInstallRequest> {
    AddonInstallRequest::from_json(&body)
}

fn message(command: WebDriverCommand) -> WebDriverMessage {
    WebDriverMessage { session_id: None, command }
}

fn reply(id: u64, result: Json) -> Json {
    Json::Array(vec![n(1), n(id), Json::Null, result])
}

#[test]
fn test_json_addon_install_parameters_empty() {
    assert!(install(obj(vec![])).is_err());
}

#[test]
fn test_json_addon_install_parameters_with_path() {
    match install(obj(vec![("path", s("/path/to.xpi")), ("temporary", Json::Bool(true))])).unwrap() {
        AddonInstallRequest::Path(AddonInstallParameters { path, temporary }) => {
            assert_eq!(path, "/path/to.xpi");
            assert!(temporary);
        },
        _ => panic!("expected a path"),
    }
}

#[test]
fn test_json_addon_install_parameters_with_path_invalid_type() {
    assert!(install(obj(vec![("path", Json::Bool(true)), ("temporary", Json::Bool(true))])).is_err());
}

#[test]
fn test_json_addon_install_parameters_with_path_and_temporary_invalid_type() {
    assert!(install(obj(vec![("path", s("/path/to.xpi")), ("temporary", s("foo"))])).is_err());
}

#[test]
fn test_json_addon_install_parameters_with_path_only() {
    assert!(install(obj(vec![("path", s("/path/to.xpi"))])).is_err());
}

#[test]
fn test_json_addon_install_parameters_with_addon() {
    match install(obj(vec![("addon", s("aGVsbG8=")), ("temporary", Json::Bool(true))])).unwrap() {
        AddonInstallRequest::Data { bytes, temporary } => {
            assert_eq!(temporary, true);
            assert_eq!(String::from_utf8(bytes).unwrap(), "hello");
        },
        _ => panic!("expected inline add-on data"),
    }
}

#[test]
fn test_json_addon_install_parameters_with_addon_invalid_type() {
    assert!(install(obj(vec![("addon", Json::Bool(true)), ("temporary", Json::Bool(true))])).is_err());
}

#[test]
fn test_json_addon_install_parameters_with_addon_and_temporary_invalid_type() {
    assert!(install(obj(vec![("addon", s("aGVsbG8=")), ("temporary", s("foo"))])).is_err());
}

#[test]
fn test_json_addon_install_parameters_with_addon_only() {
    assert!(install(obj(vec![("addon", s("aGVsbG8="))])).is_err());
}

#[test]
fn test_json_install_parameters_with_temporary_only() {
    assert!(install(obj(vec![("temporary", Json::Bool(true))])).is_err());
}

#[test]
fn test_json_addon_install_parameters_with_both_path_and_addon() {
    let body = obj(vec![("path", s("/path/to.xpi")), ("addon", s("aGVsbG8=")), ("temporary", Json::Bool(true))]);
    let e = install(body).err().unwrap();
    assert_eq!(e.status, ErrorStatus::InvalidArgument);
}

#[test]
fn addon_that_is_not_base64_is_refused() {
    assert!(install(obj(vec![("addon", s("not base64!")), ("temporary", Json::Bool(false))])).is_err());
}

#[test]
fn test_json_addon_uninstall_parameters_empty() {
    assert!(AddonUninstallParameters::from_json(&obj(vec![])).is_err());
}

#[test]
fn test_json_addon_uninstall_parameters() {
    let p = AddonUninstallParameters::from_json(&obj(vec![("id", s("foo"))])).unwrap();
    assert_eq!(p.id, "foo");
}

#[test]
fn test_json_addon_uninstall_parameters_id_invalid_type() {
    assert!(AddonUninstallParameters::from_json(&obj(vec![("id", Json::Bool(true))])).is_err());
}

#[test]
fn test_json_gecko_context_parameters_content() {
    let p = GeckoContextParameters::from_json(&obj(vec![("context", s("content"))])).unwrap();
    assert_eq!(p.context, GeckoContext::Content);
}

#[test]
fn test_json_gecko_context_parameters_chrome() {
    let p = GeckoContextParameters::from_json(&obj(vec![("context", s("chrome"))])).unwrap();
    assert_eq!(p.context, GeckoContext::Chrome);
}

#[test]
fn test_json_gecko_context_parameters_context_missing() {
    assert!(GeckoContextParameters::from_json(&obj(vec![])).is_err());
}

#[test]
fn test_json_gecko_context_parameters_context_null() {
    assert!(GeckoContextParameters::from_json(&obj(vec![("context", Json::Null)])).is_err());
}

#[test]
fn test_json_gecko_context_parameters_context_invalid_value() {
    assert!(GeckoContextParameters::from_json(&obj(vec![("context", s("foo"))])).is_err());
}

#[test]
fn test_json_xbl_anonymous_by_attribute() {
    let p = XblLocatorParameters::from_json(&obj(vec![("name", s("foo")), ("value", s("bar"))])).unwrap();
    assert_eq!(p.name, "foo");
    assert_eq!(p.value, "bar");
}

#[test]
fn test_json_xbl_anonymous_by_attribute_with_name_missing() {
    assert!(XblLocatorParameters::from_json(&obj(vec![("value", s("bar"))])).is_err());
}

#[test]
fn test_json_xbl_anonymous_by_attribute_with_name_invalid_type() {
    assert!(XblLocatorParameters::from_json(&obj(vec![("name", Json::Null), ("value", s("bar"))])).is_err());
}

#[test]
fn test_json_xbl_anonymous_by_attribute_with_value_missing() {
    assert!(XblLocatorParameters::from_json(&obj(vec![("name", s("foo"))])).is_err());
}

#[test]
fn test_json_xbl_anonymous_by_attribute_with_value_invalid_type() {
    assert!(XblLocatorParameters::from_json(&obj(vec![("name", s("foo")), ("value", Json::Null)])).is_err());
}

#[test]
fn extension_routes_are_listed_in_order() {
    let routes = extension_routes();
    assert_eq!(routes.len(), 6);
    assert_eq!(routes[0].0, HttpMethod::Get);
    assert_eq!(routes[0].1, "/session/{sessionId}/moz/context");
    assert_eq!(routes[4].2, GeckoExtensionRoute::InstallAddon);
    let cmd = GeckoExtensionRoute::XblAnonymousChildren.command(None, &Json::Null);
    assert_eq!(cmd.err().unwrap().status, ErrorStatus::InvalidArgument);
}

#[test]
fn frame_round_trip_reproduces_the_command() {
    let params = members(vec![("url", s("http://example.org/"))]);
    let command = MarionetteCommand::new(7, "WebDriver:Navigate".to_string(), params);
    let back = MarionetteCommand::from_json(command.to_json()).unwrap();
    assert_eq!(back.id, 7);
    assert_eq!(back.name, "WebDriver:Navigate");
    assert_eq!(back.params.len(), 1);
    assert_eq!(back.params[0].0, "url");

    let payload = br#"[0,7,"WebDriver:Navigate",{"url":"http://example.org/"}]"#.to_vec();
    let mut framed = encode_frame(&payload);
    assert!(framed.starts_with(b"56:"));
    framed.extend_from_slice(b"9:[1,2,3]");
    let (decoded, used) = decode_frame(&framed).unwrap();
    assert_eq!(decoded, payload);
    assert_eq!(used, 59);
    assert!(decode_frame(b"5:hel").is_none());
    assert_eq!(decode_frame(b"5:hello").unwrap().0, b"hello".to_vec());
}

#[test]
fn header_bytes_accumulate_the_length() {
    assert_eq!(header_step(0, b'1'), HeaderStep::More(1));
    assert_eq!(header_step(1, b'2'), HeaderStep::More(12));
    assert_eq!(header_step(12, b' '), HeaderStep::More(12));
    assert_eq!(header_step(12, b':'), HeaderStep::Done(12));
    assert_eq!(header_step(usize::MAX / 2, b'9'), HeaderStep::TooLong);
}

#[test]
fn response_with_another_id_is_out_of_sequence() {
    let mut session = MarionetteSession::new(Some("abc".to_string()));
    session.next_command_id();
    session.next_command_id();
    let resp = MarionetteResponse::from_json(reply(1, obj(vec![("value", s("x"))]))).unwrap();
    let e = session.response(&message(WebDriverCommand::GetTitle), resp).err().unwrap();
    assert_eq!(e.status, ErrorStatus::UnknownError);
    assert_eq!(session.session_id, "abc");
    assert_eq!(session.command_id(), 2);

    let resp = MarionetteResponse::from_json(reply(2, obj(vec![("value", s("Title"))]))).unwrap();
    match session.response(&message(WebDriverCommand::GetTitle), resp).unwrap() {
        WebDriverResponse::Generic(Json::String(t)) => assert_eq!(t, "Title"),
        _ => panic!("expected the title"),
    }
}

#[test]
fn remote_error_becomes_its_status() {
    let mut session = MarionetteSession::new(None);
    session.next_command_id();
    let resp = MarionetteResponse {
        id: 1,
        error: Some(MarionetteError {
            code: "no such element".to_string(),
            message: "gone".to_string(),
            stacktrace: Some("here".to_string()),
        }),
        result: Json::Null,
    };
    let e = session.response(&message(WebDriverCommand::GetTitle), resp).err().unwrap();
    assert_eq!(e.status, ErrorStatus::NoSuchElement);
    assert_eq!(e.message, "gone");
    assert_eq!(e.stack, Some("here".to_string()));
    assert_eq!(status_from_code("no such thing"), ErrorStatus::UnknownError);
}

#[test]
fn malformed_replies_are_refused() {
    assert!(MarionetteResponse::from_json(Json::Array(vec![n(0), n(1), Json::Null, Json::Null])).is_err());
    assert!(MarionetteResponse::from_json(Json::Array(vec![n(1), n(1), Json::Null])).is_err());
    assert!(MarionetteResponse::from_json(obj(vec![])).is_err());
}

#[test]
fn current_element_key_takes_precedence() {
    let data = obj(vec![(LEGACY_ELEMENT_KEY, s("legacy")), (ELEMENT_KEY, s("current"))]);
    assert_eq!(to_web_element(&data).unwrap().id, "current");
    let data = obj(vec![(WINDOW_KEY, s("window")), (LEGACY_ELEMENT_KEY, s("legacy"))]);
    assert_eq!(to_web_element(&data).unwrap().id, "legacy");
    let data = obj(vec![(WINDOW_KEY, s("window"))]);
    assert_eq!(to_web_element(&data).unwrap().id, "window");
    assert!(to_web_element(&obj(vec![("other", s("x"))])).is_err());
    assert!(to_web_element(&obj(vec![(ELEMENT_KEY, n(3))])).is_err());
}

#[test]
fn find_elements_reply_collapses_references() {
    let mut session = MarionetteSession::new(None);
    session.next_command_id();
    let result = Json::Array(vec![obj(vec![(ELEMENT_KEY, s("a"))]), obj(vec![(LEGACY_ELEMENT_KEY, s("b"))])]);
    let resp = MarionetteResponse::from_json(reply(1, result)).unwrap();
    let locator = LocatorParameters { using: LocatorStrategy::CSSSelector, value: "p".to_string() };
    match session.response(&message(WebDriverCommand::FindElements(locator)), resp).unwrap() {
        WebDriverResponse::Generic(Json::Array(items)) => {
            assert_eq!(items.len(), 2);
            assert_eq!(string_at(&items[1], ELEMENT_KEY), "b");
        },
        _ => panic!("expected a list"),
    }
}

#[test]
fn timeouts_reply_accepts_the_older_page_load_name() {
    let mut session = MarionetteSession::new(None);
    session.next_command_id();
    let result = obj(vec![("script", n(30000)), ("page load", n(300000)), ("implicit", n(0))]);
    let resp = MarionetteResponse::from_json(reply(1, result)).unwrap();
    match session.response(&message(WebDriverCommand::GetTimeouts), resp).unwrap() {
        WebDriverResponse::Timeouts(t) => {
            assert_eq!(t.script, 30000);
            assert_eq!(t.page_load, 300000);
            assert_eq!(t.implicit, 0);
        },
        _ => panic!("expected timeouts"),
    }
}

#[test]
fn named_cookie_missing_is_no_such_cookie() {
    let mut session = MarionetteSession::new(None);
    session.next_command_id();
    let cookies = Json::Array(vec![obj(vec![("name", s("a")), ("value", s("1"))])]);
    let resp = MarionetteResponse::from_json(reply(1, cookies)).unwrap();
    let e = session.response(&message(WebDriverCommand::GetNamedCookie("b".to_string())), resp).err().unwrap();
    assert_eq!(e.status, ErrorStatus::NoSuchCookie);
}

#[test]
fn commands_translate_to_wire_names_and_params() {
    let msg = message(WebDriverCommand::Get(GetParameters { url: "http://a/".to_string() }));
    let c = MarionetteCommand::from_webdriver_message(4, None, &msg).unwrap();
    assert_eq!(c.id, 4);
    assert_eq!(c.name, "WebDriver:Navigate");
    assert_eq!(c.params[0].0, "url");

    let element = WebElement::new("e1".to_string());
    let msg = message(WebDriverCommand::ElementSendKeys(element, SendKeysParameters { text: "ab".to_string() }));
    let c = MarionetteCommand::from_webdriver_message(5, None, &msg).unwrap();
    assert_eq!(c.name, "WebDriver:ElementSendKeys");
    match &c.params[2].1 {
        Json::Array(keys) => {
            assert_eq!(keys.len(), 2);
            assert!(matches!(&keys[0], Json::String(k) if k == "a"));
            assert!(matches!(&keys[1], Json::String(k) if k == "b"));
        },
        _ => panic!("expected the keys"),
    }

    let c = MarionetteCommand::from_webdriver_message(6, None, &message(WebDriverCommand::TakeScreenshot)).unwrap();
    assert_eq!(c.name, "WebDriver:TakeScreenshot");
    assert!(matches!(&c.params[2].1, Json::Bool(false)));

    let c = MarionetteCommand::from_webdriver_message(7, None, &message(WebDriverCommand::AcceptAlert)).unwrap();
    assert_eq!(c.name, "WebDriver:AcceptDialog");
    assert!(c.params.is_empty());

    let ext = GeckoExtensionCommand::SetContext(GeckoContextParameters { context: GeckoContext::Chrome });
    let c = MarionetteCommand::from_webdriver_message(8, None, &message(WebDriverCommand::Extension(ext))).unwrap();
    assert_eq!(c.name, "Marionette:SetContext");
    assert!(matches!(&c.params[0].1, Json::String(x) if x == "chrome"));
}

#[test]
fn handshake_requires_protocol_three() {
    let ok = obj(vec![("marionetteProtocol", n(3)), ("applicationType", s("gecko"))]);
    let h = parse_handshake(&ok).unwrap();
    assert_eq!(h.protocol, 3);
    assert_eq!(h.application_type, "gecko");
    let old = obj(vec![("marionetteProtocol", n(2)), ("applicationType", s("gecko"))]);
    assert_eq!(parse_handshake(&old).err().unwrap().status, ErrorStatus::UnknownError);
}

#[test]
fn connect_loop_decisions() {
    assert_eq!(after_failed_attempt(0), RetryDecision::Sleep(100));
    assert_eq!(after_failed_attempt(59999), RetryDecision::Sleep(100));
    assert_eq!(after_failed_attempt(60000), RetryDecision::GiveUp);
    assert!(check_process(&None).is_ok());
    assert!(check_process(&Some(ProcessState::Running)).is_ok());
    let e = check_process(&Some(ProcessState::Exited(Some(1)))).err().unwrap();
    assert_eq!(e.message, "Process unexpectedly closed with status 1");
    assert!(e.delete_session);
    let e = check_process(&Some(ProcessState::Exited(None))).err().unwrap();
    assert_eq!(e.message, "Process unexpectedly closed with status signal");
    assert!(check_process(&Some(ProcessState::Unknown)).is_err());
}

#[test]
fn preferences_put_caller_values_after_defaults_and_port_last() {
    let defaults = vec![
        ("a".to_string(), PrefValue::Bool(true)),
        ("b".to_string(), PrefValue::Int(1)),
    ];
    let existing = vec!["b".to_string()];
    let extra = vec![("c".to_string(), PrefValue::Str("x".to_string()))];
    let handler = MarionetteHandler::new(MarionetteSettings::default());
    let plan = handler.set_prefs(2828, &existing, true, extra, &defaults, "Info".to_string());
    let keys: Vec<&str> = plan.iter().map(|(k, _)| k.as_str()).collect();
    assert_eq!(keys, vec!["a", "c", "marionette.log.level", "marionette.port"]);
    assert!(matches!(plan[3].1, PrefValue::Int(2828)));
    let settings = MarionetteSettings { port: None, binary: None, connect_existing: false, jsdebugger: true };
    let debugging = MarionetteHandler::new(settings);
    let plan = debugging.set_prefs(1, &existing, false, vec![], &defaults, "Info".to_string());
    assert_eq!(plan.len(), 2 + 5 + 2);
}

/// A browser that accepts or refuses every session.
struct Fixed {
    name: &'static str,
}

impl BrowserCapabilities for Fixed {
    fn init(&mut self, _: &Capabilities) {}
    fn browser_name(&mut self, _: &Capabilities) -> WebDriverResult<Option<String>> {
        Ok(Some(self.name.to_string()))
    }
    fn browser_version(&mut self, _: &Capabilities) -> WebDriverResult<Option<String>> {
        Ok(None)
    }
    fn compare_browser_version(&mut self, _: &str, _: &str) -> WebDriverResult<bool> {
        Ok(false)
    }
    fn platform_name(&mut self, _: &Capabilities) -> WebDriverResult<Option<String>> {
        Ok(None)
    }
    fn accept_insecure_certs(&mut self, _: &Capabilities) -> WebDriverResult<bool> {
        Ok(false)
    }
    fn set_window_rect(&mut self, _: &Capabilities) -> WebDriverResult<bool> {
        Ok(false)
    }
    fn accept_proxy(&mut self, _: &Capabilities, _: &Capabilities) -> WebDriverResult<bool> {
        Ok(false)
    }
    fn validate_custom(&self, _: &str, _: &Json) -> WebDriverResult<()> {
        Ok(())
    }
    fn accept_custom(&mut self, _: &str, _: &Json, _: &Capabilities) -> WebDriverResult<bool> {
        Ok(false)
    }
}

fn firefox_request() -> NewSessionParameters {
    NewSessionParameters::Spec(SpecNewSessionParameters {
        alwaysMatch: members(vec![("browserName", s("firefox"))]),
        firstMatch: vec![members(vec![])],
    })
}

#[test]
fn session_lifecycle_from_status_to_a_fresh_session() {
    let settings = MarionetteSettings { port: None, binary: Some("/usr/bin/firefox".to_string()), connect_existing: false, jsdebugger: false };
    let mut handler = MarionetteHandler::new(settings);

    match handler.dispatch(&message(WebDriverCommand::Status)).unwrap() {
        Dispatch::Respond(WebDriverResponse::Generic(v)) => {
            assert!(matches!(get(&v, "ready"), Some(Json::Bool(true))));
            assert_eq!(string_at(&v, "message"), "");
        },
        _ => panic!("expected an immediate answer"),
    }
    assert_eq!(handler.dispatch(&message(WebDriverCommand::GetTitle)).err().unwrap().status, ErrorStatus::InvalidSessionId);

    let request = firefox_request();
    assert!(matches!(handler.dispatch(&message(WebDriverCommand::NewSession(firefox_request()))).unwrap(), Dispatch::CreateSession));
    let refused = MarionetteHandler::negotiate(&request, &mut Fixed { name: "chrome" });
    assert_eq!(refused.err().unwrap().status, ErrorStatus::SessionNotCreated);
    assert!(!handler.browser);

    let caps = MarionetteHandler::negotiate(&request, &mut Fixed { name: "firefox" }).unwrap();
    let plan = handler.launch_plan(4444, vec!["-headless".to_string()]).unwrap();
    assert_eq!(plan.port, 4444);
    assert!(plan.start_browser);
    assert_eq!(plan.args, vec!["-marionette".to_string(), "-headless".to_string()]);
    assert_eq!(plan.env.len(), 3);

    let mut connection = MarionetteConnection::new(plan.port, None);
    let bad = obj(vec![("marionetteProtocol", n(2)), ("applicationType", s("gecko"))]);
    assert!(connection.handshake(&bad).err().unwrap().delete_session);
    assert!(!connection.connected);
    let good = obj(vec![("marionetteProtocol", n(3)), ("applicationType", s("gecko"))]);
    connection.handshake(&good).unwrap();
    assert!(connection.connected);
    assert_eq!(connection.session.application_type, Some("gecko".to_string()));

    let new_session = message(WebDriverCommand::NewSession(firefox_request()));
    let command = connection.begin_command(Some(caps), &new_session).unwrap();
    assert_eq!(command.id, 1);
    assert_eq!(command.name, "WebDriver:NewSession");
    let result = obj(vec![("sessionId", s("s-1")), ("capabilities", obj(vec![("browserName", s("firefox"))]))]);
    match connection.finish_command(&new_session, Reply::Value(reply(1, result))).unwrap() {
        WebDriverResponse::NewSession(r) => {
            assert_eq!(r.session_id, "s-1");
            assert_eq!(string_at(&r.capabilities, "moz:geckodriverVersion"), "0.21.0");
        },
        _ => panic!("expected a new session"),
    }
    assert_eq!(connection.session.session_id, "s-1");
    handler.session_started(connection, true);

    match handler.dispatch(&message(WebDriverCommand::Status)).unwrap() {
        Dispatch::Respond(WebDriverResponse::Generic(v)) => {
            assert!(matches!(get(&v, "ready"), Some(Json::Bool(false))));
            assert_eq!(string_at(&v, "message"), "Session already started");
        },
        _ => panic!("expected an immediate answer"),
    }
    assert!(matches!(handler.dispatch(&message(WebDriverCommand::GetTitle)).unwrap(), Dispatch::Forward));

    let quit = MarionetteHandler::quit_message("s-1".to_string());
    let conn = handler.connection.as_mut().unwrap();
    let command = conn.begin_command(None, &quit).unwrap();
    assert_eq!(command.name, "Marionette:Quit");
    handler.session_ended();
    assert!(handler.connection.is_none());
    assert!(!handler.browser);
    assert!(matches!(handler.dispatch(&message(WebDriverCommand::NewSession(firefox_request()))).unwrap(), Dispatch::CreateSession));
}

#[test]
fn read_failure_is_fatal_for_the_session() {
    let mut connection = MarionetteConnection::new(1, None);
    let msg = message(WebDriverCommand::GetTitle);
    let e = connection.begin_command(None, &msg).err().unwrap();
    assert!(e.delete_session);
    let e = connection.finish_command(&msg, Reply::ReadFailed).err().unwrap();
    assert!(e.delete_session);
    assert_eq!(e.status, ErrorStatus::UnknownError);
    let e = connection.finish_command(&msg, Reply::Malformed).err().unwrap();
    assert!(!e.delete_session);
}
