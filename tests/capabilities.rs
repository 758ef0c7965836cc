use geckodriver::capabilities::{
    validate_proxy, validate_timeouts, BrowserCapabilities, Capabilities, LegacyNewSessionParameters,
    NewSessionParameters, SpecNewSessionParameters,
};
use geckodriver::error::{ErrorStatus, WebDriverResult};
use geckodriver::json::{Json, Number};

fn s(x: &str) -> Json {
    Json::String(x.to_string())
}

fn caps(members: Vec<(&str, Json)>) -> Capabilities {
    members.into_iter().map(|(k, v)| (k.to_string(), v)).collect()
}

fn obj(members: Vec<(&str, Json)>) -> Json {
    Json::Object(caps(members))
}

fn get<'a>(c: &'a Capabilities, key: &str) -> Option<&'a Json> {
    c.iter().find(|(k, _)| k == key).map(|(_, v)| v)
}

fn check_proxy(value: Json) -> WebDriverResult<()> {
    validate_proxy(&value)
}

/// A browser that reports fixed answers and counts how often it is asked.
struct Browser {
    name: Option<String>,
    inits: usize,
    custom_checks: std::cell::Cell<usize>,
}

impl Browser {
    fn new(name: &str) -> Browser {
        Browser { name: Some(name.to_string()), inits: 0, custom_checks: std::cell::Cell::new(0) }
    }
}

impl BrowserCapabilities for Browser {
    fn init(&mut self, _: &Capabilities) {
        self.inits += 1;
    }
    fn browser_name(&mut self, _: &Capabilities) -> WebDriverResult<Option<String>> {
        Ok(self.name.clone())
    }
    fn browser_version(&mut self, _: &Capabilities) -> WebDriverResult<Option<String>> {
        Ok(Some("60.0".to_string()))
    }
    fn compare_browser_version(&mut self, version: &str, comparison: &str) -> WebDriverResult<bool> {
        Ok(version == comparison)
    }
    fn platform_name(&mut self, _: &Capabilities) -> WebDriverResult<Option<String>> {
        Ok(Some("linux".to_string()))
    }
    fn accept_insecure_certs(&mut self, _: &Capabilities) -> WebDriverResult<bool> {
        Ok(true)
    }
    fn set_window_rect(&mut self, _: &Capabilities) -> WebDriverResult<bool> {
        Ok(false)
    }
    fn accept_proxy(&mut self, _: &Capabilities, _: &Capabilities) -> WebDriverResult<bool> {
        Ok(true)
    }
    fn validate_custom(&self, _: &str, _: &Json) -> WebDriverResult<()> {
        self.custom_checks.set(self.custom_checks.get() + 1);
        Ok(())
    }
    fn accept_custom(&mut self, _: &str, _: &Json, _: &Capabilities) -> WebDriverResult<bool> {
        Ok(true)
    }
}

#[test]
#[allow(non_snake_case)]
fn test_json_spec_new_session_parameters_alwaysMatch_only() {
    let p = SpecNewSessionParameters::from_json(&obj(vec![("alwaysMatch", obj(vec![]))])).unwrap();
    assert!(p.alwaysMatch.is_empty());
    assert_eq!(p.firstMatch.len(), 1);
    assert!(p.firstMatch[0].is_empty());
}

#[test]
#[allow(non_snake_case)]
fn test_json_spec_new_session_parameters_firstMatch_only() {
    let p = SpecNewSessionParameters::from_json(&obj(vec![("firstMatch", Json::Array(vec![obj(vec![])]))])).unwrap();
    assert!(p.alwaysMatch.is_empty());
    assert_eq!(p.firstMatch.len(), 1);
    assert!(p.firstMatch[0].is_empty());
}

#[test]
#[allow(non_snake_case)]
fn test_json_spec_new_session_parameters_alwaysMatch_null() {
    let body = obj(vec![("alwaysMatch", Json::Null), ("firstMatch", Json::Array(vec![obj(vec![])]))]);
    assert!(SpecNewSessionParameters::from_json(&body).is_err());
}

#[test]
#[allow(non_snake_case)]
fn test_json_spec_new_session_parameters_firstMatch_null() {
    let body = obj(vec![("alwaysMatch", obj(vec![])), ("firstMatch", Json::Null)]);
    assert!(SpecNewSessionParameters::from_json(&body).is_err());
}

#[test]
fn test_json_spec_new_session_parameters_both_empty() {
    let body = obj(vec![("alwaysMatch", obj(vec![])), ("firstMatch", Json::Array(vec![obj(vec![])]))]);
    let p = SpecNewSessionParameters::from_json(&body).unwrap();
    assert!(p.alwaysMatch.is_empty());
    assert_eq!(p.firstMatch.len(), 1);
    assert!(p.firstMatch[0].is_empty());
}

#[test]
fn test_json_spec_new_session_parameters_both_with_capability() {
    let body = obj(vec![
        ("alwaysMatch", obj(vec![("foo", s("bar"))])),
        ("firstMatch", Json::Array(vec![obj(vec![("foo2", s("bar2"))])])),
    ]);
    let p = SpecNewSessionParameters::from_json(&body).unwrap();
    assert_eq!(p.alwaysMatch.len(), 1);
    assert!(matches!(get(&p.alwaysMatch, "foo"), Some(Json::String(x)) if x == "bar"));
    assert_eq!(p.firstMatch.len(), 1);
    assert!(matches!(get(&p.firstMatch[0], "foo2"), Some(Json::String(x)) if x == "bar2"));
}

#[test]
fn test_json_spec_legacy_new_session_parameters_desired_only() {
    let p = LegacyNewSessionParameters::from_json(&obj(vec![("desired", obj(vec![]))])).unwrap();
    assert!(p.desired.is_empty());
    assert!(p.required.is_empty());
}

#[test]
fn test_json_spec_legacy_new_session_parameters_required_only() {
    let p = LegacyNewSessionParameters::from_json(&obj(vec![("required", obj(vec![]))])).unwrap();
    assert!(p.desired.is_empty());
    assert!(p.required.is_empty());
}

#[test]
fn test_json_spec_legacy_new_session_parameters_desired_null() {
    let body = obj(vec![("desired", Json::Null), ("required", obj(vec![]))]);
    assert!(LegacyNewSessionParameters::from_json(&body).is_err());
}

#[test]
fn test_json_spec_legacy_new_session_parameters_required_null() {
    let body = obj(vec![("desired", obj(vec![])), ("required", Json::Null)]);
    assert!(LegacyNewSessionParameters::from_json(&body).is_err());
}

#[test]
fn test_json_spec_legacy_new_session_parameters_both_empty() {
    let body = obj(vec![("desired", obj(vec![])), ("required", obj(vec![]))]);
    let p = LegacyNewSessionParameters::from_json(&body).unwrap();
    assert!(p.desired.is_empty());
    assert!(p.required.is_empty());
}

#[test]
fn test_json_spec_legacy_new_session_parameters_both_with_capabilities() {
    let body = obj(vec![("desired", obj(vec![("foo", s("bar"))])), ("required", obj(vec![("foo2", s("bar2"))]))]);
    let p = LegacyNewSessionParameters::from_json(&body).unwrap();
    assert!(matches!(get(&p.desired, "foo"), Some(Json::String(x)) if x == "bar"));
    assert!(matches!(get(&p.required, "foo2"), Some(Json::String(x)) if x == "bar2"));
}

#[test]
fn test_validate_proxy() {
    // proxy hosts
    check_proxy(obj(vec![("httpProxy", s("127.0.0.1"))])).unwrap();
    check_proxy(obj(vec![("httpProxy", s("127.0.0.1:"))])).unwrap();
    check_proxy(obj(vec![("httpProxy", s("127.0.0.1:3128"))])).unwrap();
    check_proxy(obj(vec![("httpProxy", s("localhost"))])).unwrap();
    check_proxy(obj(vec![("httpProxy", s("localhost:3128"))])).unwrap();
    check_proxy(obj(vec![("httpProxy", s("[2001:db8::1]"))])).unwrap();
    check_proxy(obj(vec![("httpProxy", s("[2001:db8::1]:3128"))])).unwrap();
    check_proxy(obj(vec![("httpProxy", s("example.org"))])).unwrap();
    check_proxy(obj(vec![("httpProxy", s("example.org:3128"))])).unwrap();

    assert!(check_proxy(obj(vec![("httpProxy", s("http://example.org"))])).is_err());
    assert!(check_proxy(obj(vec![("httpProxy", s("example.org:-1"))])).is_err());
    assert!(check_proxy(obj(vec![("httpProxy", s("2001:db8::1"))])).is_err());

    // no proxy for manual proxy type
    check_proxy(obj(vec![("noProxy", Json::Array(vec![s("foo")]))])).unwrap();

    assert!(check_proxy(obj(vec![("noProxy", s("foo"))])).is_err());
    assert!(check_proxy(obj(vec![("noProxy", Json::Array(vec![Json::Number(Number::PosInt(42))]))])).is_err());
}

#[test]
fn proxy_errors_are_invalid_argument() {
    let e = check_proxy(obj(vec![("httpProxy", s("http://example.org"))])).unwrap_err();
    assert_eq!(e.status, ErrorStatus::InvalidArgument);
    let e = check_proxy(obj(vec![("proxyType", s("bogus"))])).unwrap_err();
    assert_eq!(e.status, ErrorStatus::InvalidArgument);
    assert!(check_proxy(obj(vec![("proxyType", s("manual"))])).is_ok());
    assert!(check_proxy(obj(vec![("proxyAutoconfigUrl", s("http://example.org/proxy.pac"))])).is_ok());
    assert!(check_proxy(obj(vec![("proxyAutoconfigUrl", s("not a url"))])).is_err());
    assert!(check_proxy(obj(vec![("socksVersion", Json::Number(Number::PosInt(5)))])).is_ok());
    assert!(check_proxy(obj(vec![("unknownEntry", s("x"))])).is_err());
    assert!(check_proxy(s("not an object")).is_err());
}

fn timeouts(key: &str, n: Number) -> WebDriverResult<()> {
    validate_timeouts(&obj(vec![(key, Json::Number(n))]))
}

#[test]
fn timeouts_reject_negative_fractional_and_unsafe_values() {
    assert!(timeouts("script", Number::NegInt(-1)).is_err());
    assert!(timeouts("script", Number::Float(1.5f64.to_bits())).is_err());
    assert!(timeouts("script", Number::Float((-3.0f64).to_bits())).is_err());
    assert!(timeouts("script", Number::PosInt(9007199254740992)).is_err());
    assert!(timeouts("script", Number::Float(9007199254740992.0f64.to_bits())).is_err());
    assert!(timeouts("script", Number::Float(0.25f64.to_bits())).is_err());
}

#[test]
fn timeouts_accept_whole_safe_values() {
    assert!(timeouts("script", Number::PosInt(0)).is_ok());
    assert!(timeouts("pageLoad", Number::PosInt(300000)).is_ok());
    assert!(timeouts("implicit", Number::PosInt(9007199254740991)).is_ok());
    assert!(timeouts("script", Number::Float(2.0f64.to_bits())).is_ok());
    assert!(timeouts("script", Number::Float(9007199254740991.0f64.to_bits())).is_ok());
    assert!(timeouts("script", Number::Float((-0.0f64).to_bits())).is_ok());
    assert!(timeouts("other", Number::PosInt(1)).is_err());
    assert!(validate_timeouts(&obj(vec![("script", s("1"))])).is_err());
}

#[test]
fn shadowed_key_fails_before_the_browser_is_asked() {
    let params = SpecNewSessionParameters {
        alwaysMatch: caps(vec![("browserName", s("firefox"))]),
        firstMatch: vec![caps(vec![]), caps(vec![("browserName", s("firefox")), ("moz:x", s("y"))])],
    };
    let mut browser = Browser::new("firefox");
    let e = params.match_browser(&mut browser).unwrap_err();
    assert_eq!(e.status, ErrorStatus::InvalidArgument);
    assert_eq!(browser.inits, 0);
    assert_eq!(browser.custom_checks.get(), 0);
}

#[test]
fn first_accepted_alternative_wins_and_later_ones_are_not_tried() {
    let params = SpecNewSessionParameters {
        alwaysMatch: caps(vec![("acceptInsecureCerts", Json::Bool(true))]),
        firstMatch: vec![
            caps(vec![("browserName", s("chrome"))]),
            caps(vec![("browserName", s("firefox")), ("platformName", s("linux"))]),
            caps(vec![("browserName", s("firefox"))]),
        ],
    };
    let mut browser = Browser::new("firefox");
    let chosen = params.match_browser(&mut browser).unwrap().unwrap();
    assert_eq!(browser.inits, 2);
    assert_eq!(chosen.len(), 3);
    assert!(matches!(get(&chosen, "platformName"), Some(Json::String(x)) if x == "linux"));
    assert!(matches!(get(&chosen, "acceptInsecureCerts"), Some(Json::Bool(true))));
}

#[test]
fn no_alternative_accepted_gives_none() {
    let params = SpecNewSessionParameters {
        alwaysMatch: caps(vec![]),
        firstMatch: vec![caps(vec![("browserName", s("chrome"))]), caps(vec![("setWindowRect", Json::Bool(true))])],
    };
    let mut browser = Browser::new("firefox");
    assert!(params.match_browser(&mut browser).unwrap().is_none());
    assert_eq!(browser.inits, 2);
}

#[test]
fn empty_first_match_behaves_as_one_empty_entry() {
    let a = SpecNewSessionParameters { alwaysMatch: caps(vec![("browserName", s("firefox"))]), firstMatch: vec![] };
    let b = SpecNewSessionParameters { alwaysMatch: caps(vec![("browserName", s("firefox"))]), firstMatch: vec![caps(vec![])] };
    let mut x = Browser::new("firefox");
    let mut y = Browser::new("firefox");
    let ra = a.match_browser(&mut x).unwrap().unwrap();
    let rb = b.match_browser(&mut y).unwrap().unwrap();
    assert_eq!(ra.len(), 1);
    assert_eq!(rb.len(), 1);
    assert_eq!(x.inits, y.inits);
}

#[test]
fn null_capabilities_are_dropped_and_unknown_ones_refused() {
    let params = SpecNewSessionParameters {
        alwaysMatch: caps(vec![("browserName", Json::Null), ("pageLoadStrategy", s("eager"))]),
        firstMatch: vec![caps(vec![])],
    };
    let mut browser = Browser::new("firefox");
    let chosen = params.match_browser(&mut browser).unwrap().unwrap();
    assert_eq!(chosen.len(), 1);
    assert!(get(&chosen, "browserName").is_none());

    let bad = SpecNewSessionParameters { alwaysMatch: caps(vec![("madeUp", s("x"))]), firstMatch: vec![] };
    let e = bad.match_browser(&mut browser).unwrap_err();
    assert_eq!(e.status, ErrorStatus::InvalidArgument);

    let bad = SpecNewSessionParameters { alwaysMatch: caps(vec![("pageLoadStrategy", s("slow"))]), firstMatch: vec![] };
    assert!(bad.match_browser(&mut browser).is_err());
}

#[test]
fn legacy_merge_keeps_required_values_first() {
    let params = NewSessionParameters::Legacy(LegacyNewSessionParameters {
        desired: caps(vec![("foo", s("desired")), ("bar", s("b"))]),
        required: caps(vec![("foo", s("required"))]),
    });
    let mut browser = Browser::new("firefox");
    let merged = params.match_browser(&mut browser).unwrap().unwrap();
    assert_eq!(merged.len(), 2);
    assert_eq!(merged[0].0, "foo");
    assert!(matches!(&merged[0].1, Json::String(x) if x == "required"));
    assert_eq!(merged[1].0, "bar");
    assert_eq!(browser.inits, 1);
}

#[test]
fn default_request_matches_the_empty_set_without_questions() {
    let params = SpecNewSessionParameters::default();
    let mut browser = Browser::new("firefox");
    let chosen = params.match_browser(&mut browser).unwrap().unwrap();
    assert!(chosen.is_empty());
    assert_eq!(browser.inits, 1);
}

#[test]
fn invalid_alternative_fails_before_the_browser_is_asked() {
    let params = SpecNewSessionParameters {
        alwaysMatch: caps(vec![]),
        firstMatch: vec![caps(vec![("browserName", s("firefox"))]), caps(vec![("bogus", s("x"))])],
    };
    let mut browser = Browser::new("firefox");
    let e = params.match_browser(&mut browser).unwrap_err();
    assert_eq!(e.status, ErrorStatus::InvalidArgument);
    assert_eq!(browser.inits, 0);
}
