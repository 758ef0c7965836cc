use vstd::prelude::*;
use crate::error::{ErrorStatus, WebDriverError, WebDriverResult};
use crate::json::{keys_unique, lemma_insert_keeps_keys_unique, Json, JsonV, Number, lemma_object_view, lemma_array_view, str_eq, clone_json, members_view, key_pos, insert_member, lemma_key_pos_from, object_insert, object_get};
use crate::text::{contains_seq, contains_char, has_substring, has_char};

verus! {

/// The largest integer that a double represents exactly, together with all below it.
pub const MAX_SAFE_INTEGER: u64 = 9007199254740991;

/// A set of capabilities: named JSON values, in the order they were given.
pub type Capabilities = Vec<(String, Json)>;

/// What a URL parser reports of a URL: user name, password, path, query and fragment.
pub struct UrlParts {
    pub username: String,
    pub password: Option<String>,
    pub path: String,
    pub query: Option<String>,
    pub fragment: Option<String>,
}

pub open spec fn opt_str_view(o: Option<String>) -> Option<Seq<char>> {
    match o {
        Some(s) => Some(s@),
        None => None,
    }
}

impl View for UrlParts {
    type V = (Seq<char>, Option<Seq<char>>, Seq<char>, Option<Seq<char>>, Option<Seq<char>>);

    open spec fn view(&self) -> Self::V {
        (self.username@, opt_str_view(self.password), self.path@, opt_str_view(self.query), opt_str_view(self.fragment))
    }
}

/// The parts of the URL that `s` spells, or `None` where `s` is no URL.
pub uninterp spec fn url_components(s: Seq<char>) -> Option<(Seq<char>, Option<Seq<char>>, Seq<char>, Option<Seq<char>>, Option<Seq<char>>)>;

/// Relies on `url::Url::parse` to decide whether `s` is a URL, and on the
/// parsed URL's `username`, `password`, `path`, `query` and `fragment`.
#[verifier::external_body]
fn parse_url(s: &str) -> (r: Option<UrlParts>)
    ensures
        r is None <==> url_components(s@) is None,
        r matches Some(p) ==> url_components(s@) == Some(p@),
{
    url::Url::parse(s).ok().map(|u| UrlParts {
        username: u.username().to_string(),
        password: u.password().map(|x| x.to_string()),
        path: u.path().to_string(),
        query: u.query().map(|x| x.to_string()),
        fragment: u.fragment().map(|x| x.to_string()),
    })
}

/// Whether parsed URL parts are those of a bare `host[:port]`: no credentials,
/// the root path, no query and no fragment.
pub open spec fn host_port_form(c: Option<(Seq<char>, Option<Seq<char>>, Seq<char>, Option<Seq<char>>, Option<Seq<char>>)>) -> bool {
    match c {
        Some(t) => t.0 == Seq::<char>::empty() && t.1 is None && t.2 == "/"@ && t.3 is None && t.4 is None,
        None => false,
    }
}

/// Decides from what the URL parser reported whether the URL was a bare `host[:port]`.
pub fn is_host_port_form(parts: &Option<UrlParts>) -> (r: bool)
    ensures
        r == host_port_form(match parts { Some(p) => Some(p@), None => None }),
{
    match parts {
        Some(p) => {
            let no_user = p.username.unicode_len() == 0;
            proof {
                if no_user {
                    assert(p.username@ =~= Seq::<char>::empty());
                }
            }
            no_user && p.password.is_none() && str_eq(p.path.as_str(), "/") && p.query.is_none()
                && p.fragment.is_none()
        },
        None => false,
    }
}

pub open spec fn str_is(v: JsonV, lit: Seq<char>) -> bool {
    v matches JsonV::String(s) && s == lit
}

pub open spec fn page_load_strategy_ok(v: JsonV) -> bool {
    str_is(v, "normal"@) || str_is(v, "eager"@) || str_is(v, "none"@)
}

pub open spec fn prompt_behavior_ok(v: JsonV) -> bool {
    str_is(v, "accept"@) || str_is(v, "accept and notify"@) || str_is(v, "dismiss"@)
        || str_is(v, "dismiss and notify"@) || str_is(v, "ignore"@)
}

pub open spec fn no_proxy_ok(v: JsonV) -> bool {
    v matches JsonV::Array(a) && forall|i: int| 0 <= i < a.len() ==> a[i] is String
}

/// A proxy host: a string with no scheme that reads, behind `http://`, as a
/// URL of the form `host[:port]`.
pub open spec fn proxy_host_ok(v: JsonV) -> bool {
    v matches JsonV::String(h) && !contains_seq(h, "://"@) && host_port_form(url_components("http://"@ + h))
}

pub open spec fn proxy_entry_ok(k: Seq<char>, v: JsonV) -> bool {
    if k == "proxyType"@ {
        str_is(v, "pac"@) || str_is(v, "direct"@) || str_is(v, "autodetect"@) || str_is(v, "system"@)
            || str_is(v, "manual"@)
    } else if k == "proxyAutoconfigUrl"@ {
        (v matches JsonV::String(u) && url_components(u) is Some)
    } else if k == "ftpProxy"@ || k == "httpProxy"@ || k == "sslProxy"@ || k == "socksProxy"@ {
        proxy_host_ok(v)
    } else if k == "noProxy"@ {
        no_proxy_ok(v)
    } else if k == "socksVersion"@ {
        v is Number
    } else {
        false
    }
}

pub open spec fn proxy_ok(v: JsonV) -> bool {
    v matches JsonV::Object(o) && forall|i: int| 0 <= i < o.len() ==> #[trigger] proxy_entry_ok(o[i].0, o[i].1)
}

/// Whether the lowest `k` bits of `m` are all zero.
pub open spec fn low_bits_zero(m: nat, k: nat) -> bool
    decreases k,
{
    k == 0 || (m % 2 == 0 && low_bits_zero(m / 2, (k - 1) as nat))
}

/// Whether the double with bit pattern `b` is a whole number, not negative,
/// and at most the largest safe integer.
pub open spec fn float_timeout_ok(b: u64) -> bool {
    let e = (b / 0x10_0000_0000_0000) % 2048;
    let m = b % 0x10_0000_0000_0000;
    if e == 0 && m == 0 {
        true
    } else if b >= 0x8000_0000_0000_0000 {
        false
    } else if e < 1023 || e > 1075 {
        false
    } else {
        low_bits_zero(m as nat, (1075 - e) as nat)
    }
}

/// A timeout duration: a whole, non-negative number no larger than the largest safe integer.
pub open spec fn timeout_number_ok(n: Number) -> bool {
    match n {
        Number::PosInt(u) => u <= MAX_SAFE_INTEGER,
        Number::NegInt(i) => 0 <= i <= MAX_SAFE_INTEGER,
        Number::Float(b) => float_timeout_ok(b),
    }
}

pub open spec fn timeouts_entry_ok(k: Seq<char>, v: JsonV) -> bool {
    &&& (k == "script"@ || k == "pageLoad"@ || k == "implicit"@)
    &&& (v matches JsonV::Number(n) && timeout_number_ok(n))
}

pub open spec fn timeouts_ok(v: JsonV) -> bool {
    v matches JsonV::Object(o) && forall|i: int| 0 <= i < o.len() ==> #[trigger] timeouts_entry_ok(o[i].0, o[i].1)
}

fn invalid_argument(message: &str) -> (r: WebDriverError)
    ensures
        r.status == ErrorStatus::InvalidArgument,
        !r.delete_session,
{
    WebDriverError::new(ErrorStatus::InvalidArgument, message)
}

fn is_one_of(s: &String, options: &[&str]) -> (r: bool)
    ensures
        r == exists|i: int| 0 <= i < options@.len() && s@ == (#[trigger] options@[i])@,
{
    let mut i: usize = 0;
    while i < options.len()
        invariant
            i <= options@.len(),
            forall|j: int| 0 <= j < i ==> s@ != (#[trigger] options@[j])@,
        decreases options@.len() - i,
    {
        if str_eq(s.as_str(), options[i]) {
            return true;
        }
        i += 1;
    }
    false
}

pub fn validate_page_load_strategy(value: &Json) -> (r: WebDriverResult<()>)
    ensures
        r is Ok <==> page_load_strategy_ok(value@),
        r matches Err(e) ==> e.status == ErrorStatus::InvalidArgument,
{
    match value {
        Json::String(x) => {
            if str_eq(x.as_str(), "normal") || str_eq(x.as_str(), "eager") || str_eq(x.as_str(), "none") {
                Ok(())
            } else {
                Err(invalid_argument("Invalid page load strategy"))
            }
        },
        _ => Err(invalid_argument("pageLoadStrategy is not a string")),
    }
}

pub fn validate_unhandled_prompt_behaviour(value: &Json) -> (r: WebDriverResult<()>)
    ensures
        r is Ok <==> prompt_behavior_ok(value@),
        r matches Err(e) ==> e.status == ErrorStatus::InvalidArgument,
{
    match value {
        Json::String(x) => {
            let s = x.as_str();
            if str_eq(s, "accept") || str_eq(s, "accept and notify") || str_eq(s, "dismiss")
                || str_eq(s, "dismiss and notify") || str_eq(s, "ignore") {
                Ok(())
            } else {
                Err(invalid_argument("Invalid unhandledPromptBehavior value"))
            }
        },
        _ => Err(invalid_argument("unhandledPromptBehavior is not a string")),
    }
}

pub fn validate_no_proxy(value: &Json) -> (r: WebDriverResult<()>)
    ensures
        r is Ok <==> no_proxy_ok(value@),
        r matches Err(e) ==> e.status == ErrorStatus::InvalidArgument,
{
    match value {
        Json::Array(hosts) => {
            proof {
                lemma_array_view(*hosts);
            }
            let mut i: usize = 0;
            while i < hosts.len()
                invariant
                    *value == Json::Array(*hosts),
                    i <= hosts@.len(),
                    forall|j: int| 0 <= j < i ==> value@->Array_0[j] is String,
                decreases hosts@.len() - i,
            {
                proof {
                    lemma_array_view(*hosts);
                }
                match &hosts[i] {
                    Json::String(_) => {},
                    _ => {
                        assert(!(value@->Array_0[i as int] is String));
                        return Err(invalid_argument("noProxy item is not a string"));
                    },
                }
                i += 1;
            }
            proof {
                lemma_array_view(*hosts);
            }
            Ok(())
        },
        _ => Err(invalid_argument("noProxy is not an array")),
    }
}

/// Checks that `value` is a string naming a host and possibly a port.
pub fn validate_host(value: &Json) -> (r: WebDriverResult<()>)
    ensures
        r is Ok <==> proxy_host_ok(value@),
        r matches Err(e) ==> e.status == ErrorStatus::InvalidArgument,
{
    match value {
        Json::String(host) => {
            if has_substring(host.as_str(), "://") {
                return Err(invalid_argument("proxy host must not contain a scheme"));
            }
            let url = "http://".to_string().concat(host.as_str());
            let parts = parse_url(url.as_str());
            if is_host_port_form(&parts) {
                Ok(())
            } else {
                Err(invalid_argument("proxy host is not of the form host[:port]"))
            }
        },
        _ => Err(invalid_argument("proxy host is not a string")),
    }
}

fn validate_proxy_entry(key: &String, value: &Json) -> (r: WebDriverResult<()>)
    ensures
        r is Ok <==> proxy_entry_ok(key@, value@),
        r matches Err(e) ==> e.status == ErrorStatus::InvalidArgument,
{
    let k = key.as_str();
    if str_eq(k, "proxyType") {
        match value {
            Json::String(x) => {
                let s = x.as_str();
                if str_eq(s, "pac") || str_eq(s, "direct") || str_eq(s, "autodetect") || str_eq(s, "system")
                    || str_eq(s, "manual") {
                    Ok(())
                } else {
                    Err(invalid_argument("Invalid proxyType value"))
                }
            },
            _ => Err(invalid_argument("proxyType is not a string")),
        }
    } else if str_eq(k, "proxyAutoconfigUrl") {
        match value {
            Json::String(x) => {
                if parse_url(x.as_str()).is_some() {
                    Ok(())
                } else {
                    Err(invalid_argument("proxyAutoconfigUrl is not a valid URL"))
                }
            },
            _ => Err(invalid_argument("proxyAutoconfigUrl is not a string")),
        }
    } else if str_eq(k, "ftpProxy") || str_eq(k, "httpProxy") || str_eq(k, "sslProxy") || str_eq(k, "socksProxy") {
        validate_host(value)
    } else if str_eq(k, "noProxy") {
        validate_no_proxy(value)
    } else if str_eq(k, "socksVersion") {
        match value {
            Json::Number(_) => Ok(()),
            _ => Err(invalid_argument("socksVersion is not a number")),
        }
    } else {
        Err(invalid_argument("Invalid proxy configuration entry"))
    }
}

pub fn validate_proxy(proxy_value: &Json) -> (r: WebDriverResult<()>)
    ensures
        r is Ok <==> proxy_ok(proxy_value@),
        r matches Err(e) ==> e.status == ErrorStatus::InvalidArgument,
{
    match proxy_value {
        Json::Object(obj) => {
            proof {
                lemma_object_view(*obj);
            }
            let mut i: usize = 0;
            while i < obj.len()
                invariant
                    *proxy_value == Json::Object(*obj),
                    i <= obj@.len(),
                    forall|j: int| 0 <= j < i ==> #[trigger] proxy_entry_ok(proxy_value@->Object_0[j].0, proxy_value@->Object_0[j].1),
                decreases obj@.len() - i,
            {
                proof {
                    lemma_object_view(*obj);
                }
                let r = validate_proxy_entry(&obj[i].0, &obj[i].1);
                if r.is_err() {
                    assert(!proxy_entry_ok(proxy_value@->Object_0[i as int].0, proxy_value@->Object_0[i as int].1));
                    return r;
                }
                i += 1;
            }
            proof {
                lemma_object_view(*obj);
            }
            Ok(())
        },
        _ => Err(invalid_argument("proxy is not an object")),
    }
}

/// Whether the double with bit pattern `bits` is a usable timeout.
pub fn float_timeout_valid(bits: u64) -> (r: bool)
    ensures
        r == float_timeout_ok(bits),
{
    let e = (bits / 0x10_0000_0000_0000) % 2048;
    let m = bits % 0x10_0000_0000_0000;
    if e == 0 && m == 0 {
        true
    } else if bits >= 0x8000_0000_0000_0000 {
        false
    } else if e < 1023 || e > 1075 {
        false
    } else {
        let k = 1075 - e;
        let mut i: u64 = 0;
        let mut rest = m;
        while i < k
            invariant
                e == (bits / 0x10_0000_0000_0000) % 2048,
                m == bits % 0x10_0000_0000_0000,
                !(e == 0 && m == 0),
                bits < 0x8000_0000_0000_0000,
                1023 <= e <= 1075,
                k == 1075 - e,
                i <= k,
                low_bits_zero(m as nat, k as nat) == low_bits_zero(rest as nat, (k - i) as nat),
            decreases k - i,
        {
            if rest % 2 != 0 {
                assert(!low_bits_zero(rest as nat, (k - i) as nat));
                return false;
            }
            assert(low_bits_zero(rest as nat, (k - i) as nat) == low_bits_zero((rest / 2) as nat, (k - (i + 1)) as nat));
            rest = rest / 2;
            i += 1;
        }
        true
    }
}

pub fn timeout_number_valid(n: Number) -> (r: bool)
    ensures
        r == timeout_number_ok(n),
{
    match n {
        Number::PosInt(u) => u <= MAX_SAFE_INTEGER,
        Number::NegInt(i) => 0 <= i && i as u64 <= MAX_SAFE_INTEGER,
        Number::Float(b) => float_timeout_valid(b),
    }
}

pub fn validate_timeouts(value: &Json) -> (r: WebDriverResult<()>)
    ensures
        r is Ok <==> timeouts_ok(value@),
        r matches Err(e) ==> e.status == ErrorStatus::InvalidArgument,
{
    match value {
        Json::Object(obj) => {
            proof {
                lemma_object_view(*obj);
            }
            let mut i: usize = 0;
            while i < obj.len()
                invariant
                    *value == Json::Object(*obj),
                    i <= obj@.len(),
                    forall|j: int| 0 <= j < i ==> #[trigger] timeouts_entry_ok(value@->Object_0[j].0, value@->Object_0[j].1),
                decreases obj@.len() - i,
            {
                proof {
                    lemma_object_view(*obj);
                }
                let k = obj[i].0.as_str();
                if !(str_eq(k, "script") || str_eq(k, "pageLoad") || str_eq(k, "implicit")) {
                    assert(!timeouts_entry_ok(value@->Object_0[i as int].0, value@->Object_0[i as int].1));
                    return Err(invalid_argument("Invalid timeouts capability entry"));
                }
                match &obj[i].1 {
                    Json::Number(n) => {
                        if !timeout_number_valid(*n) {
                            assert(!timeouts_entry_ok(value@->Object_0[i as int].0, value@->Object_0[i as int].1));
                            return Err(invalid_argument("timeouts value is not a non-negative safe integer"));
                        }
                    },
                    _ => {
                        assert(!timeouts_entry_ok(value@->Object_0[i as int].0, value@->Object_0[i as int].1));
                        return Err(invalid_argument("timeouts value is not a number"));
                    },
                }
                i += 1;
            }
            proof {
                lemma_object_view(*obj);
            }
            Ok(())
        },
        _ => Err(invalid_argument("timeouts capability is not an object")),
    }
}

/// Inspects the browser that a session would drive.
///
/// The main methods are called with the full set of capabilities that a
/// session could be created with, and report a property of the browser that
/// would be started for it.
pub trait BrowserCapabilities {
    /// Prepares for questions about `capabilities`, for instance by filling caches.
    fn init(&mut self, capabilities: &Capabilities);

    /// Name of the browser.
    fn browser_name(&mut self, capabilities: &Capabilities) -> WebDriverResult<Option<String>>;

    /// Version number of the browser.
    fn browser_version(&mut self, capabilities: &Capabilities) -> WebDriverResult<Option<String>>;

    /// Whether the browser's `version` satisfies the constraint `comparison`,
    /// whose format the implementation defines.
    fn compare_browser_version(&mut self, version: &str, comparison: &str) -> WebDriverResult<bool>;

    /// Name of the platform.
    fn platform_name(&mut self, capabilities: &Capabilities) -> WebDriverResult<Option<String>>;

    /// Whether insecure certificates are supported.
    fn accept_insecure_certs(&mut self, capabilities: &Capabilities) -> WebDriverResult<bool>;

    /// Whether all window resizing and repositioning commands are supported.
    fn set_window_rect(&mut self, capabilities: &Capabilities) -> WebDriverResult<bool>;

    /// Whether the proxy settings can be used.
    fn accept_proxy(&mut self, proxy_settings: &Capabilities, capabilities: &Capabilities) -> WebDriverResult<bool>;

    /// Type-checks an extension capability (one whose name holds a colon);
    /// unknown ones must be let through.
    fn validate_custom(&self, name: &str, value: &Json) -> WebDriverResult<()>;

    /// Whether an extension capability is compatible with the browser.
    fn accept_custom(&mut self, name: &str, value: &Json, merged: &Capabilities) -> WebDriverResult<bool>;
}

/// The members of `o` whose value is not `null`, in order.
pub open spec fn strip_nulls(o: Seq<(Seq<char>, JsonV)>) -> Seq<(Seq<char>, JsonV)>
    decreases o.len(),
{
    if o.len() == 0 {
        o
    } else if o.last().1 is Null {
        strip_nulls(o.drop_last())
    } else {
        strip_nulls(o.drop_last()).push(o.last())
    }
}

/// Whether `k` names one of the standard capabilities.
pub open spec fn is_standard_key(k: Seq<char>) -> bool {
    k == "acceptInsecureCerts"@ || k == "setWindowRect"@ || k == "browserName"@ || k == "browserVersion"@
        || k == "platformName"@ || k == "pageLoadStrategy"@ || k == "proxy"@ || k == "timeouts"@
        || k == "unhandledPromptBehavior"@
}

/// Whether `k` names an extension capability, which the browser itself checks.
pub open spec fn is_extension_key(k: Seq<char>) -> bool {
    !is_standard_key(k) && contains_char(k, ':')
}

/// The type and range rules for a single capability; an extension capability
/// passes here and is checked by the browser.
pub open spec fn capability_entry_ok(k: Seq<char>, v: JsonV) -> bool {
    if k == "acceptInsecureCerts"@ || k == "setWindowRect"@ {
        v is Bool
    } else if k == "browserName"@ || k == "browserVersion"@ || k == "platformName"@ {
        v is String
    } else if k == "pageLoadStrategy"@ {
        page_load_strategy_ok(v)
    } else if k == "proxy"@ {
        proxy_ok(v)
    } else if k == "timeouts"@ {
        timeouts_ok(v)
    } else if k == "unhandledPromptBehavior"@ {
        prompt_behavior_ok(v)
    } else {
        contains_char(k, ':')
    }
}

pub open spec fn all_entries_ok(o: Seq<(Seq<char>, JsonV)>) -> bool {
    forall|i: int| 0 <= i < o.len() ==> #[trigger] capability_entry_ok(o[i].0, o[i].1)
}

pub open spec fn has_extension_key(o: Seq<(Seq<char>, JsonV)>) -> bool {
    exists|i: int| 0 <= i < o.len() && #[trigger] is_extension_key(o[i].0)
}

/// Whether the `i`th member of `o` breaks its capability's rules while every
/// member before it keeps them and none before it is an extension capability.
pub open spec fn first_failure_before_extensions(o: Seq<(Seq<char>, JsonV)>, i: int) -> bool {
    &&& !capability_entry_ok(o[i].0, o[i].1)
    &&& forall|j: int| 0 <= j < i ==> capability_entry_ok(#[trigger] o[j].0, o[j].1) && !is_extension_key(o[j].0)
}

fn strip_null_entries(capabilities: &Capabilities) -> (r: Capabilities)
    ensures
        members_view(r@) == strip_nulls(members_view(capabilities@)),
{
    let mut out: Capabilities = Vec::new();
    let mut i: usize = 0;
    while i < capabilities.len()
        invariant
            i <= capabilities@.len(),
            members_view(out@) == strip_nulls(members_view(capabilities@).subrange(0, i as int)),
        decreases capabilities@.len() - i,
    {
        let ghost o = members_view(capabilities@);
        proof {
            assert(o.subrange(0, i + 1).drop_last() =~= o.subrange(0, i as int));
        }
        match &capabilities[i].1 {
            Json::Null => {},
            v => {
                let ghost before = out@;
                out.push((capabilities[i].0.clone(), clone_json(v)));
                proof {
                    assert(members_view(out@) =~= members_view(before).push(o[i as int]));
                }
            },
        }
        i += 1;
    }
    proof {
        assert(members_view(capabilities@).subrange(0, i as int) =~= members_view(capabilities@));
    }
    out
}

fn validate_entry<T: BrowserCapabilities>(key: &String, value: &Json, browser_capabilities: &T) -> (r: WebDriverResult<()>)
    ensures
        r is Ok ==> capability_entry_ok(key@, value@),
        capability_entry_ok(key@, value@) && !is_extension_key(key@) ==> r is Ok,
        !capability_entry_ok(key@, value@) ==> (r matches Err(e) && e.status == ErrorStatus::InvalidArgument),
{
    let k = key.as_str();
    if str_eq(k, "acceptInsecureCerts") || str_eq(k, "setWindowRect") {
        match value {
            Json::Bool(_) => Ok(()),
            _ => Err(invalid_argument("capability is not boolean")),
        }
    } else if str_eq(k, "browserName") || str_eq(k, "browserVersion") || str_eq(k, "platformName") {
        match value {
            Json::String(_) => Ok(()),
            _ => Err(invalid_argument("capability is not a string")),
        }
    } else if str_eq(k, "pageLoadStrategy") {
        validate_page_load_strategy(value)
    } else if str_eq(k, "proxy") {
        validate_proxy(value)
    } else if str_eq(k, "timeouts") {
        validate_timeouts(value)
    } else if str_eq(k, "unhandledPromptBehavior") {
        validate_unhandled_prompt_behaviour(value)
    } else if !has_char(k, ':') {
        Err(invalid_argument("not the name of a known capability or extension capability"))
    } else {
        browser_capabilities.validate_custom(k, value)
    }
}

/// Drops the `null` members of `capabilities`, then checks each remaining one
/// against the rules of its capability; extension capabilities go to the browser.
pub fn validate<T: BrowserCapabilities>(capabilities: &Capabilities, browser_capabilities: &T) -> (r: WebDriverResult<Capabilities>)
    ensures
        r matches Ok(c) ==> members_view(c@) == strip_nulls(members_view(capabilities@))
            && all_entries_ok(members_view(c@)),
        all_entries_ok(strip_nulls(members_view(capabilities@)))
            && !has_extension_key(strip_nulls(members_view(capabilities@))) ==> r is Ok,
        !has_extension_key(strip_nulls(members_view(capabilities@))) ==> (r matches Err(e) ==> e.status == ErrorStatus::InvalidArgument),
        !all_entries_ok(strip_nulls(members_view(capabilities@))) ==> r is Err,
        forall|i: int| 0 <= i < strip_nulls(members_view(capabilities@)).len()
            && first_failure_before_extensions(strip_nulls(members_view(capabilities@)), i)
            ==> (r matches Err(e) && e.status == ErrorStatus::InvalidArgument),
{
    let stripped = strip_null_entries(capabilities);
    let ghost o = members_view(stripped@);
    let mut i: usize = 0;
    while i < stripped.len()
        invariant
            o == members_view(stripped@),
            o == strip_nulls(members_view(capabilities@)),
            i <= stripped@.len(),
            forall|j: int| 0 <= j < i ==> #[trigger] capability_entry_ok(o[j].0, o[j].1),
        decreases stripped@.len() - i,
    {
        let r = validate_entry(&stripped[i].0, &stripped[i].1, browser_capabilities);
        match r {
            Ok(()) => {},
            Err(e) => {
                proof {
                    assert(o[i as int] == (stripped@[i as int].0@, stripped@[i as int].1@));
                    if is_extension_key(o[i as int].0) {
                        assert(has_extension_key(o));
                    } else {
                        assert(!capability_entry_ok(o[i as int].0, o[i as int].1));
                    }
                    assert forall|f: int| 0 <= f < o.len() && first_failure_before_extensions(o, f)
                        implies e.status == ErrorStatus::InvalidArgument by {
                        if f > i {
                            assert(capability_entry_ok(o[i as int].0, o[i as int].1) && !is_extension_key(o[i as int].0));
                        } else if f < i {
                            assert(capability_entry_ok(o[f].0, o[f].1));
                        }
                    }
                }
                return Err(e);
            },
        }
        i += 1;
    }
    Ok(stripped)
}

/// A deep copy of a set of capabilities.
pub fn clone_capabilities(c: &Capabilities) -> (r: Capabilities)
    ensures
        members_view(r@) == members_view(c@),
{
    let mut out: Capabilities = Vec::new();
    let mut i: usize = 0;
    while i < c.len()
        invariant
            i <= c@.len(),
            members_view(out@) == members_view(c@).subrange(0, i as int),
        decreases c@.len() - i,
    {
        let ghost before = out@;
        out.push((c[i].0.clone(), clone_json(&c[i].1)));
        proof {
            assert(members_view(out@) =~= members_view(before).push(members_view(c@)[i as int]));
            assert(members_view(c@).subrange(0, i + 1) =~= members_view(c@).subrange(0, i as int).push(members_view(c@)[i as int]));
        }
        i += 1;
    }
    assert(members_view(c@).subrange(0, i as int) =~= members_view(c@));
    out
}

/// A new-session request in the current form: capabilities that must always
/// match, and alternatives tried one after another.
#[allow(non_snake_case)]
pub struct SpecNewSessionParameters {
    pub alwaysMatch: Capabilities,
    pub firstMatch: Vec<Capabilities>,
}

/// A new-session request in the legacy form.
pub struct LegacyNewSessionParameters {
    pub desired: Capabilities,
    pub required: Capabilities,
}

/// A new-session request in either form.
pub enum NewSessionParameters {
    Spec(SpecNewSessionParameters),
    Legacy(LegacyNewSessionParameters),
}

impl Default for SpecNewSessionParameters {
    fn default() -> (r: SpecNewSessionParameters)
        ensures
            r.alwaysMatch@.len() == 0,
            r.firstMatch@.len() == 1,
            r.firstMatch@[0]@.len() == 0,
    {
        SpecNewSessionParameters { alwaysMatch: Vec::new(), firstMatch: vec![Vec::new()] }
    }
}

/// `a` with the members of `f`, up to position `n`, set on top in order.
pub open spec fn merge_upto(a: Seq<(Seq<char>, JsonV)>, f: Seq<(Seq<char>, JsonV)>, n: int) -> Seq<(Seq<char>, JsonV)>
    decreases n,
{
    if n <= 0 || n > f.len() {
        a
    } else {
        insert_member(merge_upto(a, f, n - 1), f[n - 1].0, f[n - 1].1)
    }
}

/// `a` with every member of `f` set on top; `f` wins where both have a key.
pub open spec fn merge_caps(a: Seq<(Seq<char>, JsonV)>, f: Seq<(Seq<char>, JsonV)>) -> Seq<(Seq<char>, JsonV)> {
    merge_upto(a, f, f.len() as int)
}

/// Whether some key of `f` is also a key of `a`.
pub open spec fn shadows(a: Seq<(Seq<char>, JsonV)>, f: Seq<(Seq<char>, JsonV)>) -> bool {
    exists|i: int| 0 <= i < f.len() && key_pos(a, #[trigger] f[i].0) >= 0
}

/// The alternatives that are tried: the `firstMatch` list, or a single empty
/// set where that list is empty.
pub open spec fn first_match_list(p: SpecNewSessionParameters) -> Seq<Seq<(Seq<char>, JsonV)>> {
    if p.firstMatch@.len() == 0 {
        seq![Seq::empty()]
    } else {
        Seq::new(p.firstMatch@.len(), |i: int| members_view(p.firstMatch@[i]@))
    }
}

/// Whether an alternative repeats a key of `alwaysMatch`.
pub open spec fn any_shadowing(p: SpecNewSessionParameters) -> bool {
    exists|i: int| 0 <= i < first_match_list(p).len() && shadows(members_view(p.alwaysMatch@), #[trigger] first_match_list(p)[i])
}

/// Each alternative merged with `alwaysMatch`, with its `null` members dropped.
pub open spec fn candidates(p: SpecNewSessionParameters) -> Seq<Seq<(Seq<char>, JsonV)>> {
    Seq::new(first_match_list(p).len(), |i: int| strip_nulls(merge_caps(members_view(p.alwaysMatch@), first_match_list(p)[i])))
}

/// The legacy merge: the members of `o` in order, each kept only where no
/// earlier member of `o`, or of `acc`, had its key.
pub open spec fn add_absent_upto(acc: Seq<(Seq<char>, JsonV)>, o: Seq<(Seq<char>, JsonV)>, n: int) -> Seq<(Seq<char>, JsonV)>
    decreases n,
{
    if n <= 0 || n > o.len() {
        acc
    } else {
        let prev = add_absent_upto(acc, o, n - 1);
        if key_pos(prev, o[n - 1].0) >= 0 {
            prev
        } else {
            prev.push(o[n - 1])
        }
    }
}

/// The legacy merge: the members of `required`, then those of `desired`,
/// each only where its key was not seen before.
pub open spec fn legacy_merge(required: Seq<(Seq<char>, JsonV)>, desired: Seq<(Seq<char>, JsonV)>) -> Seq<(Seq<char>, JsonV)> {
    let first = add_absent_upto(Seq::empty(), required, required.len() as int);
    add_absent_upto(first, desired, desired.len() as int)
}

fn add_absent(capabilities: &mut Capabilities, entries: &Capabilities)
    ensures
        members_view(final(capabilities)@) == add_absent_upto(members_view(old(capabilities)@), members_view(entries@), entries@.len() as int),
{
    let ghost acc = members_view(capabilities@);
    let ghost o = members_view(entries@);
    let mut i: usize = 0;
    while i < entries.len()
        invariant
            acc == members_view(old(capabilities)@),
            o == members_view(entries@),
            i <= entries@.len(),
            members_view(capabilities@) == add_absent_upto(acc, o, i as int),
        decreases entries@.len() - i,
    {
        if !has_key(capabilities, &entries[i].0) {
            let ghost before = capabilities@;
            capabilities.push((entries[i].0.clone(), clone_json(&entries[i].1)));
            proof {
                assert(members_view(capabilities@) =~= members_view(before).push(o[i as int]));
            }
        }
        i += 1;
    }
}

fn has_key(c: &Capabilities, key: &String) -> (r: bool)
    ensures
        r == (key_pos(members_view(c@), key@) >= 0),
{
    proof {
        lemma_key_pos_from(members_view(c@), key@, 0);
    }
    object_get(c, key.as_str()).is_some()
}

fn shadows_exec(always: &Capabilities, first: &Capabilities) -> (r: bool)
    ensures
        r == shadows(members_view(always@), members_view(first@)),
{
    let ghost f = members_view(first@);
    let mut i: usize = 0;
    while i < first.len()
        invariant
            f == members_view(first@),
            i <= first@.len(),
            forall|j: int| 0 <= j < i ==> key_pos(members_view(always@), #[trigger] f[j].0) < 0,
        decreases first@.len() - i,
    {
        if has_key(always, &first[i].0) {
            assert(key_pos(members_view(always@), f[i as int].0) >= 0);
            return true;
        }
        i += 1;
    }
    false
}

fn merge_exec(always: &Capabilities, first: &Capabilities) -> (r: Capabilities)
    ensures
        members_view(r@) == merge_caps(members_view(always@), members_view(first@)),
{
    let ghost a = members_view(always@);
    let ghost f = members_view(first@);
    let mut merged = clone_capabilities(always);
    let mut i: usize = 0;
    while i < first.len()
        invariant
            a == members_view(always@),
            f == members_view(first@),
            i <= first@.len(),
            members_view(merged@) == merge_upto(a, f, i as int),
        decreases first@.len() - i,
    {
        object_insert(&mut merged, first[i].0.clone(), clone_json(&first[i].1));
        i += 1;
    }
    merged
}

/// Whether the browser reports exactly the requested string: the requested
/// value, when it is a string, must equal what the browser reports, and a
/// request that is no string matches only a browser that reports nothing.
pub fn offered_matches(requested: &Json, offered: &WebDriverResult<Option<String>>) -> (r: bool)
    ensures
        r == match offered {
            Ok(Some(s)) => requested@ == JsonV::String(s@),
            _ => !(requested@ is String),
        },
{
    match (requested, offered) {
        (Json::String(x), Ok(Some(s))) => str_eq(x.as_str(), s.as_str()),
        (Json::String(_), _) => false,
        (_, Ok(Some(_))) => false,
        (_, _) => true,
    }
}

/// Whether a boolean capability asks for the feature: only `true` does.
pub fn flag_requested(value: &Json) -> (r: bool)
    ensures
        r == (value@ == JsonV::Bool(true)),
{
    match value {
        Json::Bool(b) => *b,
        _ => false,
    }
}

/// Whether a yes/no answer from the browser is a yes.
pub fn answered_yes(answer: &WebDriverResult<bool>) -> (r: bool)
    ensures
        r == (*answer == Ok::<bool, WebDriverError>(true)),
{
    match answer {
        Ok(b) => *b,
        Err(_) => false,
    }
}

/// What one capability of a candidate was checked against: the browser's
/// answer, and what was handed to it.
pub ghost enum KeyCheck {
    /// No question was needed.
    Unasked,
    /// The name the browser reported (browser or platform name); `None`
    /// where it reported none or failed.
    Reported(Option<Seq<char>>),
    /// The version the browser reported (`None` where it reported none or
    /// failed), the constraint handed to the comparison, and whether the
    /// comparison answered yes.
    Version(Option<Seq<char>>, Seq<char>, bool),
    /// Whether a yes/no question about a flag was answered yes.
    Verdict(bool),
    /// The proxy settings handed over, and whether they were accepted.
    Proxy(Seq<(Seq<char>, JsonV)>, bool),
    /// The extension capability handed over, and whether it was accepted.
    Custom(Seq<char>, JsonV, bool),
}

/// The constraint handed to the version comparison: the requested string,
/// or the empty string.
pub open spec fn version_condition(v: JsonV) -> Seq<char> {
    match v {
        JsonV::String(s) => s,
        _ => Seq::empty(),
    }
}

/// The proxy settings handed to the browser: the requested object, or an empty one.
pub open spec fn proxy_settings(v: JsonV) -> Seq<(Seq<char>, JsonV)> {
    match v {
        JsonV::Object(o) => o,
        _ => Seq::empty(),
    }
}

/// Whether checking capability `k` with value `v` asks the browser anything.
pub open spec fn asks_browser_key(k: Seq<char>, v: JsonV) -> bool {
    if k == "browserName"@ || k == "browserVersion"@ || k == "platformName"@ || k == "proxy"@ {
        true
    } else if k == "acceptInsecureCerts"@ || k == "setWindowRect"@ {
        v == JsonV::Bool(true)
    } else {
        contains_char(k, ':')
    }
}

/// Whether checking some capability of `o` asks the browser anything.
pub open spec fn asks_browser(o: Seq<(Seq<char>, JsonV)>) -> bool {
    exists|i: int| 0 <= i < o.len() && #[trigger] asks_browser_key(o[i].0, o[i].1)
}

/// Whether `c` is a check of the kind that capability `k` with value `v`
/// gets, with the right things handed to the browser.
pub open spec fn key_check_fits(k: Seq<char>, v: JsonV, c: KeyCheck) -> bool {
    if k == "browserName"@ || k == "platformName"@ {
        c is Reported
    } else if k == "browserVersion"@ {
        c matches KeyCheck::Version(o, cond, yes) && cond == version_condition(v) && (o is None ==> !yes)
    } else if k == "acceptInsecureCerts"@ || k == "setWindowRect"@ {
        if v == JsonV::Bool(true) {
            c is Verdict
        } else {
            c == KeyCheck::Unasked
        }
    } else if k == "proxy"@ {
        c matches KeyCheck::Proxy(p, _) && p == proxy_settings(v)
    } else if contains_char(k, ':') {
        c matches KeyCheck::Custom(n, x, _) && n == k && x == v
    } else {
        c == KeyCheck::Unasked
    }
}

/// Whether capability `k` with value `v` passes its check `c`: names must
/// equal what the browser reports (a request that is no string only a
/// browser that reports nothing), the version comparison must answer yes,
/// a flag set to `true` must be supported, and the proxy settings and
/// extension capabilities must be accepted; other capabilities pass.
pub open spec fn key_check_ok(k: Seq<char>, v: JsonV, c: KeyCheck) -> bool {
    &&& key_check_fits(k, v, c)
    &&& match c {
        KeyCheck::Unasked => true,
        KeyCheck::Reported(Some(s)) => v == JsonV::String(s),
        KeyCheck::Reported(None) => !(v is String),
        KeyCheck::Version(_, _, yes) => yes,
        KeyCheck::Verdict(yes) => yes,
        KeyCheck::Proxy(_, yes) => yes,
        KeyCheck::Custom(_, _, yes) => yes,
    }
}

/// Whether the checks `cs` cover each capability of `o` in order and all pass.
pub open spec fn accepted_by(o: Seq<(Seq<char>, JsonV)>, cs: Seq<KeyCheck>) -> bool {
    cs.len() == o.len() && forall|i: int| 0 <= i < cs.len() ==> #[trigger] key_check_ok(o[i].0, o[i].1, cs[i])
}

/// Whether the checks `cs` were made on the first capabilities of `o`, in order.
pub open spec fn checks_fit(o: Seq<(Seq<char>, JsonV)>, cs: Seq<KeyCheck>) -> bool {
    cs.len() <= o.len() && forall|i: int| 0 <= i < cs.len() ==> #[trigger] key_check_fits(o[i].0, o[i].1, cs[i])
}

/// A check that needs no question passes.
proof fn lemma_unasked_passes(k: Seq<char>, v: JsonV, c: KeyCheck)
    requires
        key_check_fits(k, v, c),
        !asks_browser_key(k, v),
    ensures
        key_check_ok(k, v, c),
{
}

/// Initializes the browser for `merged`, then checks its capabilities one
/// after another against the browser's answers, stopping at the first that
/// fails; true where all pass. The checks made are returned alongside.
fn candidate_accepted<T: BrowserCapabilities>(browser_capabilities: &mut T, merged: &Capabilities) -> (out: (bool, Ghost<Seq<KeyCheck>>))
    ensures
        checks_fit(members_view(merged@), out.1@),
        out.0 == accepted_by(members_view(merged@), out.1@),
        !out.0 ==> out.1@.len() >= 1 && !key_check_ok(members_view(merged@)[out.1@.len() - 1].0,
            members_view(merged@)[out.1@.len() - 1].1, out.1@[out.1@.len() - 1]),
        !out.0 ==> forall|i: int| 0 <= i < out.1@.len() - 1 ==> #[trigger] key_check_ok(members_view(merged@)[i].0,
            members_view(merged@)[i].1, out.1@[i]),
        !asks_browser(members_view(merged@)) ==> out.0,
{
    let ghost o = members_view(merged@);
    let ghost mut cs: Seq<KeyCheck> = Seq::empty();
    browser_capabilities.init(merged);
    let mut i: usize = 0;
    while i < merged.len()
        invariant
            o == members_view(merged@),
            i <= merged@.len(),
            cs.len() == i,
            forall|j: int| 0 <= j < i ==> #[trigger] key_check_ok(o[j].0, o[j].1, cs[j]),
        decreases merged@.len() - i,
    {
        let key = merged[i].0.as_str();
        let value = &merged[i].1;
        let ghost k = o[i as int].0;
        let ghost v = o[i as int].1;
        assert(k == key@ && v == value@);
        let ghost mut c: KeyCheck = KeyCheck::Unasked;
        let mut pass = true;
        if str_eq(key, "browserName") || str_eq(key, "platformName") {
            let offered = if str_eq(key, "browserName") {
                browser_capabilities.browser_name(merged)
            } else {
                browser_capabilities.platform_name(merged)
            };
            proof {
                c = KeyCheck::Reported(match &offered {
                    Ok(Some(s)) => Some(s@),
                    _ => None,
                });
            }
            pass = offered_matches(value, &offered);
        } else if str_eq(key, "browserVersion") {
            let cond = match value {
                Json::String(x) => x.as_str(),
                _ => {
                    let e = "";
                    assert(e@ =~= Seq::<char>::empty()) by {
                        reveal_strlit("");
                    }
                    e
                },
            };
            assert(cond@ == version_condition(v));
            let offered = browser_capabilities.browser_version(merged);
            match offered {
                Ok(Some(version)) => {
                    let answer = browser_capabilities.compare_browser_version(version.as_str(), cond);
                    pass = answered_yes(&answer);
                    proof {
                        c = KeyCheck::Version(Some(version@), cond@, pass);
                    }
                },
                _ => {
                    pass = false;
                    proof {
                        c = KeyCheck::Version(None, cond@, false);
                    }
                },
            }
        } else if str_eq(key, "acceptInsecureCerts") || str_eq(key, "setWindowRect") {
            if flag_requested(value) {
                let answer = if str_eq(key, "acceptInsecureCerts") {
                    browser_capabilities.accept_insecure_certs(merged)
                } else {
                    browser_capabilities.set_window_rect(merged)
                };
                pass = answered_yes(&answer);
                proof {
                    c = KeyCheck::Verdict(pass);
                }
            }
        } else if str_eq(key, "proxy") {
            let empty: Capabilities = Vec::new();
            let proxy = match value {
                Json::Object(p) => {
                    proof {
                        lemma_object_view(*p);
                        assert(v->Object_0 =~= members_view(p@));
                    }
                    p
                },
                _ => {
                    assert(members_view(empty@) =~= Seq::<(Seq<char>, JsonV)>::empty());
                    &empty
                },
            };
            assert(members_view(proxy@) == proxy_settings(v));
            let answer = browser_capabilities.accept_proxy(proxy, merged);
            pass = answered_yes(&answer);
            proof {
                c = KeyCheck::Proxy(members_view(proxy@), pass);
            }
        } else if has_char(key, ':') {
            let answer = browser_capabilities.accept_custom(key, value, merged);
            pass = answered_yes(&answer);
            proof {
                c = KeyCheck::Custom(k, v, pass);
            }
        }
        assert(key_check_fits(k, v, c));
        assert(pass == key_check_ok(k, v, c));
        proof {
            cs = cs.push(c);
        }
        if !pass {
            proof {
                if !asks_browser(o) {
                    assert(!asks_browser_key(o[i as int].0, o[i as int].1));
                }
                assert(!key_check_ok(o[i as int].0, o[i as int].1, cs[i as int]));
                assert forall|j: int| 0 <= j < cs.len() implies #[trigger] key_check_fits(o[j].0, o[j].1, cs[j]) by {
                    if j < i {
                        assert(key_check_ok(o[j].0, o[j].1, cs[j]));
                    }
                }
            }
            return (false, Ghost(cs));
        }
        i += 1;
    }
    proof {
        assert forall|j: int| 0 <= j < cs.len() implies #[trigger] key_check_fits(o[j].0, o[j].1, cs[j]) by {
            assert(key_check_ok(o[j].0, o[j].1, cs[j]));
        }
    }
    (true, Ghost(cs))
}

impl SpecNewSessionParameters {
    /// Finds the first alternative that, merged with `alwaysMatch` and
    /// validated, the browser accepts.
    ///
    /// An alternative that repeats a key of `alwaysMatch` fails the whole
    /// request, and so does an invalid capability in any alternative; in
    /// both cases the browser is asked nothing. An alternative that asks the
    /// browser nothing is accepted as it stands.
    pub fn match_browser<T: BrowserCapabilities>(&self, browser_capabilities: &mut T) -> (r: WebDriverResult<Option<Capabilities>>)
        ensures
            any_shadowing(*self) ==> (r matches Err(e) && e.status == ErrorStatus::InvalidArgument),
            r is Err ==> *final(browser_capabilities) == *old(browser_capabilities),
            r matches Ok(Some(c)) ==> exists|i: int| 0 <= i < candidates(*self).len()
                && members_view(c@) == #[trigger] candidates(*self)[i],
            r matches Ok(Some(c)) ==> all_entries_ok(members_view(c@)),
            keys_unique(members_view(self.alwaysMatch@)) ==> (r matches Ok(Some(c)) ==> keys_unique(members_view(c@))),
            !any_shadowing(*self) && (exists|i: int| 0 <= i < candidates(*self).len()
                && !all_entries_ok(#[trigger] candidates(*self)[i])) ==> r is Err,
            !any_shadowing(*self) && (forall|i: int| 0 <= i < candidates(*self).len()
                ==> all_entries_ok(#[trigger] candidates(*self)[i]) && !has_extension_key(candidates(*self)[i])) ==> r is Ok,
            !any_shadowing(*self) && (forall|i: int| 0 <= i < candidates(*self).len()
                ==> all_entries_ok(#[trigger] candidates(*self)[i]) && !has_extension_key(candidates(*self)[i]))
                && !asks_browser(candidates(*self)[0]) ==> (r matches Ok(Some(c)) && members_view(c@) == candidates(*self)[0]),
            r matches Ok(None) ==> forall|i: int| 0 <= i < candidates(*self).len() ==> asks_browser(#[trigger] candidates(*self)[i]),
            r matches Err(e) && e.status != ErrorStatus::InvalidArgument ==> exists|i: int|
                0 <= i < candidates(*self).len() && has_extension_key(#[trigger] candidates(*self)[i]),
            !any_shadowing(*self) && r is Err ==> exists|i: int| 0 <= i < candidates(*self).len()
                && (!all_entries_ok(#[trigger] candidates(*self)[i]) || has_extension_key(candidates(*self)[i])),
    {
        let (r, _trials) = self.match_browser_in_order(browser_capabilities);
        r
    }

    /// Tries the alternatives as `match_browser` does, and also gives the
    /// checks made on each alternative put to the browser, in order: the one
    /// returned is the first whose checks all pass, and no alternative after
    /// it was put to the browser.
    pub fn match_browser_in_order<T: BrowserCapabilities>(&self, browser_capabilities: &mut T) -> (out: (WebDriverResult<Option<Capabilities>>, Ghost<Seq<Seq<KeyCheck>>>))
        ensures
            any_shadowing(*self) ==> (out.0 matches Err(e) && e.status == ErrorStatus::InvalidArgument),
            out.0 is Err ==> *final(browser_capabilities) == *old(browser_capabilities),
            out.0 matches Ok(Some(c)) ==> exists|i: int| 0 <= i < candidates(*self).len()
                && members_view(c@) == #[trigger] candidates(*self)[i],
            out.0 matches Ok(Some(c)) ==> all_entries_ok(members_view(c@)),
            keys_unique(members_view(self.alwaysMatch@)) ==> (out.0 matches Ok(Some(c)) ==> keys_unique(members_view(c@))),
            !any_shadowing(*self) && (exists|i: int| 0 <= i < candidates(*self).len()
                && !all_entries_ok(#[trigger] candidates(*self)[i])) ==> out.0 is Err,
            !any_shadowing(*self) && (forall|i: int| 0 <= i < candidates(*self).len()
                ==> all_entries_ok(#[trigger] candidates(*self)[i]) && !has_extension_key(candidates(*self)[i])) ==> out.0 is Ok,
            !any_shadowing(*self) && (forall|i: int| 0 <= i < candidates(*self).len()
                ==> all_entries_ok(#[trigger] candidates(*self)[i]) && !has_extension_key(candidates(*self)[i]))
                && !asks_browser(candidates(*self)[0]) ==> (out.0 matches Ok(Some(c)) && members_view(c@) == candidates(*self)[0]),
            out.0 matches Ok(None) ==> forall|i: int| 0 <= i < candidates(*self).len() ==> asks_browser(#[trigger] candidates(*self)[i]),
            out.0 matches Err(e) && e.status != ErrorStatus::InvalidArgument ==> exists|i: int|
                0 <= i < candidates(*self).len() && has_extension_key(#[trigger] candidates(*self)[i]),
            !any_shadowing(*self) && out.0 is Err ==> exists|i: int| 0 <= i < candidates(*self).len()
                && (!all_entries_ok(#[trigger] candidates(*self)[i]) || has_extension_key(candidates(*self)[i])),
            out.0 is Err ==> out.1@.len() == 0,
            out.0 is Ok ==> forall|j: int| 0 <= j < out.1@.len() ==> checks_fit(candidates(*self)[j], #[trigger] out.1@[j]),
            out.0 matches Ok(Some(c)) ==> 1 <= out.1@.len() <= candidates(*self).len()
                && members_view(c@) == candidates(*self)[out.1@.len() - 1]
                && accepted_by(candidates(*self)[out.1@.len() - 1], out.1@[out.1@.len() - 1])
                && forall|j: int| 0 <= j < out.1@.len() - 1 ==> !accepted_by(candidates(*self)[j], #[trigger] out.1@[j]),
            out.0 matches Ok(None) ==> out.1@.len() == candidates(*self).len()
                && forall|j: int| 0 <= j < out.1@.len() ==> !accepted_by(candidates(*self)[j], #[trigger] out.1@[j]),
    {
        let default_list: Vec<Capabilities> = vec![Vec::new()];
        let list = if self.firstMatch.len() > 0 { &self.firstMatch } else { &default_list };
        let ghost fl = first_match_list(*self);
        let ghost a = members_view(self.alwaysMatch@);
        proof {
            assert(fl.len() == list@.len());
            assert forall|j: int| 0 <= j < list@.len() implies members_view(#[trigger] list@[j]@) == fl[j] by {
                if self.firstMatch@.len() == 0 {
                    assert(members_view(list@[j]@) =~= Seq::empty());
                }
            }
        }
        let mut i: usize = 0;
        while i < list.len()
            invariant
                fl == first_match_list(*self),
                a == members_view(self.alwaysMatch@),
                fl.len() == list@.len(),
                forall|j: int| 0 <= j < list@.len() ==> members_view(#[trigger] list@[j]@) == fl[j],
                i <= list@.len(),
                forall|j: int| 0 <= j < i ==> !shadows(a, #[trigger] fl[j]),
            decreases list@.len() - i,
        {
            if shadows_exec(&self.alwaysMatch, &list[i]) {
                assert(shadows(a, fl[i as int]));
                return (Err(invalid_argument("firstMatch key shadowed a value in alwaysMatch")), Ghost(Seq::empty()));
            }
            i += 1;
        }
        let ghost cands = candidates(*self);
        let mut validated: Vec<Capabilities> = Vec::new();
        let mut i: usize = 0;
        while i < list.len()
            invariant
                fl == first_match_list(*self),
                a == members_view(self.alwaysMatch@),
                cands == candidates(*self),
                *browser_capabilities == *old(browser_capabilities),
                !any_shadowing(*self),
                fl.len() == list@.len(),
                forall|j: int| 0 <= j < list@.len() ==> members_view(#[trigger] list@[j]@) == fl[j],
                i <= list@.len(),
                validated@.len() == i,
                forall|j: int| 0 <= j < i ==> members_view(#[trigger] validated@[j]@) == cands[j],
                forall|j: int| 0 <= j < i ==> all_entries_ok(#[trigger] cands[j]),
            decreases list@.len() - i,
        {
            let merged = merge_exec(&self.alwaysMatch, &list[i]);
            let v = validate(&merged, &*browser_capabilities);
            match v {
                Ok(c) => {
                    validated.push(c);
                },
                Err(e) => {
                    proof {
                        assert(cands[i as int] == strip_nulls(members_view(merged@)));
                    }
                    return (Err(e), Ghost(Seq::empty()));
                },
            }
            i += 1;
        }
        let ghost mut trials: Seq<Seq<KeyCheck>> = Seq::empty();
        let mut i: usize = 0;
        while i < validated.len()
            invariant
                cands == candidates(*self),
                !any_shadowing(*self),
                validated@.len() == cands.len(),
                forall|j: int| 0 <= j < validated@.len() ==> members_view(#[trigger] validated@[j]@) == cands[j],
                forall|j: int| 0 <= j < validated@.len() ==> all_entries_ok(#[trigger] cands[j]),
                i <= validated@.len(),
                trials.len() == i,
                forall|j: int| 0 <= j < i ==> !accepted_by(cands[j], #[trigger] trials[j]) && checks_fit(cands[j], trials[j]),
                forall|j: int| 0 <= j < i ==> asks_browser(#[trigger] cands[j]),
            decreases validated@.len() - i,
        {
            let (accepted, checks) = candidate_accepted(browser_capabilities, &validated[i]);
            proof {
                trials = trials.push(checks@);
                assert(trials[i as int] == checks@);
                if accepted {
                    assert(checks_fit(cands[i as int], checks@));
                }
            }
            if accepted {
                let c = clone_capabilities(&validated[i]);
                assert(members_view(c@) == cands[i as int]);
                proof {
                    if i > 0 {
                        assert(asks_browser(cands[0]));
                    }
                    if keys_unique(members_view(self.alwaysMatch@)) {
                        lemma_candidates_keys_unique(*self);
                    }
                }
                return (Ok(Some(c)), Ghost(trials));
            }
            i += 1;
        }
        proof {
            assert(asks_browser(cands[0]));
        }
        (Ok(None), Ghost(trials))
    }
}

impl LegacyNewSessionParameters {
    /// Merges `required` and `desired`, keeping the first value seen for each
    /// key, and accepts the result without asking the browser.
    pub fn match_browser<T: BrowserCapabilities>(&self, browser_capabilities: &mut T) -> (r: WebDriverResult<Option<Capabilities>>)
        ensures
            r matches Ok(Some(c)) && members_view(c@) == legacy_merge(members_view(self.required@), members_view(self.desired@))
                && keys_unique(members_view(c@)),
    {
        proof {
            let e = Seq::<(Seq<char>, JsonV)>::empty();
            let req = members_view(self.required@);
            lemma_add_absent_keys_unique(e, req, req.len() as int);
            lemma_add_absent_keys_unique(add_absent_upto(e, req, req.len() as int), members_view(self.desired@),
                self.desired@.len() as int);
        }
        let mut capabilities: Capabilities = Vec::new();
        assert(members_view(capabilities@) =~= Seq::<(Seq<char>, JsonV)>::empty());
        add_absent(&mut capabilities, &self.required);
        add_absent(&mut capabilities, &self.desired);
        browser_capabilities.init(&capabilities);
        Ok(Some(capabilities))
    }
}

/// Merging keeps the keys of `a` unique.
pub proof fn lemma_merge_keeps_keys_unique(a: Seq<(Seq<char>, JsonV)>, f: Seq<(Seq<char>, JsonV)>, n: int)
    requires
        keys_unique(a),
    ensures
        keys_unique(merge_upto(a, f, n)),
    decreases n,
{
    if n > 0 && n <= f.len() {
        lemma_merge_keeps_keys_unique(a, f, n - 1);
        lemma_insert_keeps_keys_unique(merge_upto(a, f, n - 1), f[n - 1].0, f[n - 1].1);
    }
}

/// Dropping the `null` members keeps only members of `o`, and its keys unique.
pub proof fn lemma_strip_keeps_keys_unique(o: Seq<(Seq<char>, JsonV)>)
    requires
        keys_unique(o),
    ensures
        keys_unique(strip_nulls(o)),
        forall|i: int| 0 <= i < strip_nulls(o).len() ==> o.contains(#[trigger] strip_nulls(o)[i]),
    decreases o.len(),
{
    if o.len() > 0 {
        let d = o.drop_last();
        assert(keys_unique(d));
        lemma_strip_keeps_keys_unique(d);
        let s = strip_nulls(d);
        assert forall|i: int| 0 <= i < s.len() implies o.contains(#[trigger] s[i]) by {
            let j = choose|j: int| 0 <= j < d.len() && d[j] == s[i];
            assert(o[j] == s[i]);
        }
        if !(o.last().1 is Null) {
            let r = s.push(o.last());
            assert forall|i: int, j: int| 0 <= i < j < r.len() implies r[i].0 != r[j].0 by {
                if j == s.len() {
                    assert(d.contains(s[i]));
                    let t = choose|t: int| 0 <= t < d.len() && d[t] == s[i];
                    assert(o[t].0 != o[o.len() - 1].0);
                }
            }
            assert forall|i: int| 0 <= i < r.len() implies o.contains(#[trigger] r[i]) by {
                if i == s.len() {
                    assert(o[o.len() - 1] == r[i]);
                } else {
                    assert(o.contains(s[i]));
                }
            }
        }
    }
}

/// The legacy merge never holds a key twice.
pub proof fn lemma_add_absent_keys_unique(acc: Seq<(Seq<char>, JsonV)>, o: Seq<(Seq<char>, JsonV)>, n: int)
    requires
        keys_unique(acc),
    ensures
        keys_unique(add_absent_upto(acc, o, n)),
    decreases n,
{
    if n > 0 && n <= o.len() {
        lemma_add_absent_keys_unique(acc, o, n - 1);
        let prev = add_absent_upto(acc, o, n - 1);
        lemma_key_pos_from(prev, o[n - 1].0, 0);
        if key_pos(prev, o[n - 1].0) < 0 {
            let r = prev.push(o[n - 1]);
            assert forall|i: int, j: int| 0 <= i < j < r.len() implies r[i].0 != r[j].0 by {
                if j == prev.len() {
                    assert(prev[i].0 != o[n - 1].0);
                }
            }
        }
    }
}

/// With the keys of `alwaysMatch` unique, so are those of every candidate.
pub proof fn lemma_candidates_keys_unique(p: SpecNewSessionParameters)
    requires
        keys_unique(members_view(p.alwaysMatch@)),
    ensures
        forall|i: int| 0 <= i < candidates(p).len() ==> keys_unique(#[trigger] candidates(p)[i]),
{
    assert forall|i: int| 0 <= i < candidates(p).len() implies keys_unique(#[trigger] candidates(p)[i]) by {
        let f = first_match_list(p)[i];
        lemma_merge_keeps_keys_unique(members_view(p.alwaysMatch@), f, f.len() as int);
        lemma_strip_keeps_keys_unique(merge_caps(members_view(p.alwaysMatch@), f));
    }
}

/// Reads an optional object member of a request: absent is empty, anything
/// but an object is refused.
pub open spec fn object_member_ok(v: JsonV, k: Seq<char>) -> bool {
    match crate::json::get_member(v, k) {
        None => true,
        Some(JsonV::Object(_)) => true,
        _ => false,
    }
}

pub open spec fn first_match_ok(v: JsonV) -> bool {
    match crate::json::get_member(v, "firstMatch"@) {
        None => true,
        Some(JsonV::Array(a)) => forall|i: int| 0 <= i < a.len() ==> #[trigger] a[i] is Object,
        _ => false,
    }
}

/// The members of an optional object member; none where it is absent.
pub open spec fn object_member_value(v: JsonV, k: Seq<char>) -> Seq<(Seq<char>, JsonV)> {
    match crate::json::get_member(v, k) {
        Some(JsonV::Object(o)) => o,
        _ => Seq::empty(),
    }
}

fn object_member(body: &Json, k: &str) -> (r: Result<Capabilities, ()>)
    ensures
        r is Ok <==> object_member_ok(body@, k@),
        r matches Ok(c) ==> members_view(c@) == object_member_value(body@, k@),
{
    match crate::json::json_get(body, k) {
        None => {
            let c: Capabilities = Vec::new();
            assert(members_view(c@) =~= Seq::<(Seq<char>, JsonV)>::empty());
            Ok(c)
        },
        Some(Json::Object(m)) => {
            proof {
                lemma_object_view(*m);
                assert(Json::Object(*m)@->Object_0 =~= members_view(m@));
            }
            Ok(clone_capabilities(m))
        },
        Some(_) => Err(()),
    }
}

impl SpecNewSessionParameters {
    /// Reads a request body: `alwaysMatch` defaults to an empty set and
    /// `firstMatch` to a list of one empty set; `null` is refused for either.
    pub fn from_json(body: &Json) -> (r: WebDriverResult<SpecNewSessionParameters>)
        ensures
            r is Ok <==> body@ is Object && object_member_ok(body@, "alwaysMatch"@) && first_match_ok(body@),
            r matches Ok(p) ==> crate::json::get_member(body@, "firstMatch"@) is None ==> p.firstMatch@.len() == 1
                && p.firstMatch@[0]@.len() == 0,
            r matches Ok(p) ==> members_view(p.alwaysMatch@) == object_member_value(body@, "alwaysMatch"@),
            r matches Ok(p) ==> (crate::json::get_member(body@, "firstMatch"@) matches Some(JsonV::Array(a))
                ==> p.firstMatch@.len() == a.len() && forall|i: int| 0 <= i < a.len()
                    ==> a[i] == JsonV::Object(members_view(#[trigger] p.firstMatch@[i]@))),
            r matches Err(e) ==> e.status == ErrorStatus::InvalidArgument,
    {
        match body {
            Json::Object(_) => {},
            _ => {
                return Err(invalid_argument("new session parameters are not an object"));
            },
        }
        let always = match object_member(body, "alwaysMatch") {
            Ok(c) => c,
            Err(()) => {
                return Err(invalid_argument("alwaysMatch is not an object"));
            },
        };
        let first = match crate::json::json_get(body, "firstMatch") {
            None => vec![Vec::new()],
            Some(Json::Array(a)) => {
                proof {
                    lemma_array_view(*a);
                }
                let mut out: Vec<Capabilities> = Vec::new();
                let mut i: usize = 0;
                while i < a.len()
                    invariant
                        crate::json::get_member(body@, "firstMatch"@) == Some(Json::Array(*a)@),
                        Json::Array(*a)@->Array_0.len() == a@.len(),
                        forall|k: int| 0 <= k < a@.len() ==> #[trigger] Json::Array(*a)@->Array_0[k] == a@[k]@,
                        i <= a@.len(),
                        out@.len() == i,
                        forall|k: int| 0 <= k < i ==> Json::Array(*a)@->Array_0[k] == JsonV::Object(members_view(#[trigger] out@[k]@)),
                    decreases a@.len() - i,
                {
                    match &a[i] {
                        Json::Object(m) => {
                            proof {
                                lemma_object_view(*m);
                                assert(Json::Object(*m)@->Object_0 =~= members_view(m@));
                            }
                            out.push(clone_capabilities(m));
                        },
                        _ => {
                            assert(!(Json::Array(*a)@->Array_0[i as int] is Object));
                            return Err(invalid_argument("firstMatch entry is not an object"));
                        },
                    }
                    i += 1;
                }
                proof {
                    assert forall|k: int| 0 <= k < a@.len() implies #[trigger] Json::Array(*a)@->Array_0[k] is Object by {
                        assert(Json::Array(*a)@->Array_0[k] == JsonV::Object(members_view(out@[k]@)));
                    }
                }
                out
            },
            Some(_) => {
                return Err(invalid_argument("firstMatch is not an array"));
            },
        };
        Ok(SpecNewSessionParameters { alwaysMatch: always, firstMatch: first })
    }
}

impl LegacyNewSessionParameters {
    /// Reads a legacy request body: `desired` and `required` default to empty
    /// sets; `null` is refused for either.
    pub fn from_json(body: &Json) -> (r: WebDriverResult<LegacyNewSessionParameters>)
        ensures
            r is Ok <==> body@ is Object && object_member_ok(body@, "desired"@) && object_member_ok(body@, "required"@),
            r matches Ok(p) ==> members_view(p.desired@) == object_member_value(body@, "desired"@)
                && members_view(p.required@) == object_member_value(body@, "required"@),
            r matches Err(e) ==> e.status == ErrorStatus::InvalidArgument,
    {
        match body {
            Json::Object(_) => {},
            _ => {
                return Err(invalid_argument("new session parameters are not an object"));
            },
        }
        let desired = match object_member(body, "desired") {
            Ok(c) => c,
            Err(()) => {
                return Err(invalid_argument("desired is not an object"));
            },
        };
        let required = match object_member(body, "required") {
            Ok(c) => c,
            Err(()) => {
                return Err(invalid_argument("required is not an object"));
            },
        };
        Ok(LegacyNewSessionParameters { desired, required })
    }
}

/// An empty `firstMatch` list is tried exactly as a list holding one empty
/// set: the alternatives, the shadowing check and the candidates agree.
pub proof fn lemma_empty_first_match(a: SpecNewSessionParameters, b: SpecNewSessionParameters)
    requires
        members_view(a.alwaysMatch@) == members_view(b.alwaysMatch@),
        a.firstMatch@.len() == 0,
        b.firstMatch@.len() == 1,
        b.firstMatch@[0]@.len() == 0,
    ensures
        first_match_list(a) == first_match_list(b),
        any_shadowing(a) == any_shadowing(b),
        candidates(a) == candidates(b),
{
    assert(members_view(b.firstMatch@[0]@) =~= Seq::<(Seq<char>, JsonV)>::empty());
    assert(first_match_list(a) =~= first_match_list(b));
    assert(candidates(a) =~= candidates(b));
}

/// Picks the capabilities of a new-session request that the browser can serve.
pub trait CapabilitiesMatching {
    /// The capabilities the browser accepts, `None` where none match.
    fn match_browser<T: BrowserCapabilities>(&self, browser_capabilities: &mut T) -> WebDriverResult<Option<Capabilities>>;
}

impl CapabilitiesMatching for SpecNewSessionParameters {
    fn match_browser<T: BrowserCapabilities>(&self, browser_capabilities: &mut T) -> WebDriverResult<Option<Capabilities>> {
        SpecNewSessionParameters::match_browser(self, browser_capabilities)
    }
}

impl CapabilitiesMatching for LegacyNewSessionParameters {
    fn match_browser<T: BrowserCapabilities>(&self, browser_capabilities: &mut T) -> WebDriverResult<Option<Capabilities>> {
        LegacyNewSessionParameters::match_browser(self, browser_capabilities)
    }
}

impl NewSessionParameters {
    /// Negotiates capabilities for whichever form the request has.
    pub fn match_browser<T: BrowserCapabilities>(&self, browser_capabilities: &mut T) -> (r: WebDriverResult<Option<Capabilities>>)
        ensures
            self matches NewSessionParameters::Legacy(l) ==> (r matches Ok(Some(c))
                && members_view(c@) == legacy_merge(members_view(l.required@), members_view(l.desired@))
                && keys_unique(members_view(c@))),
            self matches NewSessionParameters::Spec(p) ==> (keys_unique(members_view(p.alwaysMatch@))
                ==> (r matches Ok(Some(c)) ==> keys_unique(members_view(c@)))),
            self matches NewSessionParameters::Spec(p) ==> (any_shadowing(*p) ==> (r matches Err(e)
                && e.status == ErrorStatus::InvalidArgument)),
            self matches NewSessionParameters::Spec(p) ==> (r matches Ok(Some(c)) ==> exists|i: int|
                0 <= i < candidates(*p).len() && members_view(c@) == #[trigger] candidates(*p)[i]),
            self matches NewSessionParameters::Spec(p) ==> (!any_shadowing(*p) && (forall|i: int|
                0 <= i < candidates(*p).len() ==> all_entries_ok(#[trigger] candidates(*p)[i])
                    && !has_extension_key(candidates(*p)[i])) ==> r is Ok),
            self matches NewSessionParameters::Spec(p) ==> (!any_shadowing(*p) && (forall|i: int|
                0 <= i < candidates(*p).len() ==> all_entries_ok(#[trigger] candidates(*p)[i])
                    && !has_extension_key(candidates(*p)[i])) && !asks_browser(candidates(*p)[0])
                ==> (r matches Ok(Some(c)) && members_view(c@) == candidates(*p)[0])),
            self matches NewSessionParameters::Spec(p) ==> (!any_shadowing(*p) && (exists|i: int|
                0 <= i < candidates(*p).len() && !all_entries_ok(#[trigger] candidates(*p)[i])) ==> r is Err),
            self matches NewSessionParameters::Spec(p) ==> (r matches Ok(None) ==> forall|i: int|
                0 <= i < candidates(*p).len() ==> asks_browser(#[trigger] candidates(*p)[i])),
            self is Spec && r is Err ==> *final(browser_capabilities) == *old(browser_capabilities),
            self matches NewSessionParameters::Spec(p) ==> (r matches Err(e) && e.status != ErrorStatus::InvalidArgument
                ==> exists|i: int| 0 <= i < candidates(*p).len() && has_extension_key(#[trigger] candidates(*p)[i])),
    {
        match self {
            NewSessionParameters::Spec(p) => p.match_browser(browser_capabilities),
            NewSessionParameters::Legacy(l) => l.match_browser(browser_capabilities),
        }
    }
}

} // verus!
