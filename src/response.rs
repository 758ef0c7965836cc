use vstd::prelude::*;
use crate::json::{Json, JsonV, Number, members_view, get_member, lookup, json_get, object_get, clone_json, lemma_array_view, lemma_object_view, str_eq};
use crate::command::{WebElement, ELEMENT_KEY, LEGACY_ELEMENT_KEY, CHROME_ELEMENT_KEY, FRAME_KEY, WINDOW_KEY};
use crate::error::{ErrorStatus, WebDriverError, WebDriverResult};

verus! {

/// A cookie as the remote end reports it.
pub struct Cookie {
    pub name: String,
    pub value: String,
    pub path: Option<String>,
    pub domain: Option<String>,
    pub expiry: Option<u64>,
    pub secure: bool,
    pub http_only: bool,
}

pub struct CookieV {
    pub name: Seq<char>,
    pub value: Seq<char>,
    pub path: Option<Seq<char>>,
    pub domain: Option<Seq<char>>,
    pub expiry: Option<u64>,
    pub secure: bool,
    pub http_only: bool,
}

pub open spec fn opt_view(o: Option<String>) -> Option<Seq<char>> {
    match o {
        Some(s) => Some(s@),
        None => None,
    }
}

impl View for Cookie {
    type V = CookieV;

    open spec fn view(&self) -> CookieV {
        CookieV {
            name: self.name@,
            value: self.value@,
            path: opt_view(self.path),
            domain: opt_view(self.domain),
            expiry: self.expiry,
            secure: self.secure,
            http_only: self.http_only,
        }
    }
}

pub open spec fn cookies_view(c: Seq<Cookie>) -> Seq<CookieV> {
    Seq::new(c.len(), |i: int| c[i]@)
}

pub struct TimeoutsResponse {
    pub script: u64,
    pub page_load: u64,
    pub implicit: u64,
}

/// An element's position and size, as the numbers the remote end sent.
pub struct ElementRectResponse {
    pub x: Number,
    pub y: Number,
    pub width: Number,
    pub height: Number,
}

/// A window's position and size.
pub struct WindowRectResponse {
    pub x: i64,
    pub y: i64,
    pub width: u64,
    pub height: u64,
}

pub struct NewSessionResponse {
    pub session_id: String,
    pub capabilities: Json,
}

/// The answer to a command.
pub enum WebDriverResponse {
    Void,
    Generic(Json),
    Timeouts(TimeoutsResponse),
    CloseWindow(Vec<String>),
    ElementRect(ElementRectResponse),
    WindowRect(WindowRectResponse),
    Cookies(Vec<Cookie>),
    Cookie(Cookie),
    NewSession(NewSessionResponse),
    DeleteSession,
}

/// The value of an answer.
pub enum ResponseV {
    Void,
    Generic(JsonV),
    Timeouts(u64, u64, u64),
    CloseWindow(Seq<Seq<char>>),
    ElementRect(Number, Number, Number, Number),
    WindowRect(i64, i64, u64, u64),
    Cookies(Seq<CookieV>),
    Cookie(CookieV),
    NewSession(Seq<char>, JsonV),
    DeleteSession,
}

impl View for WebDriverResponse {
    type V = ResponseV;

    open spec fn view(&self) -> ResponseV {
        match self {
            WebDriverResponse::Void => ResponseV::Void,
            WebDriverResponse::Generic(j) => ResponseV::Generic(j@),
            WebDriverResponse::Timeouts(t) => ResponseV::Timeouts(t.script, t.page_load, t.implicit),
            WebDriverResponse::CloseWindow(h) => ResponseV::CloseWindow(Seq::new(h@.len(), |i: int| h@[i]@)),
            WebDriverResponse::ElementRect(r) => ResponseV::ElementRect(r.x, r.y, r.width, r.height),
            WebDriverResponse::WindowRect(r) => ResponseV::WindowRect(r.x, r.y, r.width, r.height),
            WebDriverResponse::Cookies(c) => ResponseV::Cookies(Seq::new(c@.len(), |i: int| c@[i]@)),
            WebDriverResponse::Cookie(c) => ResponseV::Cookie(c@),
            WebDriverResponse::NewSession(n) => ResponseV::NewSession(n.session_id@, n.capabilities@),
            WebDriverResponse::DeleteSession => ResponseV::DeleteSession,
        }
    }
}

/// The first of `a` and `b` that is present.
pub open spec fn or_else<T>(a: Option<T>, b: Option<T>) -> Option<T> {
    if a is Some {
        a
    } else {
        b
    }
}

/// The reference an object carries, looked for under the current element
/// key, then the legacy element key, the chrome element key, the frame key
/// and the window key: the first key present decides, and its value must be a string.
pub open spec fn element_ref(v: JsonV) -> Option<Seq<char>> {
    match v {
        JsonV::Object(o) => {
            let found = or_else(lookup(o, ELEMENT_KEY@), or_else(lookup(o, LEGACY_ELEMENT_KEY@),
                or_else(lookup(o, CHROME_ELEMENT_KEY@), or_else(lookup(o, FRAME_KEY@), lookup(o, WINDOW_KEY@)))));
            match found {
                Some(JsonV::String(s)) => Some(s),
                _ => None,
            }
        },
        _ => None,
    }
}

/// Where an object carries the current element key, the reference is taken
/// from it, whatever other keys it carries.
pub proof fn lemma_current_element_key_wins(o: Seq<(Seq<char>, JsonV)>, id: Seq<char>)
    requires
        lookup(o, ELEMENT_KEY@) == Some(JsonV::String(id)),
    ensures
        element_ref(JsonV::Object(o)) == Some(id),
{
}

/// Reads the element reference that `json_data` carries.
pub fn to_web_element(json_data: &Json) -> (r: WebDriverResult<WebElement>)
    ensures
        r is Ok <==> element_ref(json_data@) is Some,
        r matches Ok(e) ==> element_ref(json_data@) == Some(e.id@),
        r matches Err(e) ==> e.status == ErrorStatus::UnknownError,
{
    let data = match json_data {
        Json::Object(m) => m,
        _ => {
            return Err(WebDriverError::new(ErrorStatus::UnknownError, "Failed to convert data to an object"));
        },
    };
    proof {
        lemma_object_view(*data);
        assert(json_data@->Object_0 =~= members_view(data@));
    }
    let mut found = object_get(data, ELEMENT_KEY);
    if found.is_none() {
        found = object_get(data, LEGACY_ELEMENT_KEY);
    }
    if found.is_none() {
        found = object_get(data, CHROME_ELEMENT_KEY);
    }
    if found.is_none() {
        found = object_get(data, FRAME_KEY);
    }
    if found.is_none() {
        found = object_get(data, WINDOW_KEY);
    }
    match found {
        Some(Json::String(id)) => Ok(WebElement::new(id.clone())),
        Some(_) => Err(WebDriverError::new(ErrorStatus::UnknownError, "Failed to convert web element reference value to string")),
        None => Err(WebDriverError::new(ErrorStatus::UnknownError, "Failed to extract web element from Marionette response")),
    }
}

pub open spec fn as_u64(v: JsonV) -> Option<u64> {
    match v {
        JsonV::Number(Number::PosInt(u)) => Some(u),
        _ => None,
    }
}

pub open spec fn as_i64(v: JsonV) -> Option<i64> {
    match v {
        JsonV::Number(Number::PosInt(u)) => if u <= i64::MAX as u64 {
            Some(u as i64)
        } else {
            None
        },
        JsonV::Number(Number::NegInt(i)) => Some(i),
        _ => None,
    }
}

pub open spec fn as_number(v: JsonV) -> Option<Number> {
    match v {
        JsonV::Number(n) => Some(n),
        _ => None,
    }
}

/// A member read as an unsigned integer.
pub open spec fn u64_member(v: JsonV, k: Seq<char>) -> Option<u64> {
    match get_member(v, k) {
        Some(x) => as_u64(x),
        None => None,
    }
}

pub open spec fn i64_member(v: JsonV, k: Seq<char>) -> Option<i64> {
    match get_member(v, k) {
        Some(x) => as_i64(x),
        None => None,
    }
}

pub open spec fn number_member(v: JsonV, k: Seq<char>) -> Option<Number> {
    match get_member(v, k) {
        Some(x) => as_number(x),
        None => None,
    }
}

/// The three timeouts of a reply; the page-load one may come under its
/// older name `page load`.
pub open spec fn timeouts_of(v: JsonV) -> Option<(u64, u64, u64)> {
    let page_load = match or_else(get_member(v, "pageLoad"@), get_member(v, "page load"@)) {
        Some(x) => as_u64(x),
        None => None,
    };
    match (u64_member(v, "script"@), page_load, u64_member(v, "implicit"@)) {
        (Some(s), Some(p), Some(i)) => Some((s, p, i)),
        _ => None,
    }
}

pub open spec fn handles_of(v: JsonV) -> Option<Seq<Seq<char>>> {
    match v {
        JsonV::Array(a) => if forall|i: int| 0 <= i < a.len() ==> #[trigger] a[i] is String {
            Some(Seq::new(a.len(), |i: int| a[i]->String_0))
        } else {
            None
        },
        _ => None,
    }
}

pub open spec fn element_rect_of(v: JsonV) -> Option<(Number, Number, Number, Number)> {
    match (number_member(v, "x"@), number_member(v, "y"@), number_member(v, "width"@), number_member(v, "height"@)) {
        (Some(x), Some(y), Some(w), Some(h)) => Some((x, y, w, h)),
        _ => None,
    }
}

pub open spec fn window_rect_of(v: JsonV) -> Option<(i64, i64, u64, u64)> {
    match (u64_member(v, "width"@), u64_member(v, "height"@), i64_member(v, "x"@), i64_member(v, "y"@)) {
        (Some(w), Some(h), Some(x), Some(y)) => Some((x, y, w, h)),
        _ => None,
    }
}

/// An optional member: absent and `null` both read as nothing.
pub open spec fn opt_string_member(v: JsonV, k: Seq<char>) -> Option<Option<Seq<char>>> {
    match get_member(v, k) {
        None => Some(None),
        Some(JsonV::Null) => Some(None),
        Some(JsonV::String(s)) => Some(Some(s)),
        _ => None,
    }
}

pub open spec fn opt_u64_member(v: JsonV, k: Seq<char>) -> Option<Option<u64>> {
    match get_member(v, k) {
        None => Some(None),
        Some(JsonV::Null) => Some(None),
        Some(JsonV::Number(Number::PosInt(u))) => Some(Some(u)),
        _ => None,
    }
}

/// A flag that is false where it is absent.
pub open spec fn flag_member(v: JsonV, k: Seq<char>) -> Option<bool> {
    match get_member(v, k) {
        None => Some(false),
        Some(JsonV::Bool(b)) => Some(b),
        _ => None,
    }
}

pub open spec fn cookie_of(v: JsonV) -> Option<CookieV> {
    match (get_member(v, "name"@), get_member(v, "value"@), opt_string_member(v, "path"@), opt_string_member(v, "domain"@),
        opt_u64_member(v, "expiry"@), flag_member(v, "secure"@), flag_member(v, "httpOnly"@)) {
        (Some(JsonV::String(n)), Some(JsonV::String(x)), Some(p), Some(d), Some(e), Some(s), Some(h)) => Some(
            CookieV { name: n, value: x, path: p, domain: d, expiry: e, secure: s, http_only: h },
        ),
        _ => None,
    }
}

pub open spec fn cookies_of(v: JsonV) -> Option<Seq<CookieV>> {
    match v {
        JsonV::Array(a) => if forall|i: int| 0 <= i < a.len() ==> #[trigger] cookie_of(a[i]) is Some {
            Some(Seq::new(a.len(), |i: int| cookie_of(a[i])->Some_0))
        } else {
            None
        },
        _ => None,
    }
}

/// The last cookie of `cs` named `name`.
pub open spec fn last_named(cs: Seq<CookieV>, name: Seq<char>) -> Option<CookieV>
    decreases cs.len(),
{
    if cs.len() == 0 {
        None
    } else if cs.last().name == name {
        Some(cs.last())
    } else {
        last_named(cs.drop_last(), name)
    }
}

pub open spec fn elements_of(v: JsonV) -> Option<Seq<Seq<char>>> {
    match v {
        JsonV::Array(a) => if forall|i: int| 0 <= i < a.len() ==> #[trigger] element_ref(a[i]) is Some {
            Some(Seq::new(a.len(), |i: int| element_ref(a[i])->Some_0))
        } else {
            None
        },
        _ => None,
    }
}

/// The JSON list of element references with the given ids.
pub open spec fn elements_value(ids: Seq<Seq<char>>) -> JsonV {
    JsonV::Array(Seq::new(ids.len(), |i: int| JsonV::Object(seq![(ELEMENT_KEY@, JsonV::String(ids[i]))])))
}

fn unknown(message: &str) -> (r: WebDriverError)
    ensures
        r.status == ErrorStatus::UnknownError,
        !r.delete_session,
{
    WebDriverError::new(ErrorStatus::UnknownError, message)
}

/// The `value` member of a reply.
pub fn value_member(result: &Json) -> (r: WebDriverResult<Json>)
    ensures
        r is Ok <==> get_member(result@, "value"@) is Some,
        r matches Ok(v) ==> get_member(result@, "value"@) == Some(v@),
        r matches Err(e) ==> e.status == ErrorStatus::UnknownError,
{
    match json_get(result, "value") {
        Some(v) => Ok(clone_json(v)),
        None => Err(unknown("Failed to find value field")),
    }
}

fn u64_of(v: Option<&Json>) -> (r: Option<u64>)
    ensures
        r == match v {
            Some(j) => as_u64(j@),
            None => None,
        },
{
    match v {
        Some(Json::Number(Number::PosInt(u))) => Some(*u),
        _ => None,
    }
}

fn i64_of(v: Option<&Json>) -> (r: Option<i64>)
    ensures
        r == match v {
            Some(j) => as_i64(j@),
            None => None,
        },
{
    match v {
        Some(Json::Number(Number::PosInt(u))) => if *u <= i64::MAX as u64 {
            Some(*u as i64)
        } else {
            None
        },
        Some(Json::Number(Number::NegInt(i))) => Some(*i),
        _ => None,
    }
}

fn number_of(v: Option<&Json>) -> (r: Option<Number>)
    ensures
        r == match v {
            Some(j) => as_number(j@),
            None => None,
        },
{
    match v {
        Some(Json::Number(n)) => Some(*n),
        _ => None,
    }
}

/// Reads the timeouts of a reply.
pub fn timeouts_response(result: &Json) -> (r: WebDriverResult<TimeoutsResponse>)
    ensures
        r is Ok <==> timeouts_of(result@) is Some,
        r matches Ok(t) ==> timeouts_of(result@) == Some((t.script, t.page_load, t.implicit)),
        r matches Err(e) ==> e.status == ErrorStatus::UnknownError,
{
    let script = u64_of(json_get(result, "script"));
    let mut page = json_get(result, "pageLoad");
    if page.is_none() {
        page = json_get(result, "page load");
    }
    let page_load = u64_of(page);
    let implicit = u64_of(json_get(result, "implicit"));
    match (script, page_load, implicit) {
        (Some(script), Some(page_load), Some(implicit)) => Ok(TimeoutsResponse { script, page_load, implicit }),
        _ => Err(unknown("Failed to interpret timeouts")),
    }
}

/// Reads the window handles of a reply.
pub fn handles_response(result: &Json) -> (r: WebDriverResult<Vec<String>>)
    ensures
        r is Ok <==> handles_of(result@) is Some,
        r matches Ok(h) ==> handles_of(result@) == Some(Seq::new(h@.len(), |i: int| h@[i]@)),
        r matches Err(e) ==> e.status == ErrorStatus::UnknownError,
{
    let data = match result {
        Json::Array(a) => a,
        _ => {
            return Err(unknown("Failed to interpret value as array"));
        },
    };
    proof {
        lemma_array_view(*data);
    }
    let mut out: Vec<String> = Vec::new();
    let mut i: usize = 0;
    while i < data.len()
        invariant
            *result == Json::Array(*data),
            result@->Array_0.len() == data@.len(),
            forall|k: int| 0 <= k < data@.len() ==> #[trigger] result@->Array_0[k] == data@[k]@,
            i <= data@.len(),
            out@.len() == i,
            forall|k: int| 0 <= k < i ==> result@->Array_0[k] == JsonV::String(#[trigger] out@[k]@),
        decreases data@.len() - i,
    {
        match &data[i] {
            Json::String(s) => {
                out.push(s.clone());
            },
            _ => {
                assert(!(result@->Array_0[i as int] is String));
                return Err(unknown("Failed to interpret window handle as string"));
            },
        }
        i += 1;
    }
    assert forall|k: int| 0 <= k < result@->Array_0.len() implies #[trigger] result@->Array_0[k] is String by {
        assert(result@->Array_0[k] == JsonV::String(out@[k]@));
    }
    assert(Seq::new(out@.len(), |k: int| out@[k]@) =~= handles_of(result@)->Some_0);
    Ok(out)
}

/// Reads the position and size of an element.
pub fn element_rect_response(result: &Json) -> (r: WebDriverResult<ElementRectResponse>)
    ensures
        r is Ok <==> element_rect_of(result@) is Some,
        r matches Ok(t) ==> element_rect_of(result@) == Some((t.x, t.y, t.width, t.height)),
        r matches Err(e) ==> e.status == ErrorStatus::UnknownError,
{
    match (number_of(json_get(result, "x")), number_of(json_get(result, "y")), number_of(json_get(result, "width")),
        number_of(json_get(result, "height"))) {
        (Some(x), Some(y), Some(width), Some(height)) => Ok(ElementRectResponse { x, y, width, height }),
        _ => Err(unknown("Failed to interpret element rect")),
    }
}

/// Reads the position and size of a window.
pub fn window_rect_response(result: &Json) -> (r: WebDriverResult<WindowRectResponse>)
    ensures
        r is Ok <==> window_rect_of(result@) is Some,
        r matches Ok(t) ==> window_rect_of(result@) == Some((t.x, t.y, t.width, t.height)),
        r matches Err(e) ==> e.status == ErrorStatus::UnknownError,
{
    match (u64_of(json_get(result, "width")), u64_of(json_get(result, "height")), i64_of(json_get(result, "x")),
        i64_of(json_get(result, "y"))) {
        (Some(width), Some(height), Some(x), Some(y)) => Ok(WindowRectResponse { x, y, width, height }),
        _ => Err(unknown("Failed to interpret window rect")),
    }
}

fn opt_string_of(v: Option<&Json>) -> (r: Option<Option<String>>)
    ensures
        match v {
            None => r == Some(None::<String>),
            Some(j) => match (j@, r) {
                (JsonV::Null, Some(None)) => true,
                (JsonV::String(s), Some(Some(x))) => x@ == s,
                (JsonV::Null, _) => false,
                (JsonV::String(_), _) => false,
                (_, None) => true,
                _ => false,
            },
        },
{
    match v {
        None => Some(None),
        Some(Json::Null) => Some(None),
        Some(Json::String(s)) => Some(Some(s.clone())),
        _ => None,
    }
}

fn opt_u64_of(v: Option<&Json>) -> (r: Option<Option<u64>>)
    ensures
        r == match v {
            None => Some(None),
            Some(j) => match j@ {
                JsonV::Null => Some(None),
                JsonV::Number(Number::PosInt(u)) => Some(Some(u)),
                _ => None,
            },
        },
{
    match v {
        None => Some(None),
        Some(Json::Null) => Some(None),
        Some(Json::Number(Number::PosInt(u))) => Some(Some(*u)),
        _ => None,
    }
}

fn flag_of(v: Option<&Json>) -> (r: Option<bool>)
    ensures
        r == match v {
            None => Some(false),
            Some(j) => match j@ {
                JsonV::Bool(b) => Some(b),
                _ => None,
            },
        },
{
    match v {
        None => Some(false),
        Some(Json::Bool(b)) => Some(*b),
        _ => None,
    }
}

/// Reads one cookie.
pub fn cookie_from_json(v: &Json) -> (r: Option<Cookie>)
    ensures
        r is Some <==> cookie_of(v@) is Some,
        r matches Some(c) ==> cookie_of(v@) == Some(c@),
{
    let name = match json_get(v, "name") {
        Some(Json::String(s)) => s.clone(),
        _ => {
            return None;
        },
    };
    let value = match json_get(v, "value") {
        Some(Json::String(s)) => s.clone(),
        _ => {
            return None;
        },
    };
    let path = opt_string_of(json_get(v, "path"));
    let domain = opt_string_of(json_get(v, "domain"));
    let expiry = opt_u64_of(json_get(v, "expiry"));
    let secure = flag_of(json_get(v, "secure"));
    let http_only = flag_of(json_get(v, "httpOnly"));
    match (path, domain, expiry, secure, http_only) {
        (Some(path), Some(domain), Some(expiry), Some(secure), Some(http_only)) => {
            let c = Cookie { name, value, path, domain, expiry, secure, http_only };
            assert(cookie_of(v@) == Some(c@));
            Some(c)
        },
        _ => None,
    }
}

/// Reads a list of cookies.
pub fn cookies_response(result: &Json) -> (r: WebDriverResult<Vec<Cookie>>)
    ensures
        r is Ok <==> cookies_of(result@) is Some,
        r matches Ok(cs) ==> cookies_of(result@) == Some(Seq::new(cs@.len(), |i: int| cs@[i]@)),
        r matches Err(e) ==> e.status == ErrorStatus::UnknownError,
{
    let data = match result {
        Json::Array(a) => a,
        _ => {
            return Err(unknown("cookies are not an array"));
        },
    };
    proof {
        lemma_array_view(*data);
    }
    let mut out: Vec<Cookie> = Vec::new();
    let mut i: usize = 0;
    while i < data.len()
        invariant
            *result == Json::Array(*data),
            result@->Array_0.len() == data@.len(),
            forall|k: int| 0 <= k < data@.len() ==> #[trigger] result@->Array_0[k] == data@[k]@,
            i <= data@.len(),
            out@.len() == i,
            forall|k: int| 0 <= k < i ==> cookie_of(result@->Array_0[k]) == Some(#[trigger] out@[k]@),
        decreases data@.len() - i,
    {
        match cookie_from_json(&data[i]) {
            Some(c) => {
                out.push(c);
            },
            None => {
                assert(!(cookie_of(result@->Array_0[i as int]) is Some));
                return Err(unknown("Failed to interpret cookie"));
            },
        }
        i += 1;
    }
    assert forall|k: int| 0 <= k < result@->Array_0.len() implies #[trigger] cookie_of(result@->Array_0[k]) is Some by {
        assert(cookie_of(result@->Array_0[k]) == Some(out@[k]@));
    }
    assert(Seq::new(out@.len(), |k: int| out@[k]@) =~= cookies_of(result@)->Some_0);
    Ok(out)
}

/// Takes the last cookie named `name` out of `cookies`.
pub fn last_named_cookie(cookies: Vec<Cookie>, name: &String) -> (r: Option<Cookie>)
    ensures
        match r {
            Some(c) => last_named(cookies_view(cookies@), name@) == Some(c@),
            None => last_named(cookies_view(cookies@), name@) is None,
        },
{
    let ghost all = cookies_view(cookies@);
    let mut cs = cookies;
    assert(all.subrange(0, cs@.len() as int) =~= all);
    while cs.len() > 0
        invariant
            all == cookies_view(cookies@),
            cs@.len() <= all.len(),
            forall|k: int| 0 <= k < cs@.len() ==> #[trigger] cs@[k]@ == all[k],
            last_named(all, name@) == last_named(all.subrange(0, cs@.len() as int), name@),
        decreases cs@.len(),
    {
        let ghost n = cs@.len();
        assert(cs@[n - 1]@ == all[n - 1]);
        proof {
            assert(all.subrange(0, n as int).drop_last() =~= all.subrange(0, n - 1));
        }
        let ghost prev = cs@;
        let c = cs.pop().unwrap();
        proof {
            assert(c == prev[n - 1]);
            assert(c@ == all[n - 1]);
            assert(all.subrange(0, n as int).last() == all[n - 1]);
            assert forall|k: int| 0 <= k < cs@.len() implies #[trigger] cs@[k]@ == all[k] by {
                assert(cs@[k] == prev[k]);
            }
        }
        if str_eq(c.name.as_str(), name.as_str()) {
            assert(all.subrange(0, n as int).last().name == name@);
            assert(last_named(all.subrange(0, n as int), name@) == Some(c@));
            return Some(c);
        }
    }
    assert(all.subrange(0, 0) =~= Seq::<CookieV>::empty());
    None
}

/// Reads a list of element references.
pub fn elements_response(result: &Json) -> (r: WebDriverResult<Json>)
    ensures
        r is Ok <==> elements_of(result@) is Some,
        r matches Ok(v) ==> v@ == elements_value(elements_of(result@)->Some_0),
        r matches Err(e) ==> e.status == ErrorStatus::UnknownError,
{
    let data = match result {
        Json::Array(a) => a,
        _ => {
            return Err(unknown("Failed to interpret value as array"));
        },
    };
    proof {
        lemma_array_view(*data);
    }
    let mut out: Vec<Json> = Vec::new();
    let mut i: usize = 0;
    while i < data.len()
        invariant
            *result == Json::Array(*data),
            result@->Array_0.len() == data@.len(),
            forall|k: int| 0 <= k < data@.len() ==> #[trigger] result@->Array_0[k] == data@[k]@,
            i <= data@.len(),
            out@.len() == i,
            forall|k: int| 0 <= k < i ==> element_ref(result@->Array_0[k]) is Some
                && (#[trigger] out@[k])@ == JsonV::Object(seq![(ELEMENT_KEY@, JsonV::String(element_ref(result@->Array_0[k])->Some_0))]),
        decreases data@.len() - i,
    {
        let e = to_web_element(&data[i]);
        match e {
            Ok(e) => {
                let j = element_json_of(&e);
                out.push(j);
            },
            Err(err) => {
                assert(!(element_ref(result@->Array_0[i as int]) is Some));
                return Err(err);
            },
        }
        i += 1;
    }
    let r = Json::Array(out);
    proof {
        lemma_array_view(out);
        assert forall|k: int| 0 <= k < result@->Array_0.len() implies #[trigger] element_ref(result@->Array_0[k]) is Some by {
            assert((out@[k])@ == JsonV::Object(seq![(ELEMENT_KEY@, JsonV::String(element_ref(result@->Array_0[k])->Some_0))]));
        }
        assert(r@->Array_0 =~= elements_value(elements_of(result@)->Some_0)->Array_0);
    }
    Ok(r)
}

fn element_json_of(e: &WebElement) -> (r: Json)
    ensures
        r@ == JsonV::Object(seq![(ELEMENT_KEY@, JsonV::String(e.id@))]),
{
    crate::request::element_json(e)
}

} // verus!
