use vstd::prelude::*;
use crate::capabilities::{Capabilities, clone_capabilities};
use crate::command::{ELEMENT_KEY, WebElement, LocatorStrategy, LocatorParameters, JavascriptCommandParameters, AddCookieParameters, FrameId, SwitchToFrameParameters, GeckoContext, GeckoExtensionCommand, WebDriverCommand, WebDriverMessage};
use crate::error::WebDriverResult;
use crate::json::{Json, JsonV, Number, members_view, clone_json, lemma_array_view, lemma_object_view};
use crate::message::MarionetteCommand;

verus! {

pub open spec fn element_value(e: WebElement) -> JsonV {
    JsonV::Object(seq![(ELEMENT_KEY@, JsonV::String(e.id@))])
}

pub open spec fn id_params(e: WebElement) -> Seq<(Seq<char>, JsonV)> {
    seq![("id"@, JsonV::String(e.id@))]
}

pub open spec fn strategy_name(s: LocatorStrategy) -> Seq<char> {
    match s {
        LocatorStrategy::CSSSelector => "css selector"@,
        LocatorStrategy::LinkText => "link text"@,
        LocatorStrategy::PartialLinkText => "partial link text"@,
        LocatorStrategy::TagName => "tag name"@,
        LocatorStrategy::XPath => "xpath"@,
    }
}

pub open spec fn locator_params(x: LocatorParameters) -> Seq<(Seq<char>, JsonV)> {
    seq![("using"@, JsonV::String(strategy_name(x.using))), ("value"@, JsonV::String(x.value@))]
}

pub open spec fn opt_u64_value(o: Option<u64>) -> JsonV {
    match o {
        Some(u) => JsonV::Number(Number::PosInt(u)),
        None => JsonV::Null,
    }
}

/// A signed integer as JSON: non-negative ones are read back as unsigned.
pub open spec fn i64_value(i: i64) -> JsonV {
    if i >= 0 {
        JsonV::Number(Number::PosInt(i as u64))
    } else {
        JsonV::Number(Number::NegInt(i))
    }
}

pub open spec fn opt_i64_value(o: Option<i64>) -> JsonV {
    match o {
        Some(i) => i64_value(i),
        None => JsonV::Null,
    }
}

pub open spec fn json_seq_view(v: Seq<Json>) -> Seq<JsonV> {
    Seq::new(v.len(), |i: int| v[i]@)
}

pub open spec fn script_params(x: JavascriptCommandParameters) -> Seq<(Seq<char>, JsonV)> {
    seq![
        ("script"@, JsonV::String(x.script@)),
        ("args"@, match x.args {
            Some(a) => JsonV::Array(json_seq_view(a@)),
            None => JsonV::Null,
        }),
        ("newSandbox"@, JsonV::Bool(false)),
        ("specialPowers"@, JsonV::Bool(false)),
        ("scriptTimeout"@, JsonV::Null),
    ]
}

/// The text of a key sequence, one string per character.
pub open spec fn keys_value(text: Seq<char>) -> JsonV {
    JsonV::Array(Seq::new(text.len(), |i: int| JsonV::String(seq![text[i]])))
}

pub open spec fn optional_member(k: Seq<char>, v: Option<JsonV>) -> Seq<(Seq<char>, JsonV)> {
    match v {
        Some(x) => seq![(k, x)],
        None => Seq::empty(),
    }
}

pub open spec fn opt_string_value(o: Option<String>) -> Option<JsonV> {
    match o {
        Some(s) => Some(JsonV::String(s@)),
        None => None,
    }
}

pub open spec fn cookie_value(x: AddCookieParameters) -> JsonV {
    JsonV::Object(
        seq![("name"@, JsonV::String(x.name@)), ("value"@, JsonV::String(x.value@))]
            + optional_member("path"@, opt_string_value(x.path))
            + optional_member("domain"@, opt_string_value(x.domain))
            + optional_member("expiry"@, match x.expiry {
                Some(e) => Some(JsonV::Number(Number::PosInt(e))),
                None => None,
            })
            + seq![("secure"@, JsonV::Bool(x.secure)), ("httpOnly"@, JsonV::Bool(x.http_only))],
    )
}

pub open spec fn frame_params(x: SwitchToFrameParameters) -> Seq<(Seq<char>, JsonV)> {
    match x.id {
        None => Seq::empty(),
        Some(FrameId::Short(n)) => seq![("id"@, JsonV::Number(Number::PosInt(n as u64)))],
        Some(FrameId::Element(e)) => seq![("element"@, element_value(e))],
    }
}

pub open spec fn context_name(c: GeckoContext) -> Seq<char> {
    match c {
        GeckoContext::Content => "content"@,
        GeckoContext::Chrome => "chrome"@,
    }
}

/// The name that the remote end knows a command by.
pub open spec fn wire_name(c: WebDriverCommand) -> Seq<char> {
    match c {
        WebDriverCommand::AcceptAlert => "WebDriver:AcceptDialog"@,
        WebDriverCommand::AddCookie(_) => "WebDriver:AddCookie"@,
        WebDriverCommand::CloseWindow => "WebDriver:CloseWindow"@,
        WebDriverCommand::DeleteCookie(_) => "WebDriver:DeleteCookie"@,
        WebDriverCommand::DeleteCookies => "WebDriver:DeleteAllCookies"@,
        WebDriverCommand::DeleteSession => "Marionette:Quit"@,
        WebDriverCommand::DismissAlert => "WebDriver:DismissAlert"@,
        WebDriverCommand::ElementClear(_) => "WebDriver:ElementClear"@,
        WebDriverCommand::ElementClick(_) => "WebDriver:ElementClick"@,
        WebDriverCommand::ElementSendKeys(_, _) => "WebDriver:ElementSendKeys"@,
        WebDriverCommand::ElementTap(_) => "singleTap"@,
        WebDriverCommand::ExecuteAsyncScript(_) => "WebDriver:ExecuteAsyncScript"@,
        WebDriverCommand::ExecuteScript(_) => "WebDriver:ExecuteScript"@,
        WebDriverCommand::FindElement(_) => "WebDriver:FindElement"@,
        WebDriverCommand::FindElementElement(_, _) => "WebDriver:FindElement"@,
        WebDriverCommand::FindElements(_) => "WebDriver:FindElements"@,
        WebDriverCommand::FindElementElements(_, _) => "WebDriver:FindElements"@,
        WebDriverCommand::FullscreenWindow => "WebDriver:FullscreenWindow"@,
        WebDriverCommand::Get(_) => "WebDriver:Navigate"@,
        WebDriverCommand::GetAlertText => "WebDriver:GetAlertText"@,
        WebDriverCommand::GetActiveElement => "WebDriver:GetActiveElement"@,
        WebDriverCommand::GetCookies => "WebDriver:GetCookies"@,
        WebDriverCommand::GetNamedCookie(_) => "WebDriver:GetCookies"@,
        WebDriverCommand::GetCurrentUrl => "WebDriver:GetCurrentURL"@,
        WebDriverCommand::GetCSSValue(_, _) => "WebDriver:GetElementCSSValue"@,
        WebDriverCommand::GetElementAttribute(_, _) => "WebDriver:GetElementAttribute"@,
        WebDriverCommand::GetElementProperty(_, _) => "WebDriver:GetElementProperty"@,
        WebDriverCommand::GetElementRect(_) => "WebDriver:GetElementRect"@,
        WebDriverCommand::GetElementTagName(_) => "WebDriver:GetElementTagName"@,
        WebDriverCommand::GetElementText(_) => "WebDriver:GetElementText"@,
        WebDriverCommand::GetPageSource => "WebDriver:GetPageSource"@,
        WebDriverCommand::GetTimeouts => "WebDriver:GetTimeouts"@,
        WebDriverCommand::GetTitle => "WebDriver:GetTitle"@,
        WebDriverCommand::GetWindowHandle => "WebDriver:GetWindowHandle"@,
        WebDriverCommand::GetWindowHandles => "WebDriver:GetWindowHandles"@,
        WebDriverCommand::GetWindowRect => "WebDriver:GetWindowRect"@,
        WebDriverCommand::GoBack => "WebDriver:Back"@,
        WebDriverCommand::GoForward => "WebDriver:Forward"@,
        WebDriverCommand::IsDisplayed(_) => "WebDriver:IsElementDisplayed"@,
        WebDriverCommand::IsEnabled(_) => "WebDriver:IsElementEnabled"@,
        WebDriverCommand::IsSelected(_) => "WebDriver:IsElementSelected"@,
        WebDriverCommand::MaximizeWindow => "WebDriver:MaximizeWindow"@,
        WebDriverCommand::MinimizeWindow => "WebDriver:MinimizeWindow"@,
        WebDriverCommand::NewSession(_) => "WebDriver:NewSession"@,
        WebDriverCommand::PerformActions(_) => "WebDriver:PerformActions"@,
        WebDriverCommand::Refresh => "WebDriver:Refresh"@,
        WebDriverCommand::ReleaseActions => "WebDriver:ReleaseActions"@,
        WebDriverCommand::SendAlertText(_) => "WebDriver:SendAlertText"@,
        WebDriverCommand::SetTimeouts(_) => "WebDriver:SetTimeouts"@,
        WebDriverCommand::SetWindowRect(_) => "WebDriver:SetWindowRect"@,
        WebDriverCommand::SwitchToFrame(_) => "WebDriver:SwitchToFrame"@,
        WebDriverCommand::SwitchToParentFrame => "WebDriver:SwitchToParentFrame"@,
        WebDriverCommand::SwitchToWindow(_) => "WebDriver:SwitchToWindow"@,
        WebDriverCommand::TakeElementScreenshot(_) => "WebDriver:TakeScreenshot"@,
        WebDriverCommand::TakeScreenshot => "WebDriver:TakeScreenshot"@,
        WebDriverCommand::Status => Seq::empty(),
        WebDriverCommand::Extension(x) => match x {
            GeckoExtensionCommand::GetContext => "Marionette:GetContext"@,
            GeckoExtensionCommand::InstallAddon(_) => "Addon:Install"@,
            GeckoExtensionCommand::SetContext(_) => "Marionette:SetContext"@,
            GeckoExtensionCommand::UninstallAddon(_) => "Addon:Uninstall"@,
            GeckoExtensionCommand::XblAnonymousByAttribute(_, _) => "WebDriver:FindElement"@,
            GeckoExtensionCommand::XblAnonymousChildren(_) => "WebDriver:FindElements"@,
        },
    }
}

/// The parameters that go with a command on the wire; `caps` are the
/// capabilities negotiated for a new session.
pub open spec fn wire_params(c: WebDriverCommand, caps: Seq<(Seq<char>, JsonV)>) -> Seq<(Seq<char>, JsonV)> {
    match c {
        WebDriverCommand::AddCookie(x) => seq![("cookie"@, cookie_value(x))],
        WebDriverCommand::DeleteCookie(name) => seq![("name"@, JsonV::String(name@))],
        WebDriverCommand::DeleteSession => seq![("flags"@, JsonV::Array(seq![JsonV::String("eForceQuit"@)]))],
        WebDriverCommand::ElementClear(e) => id_params(e),
        WebDriverCommand::ElementClick(e) => id_params(e),
        WebDriverCommand::ElementSendKeys(e, x) => seq![
            ("id"@, JsonV::String(e.id@)),
            ("text"@, JsonV::String(x.text@)),
            ("value"@, keys_value(x.text@)),
        ],
        WebDriverCommand::ElementTap(e) => id_params(e),
        WebDriverCommand::ExecuteAsyncScript(x) => script_params(x),
        WebDriverCommand::ExecuteScript(x) => script_params(x),
        WebDriverCommand::FindElement(x) => locator_params(x),
        WebDriverCommand::FindElementElement(e, x) => locator_params(x).push(("element"@, JsonV::String(e.id@))),
        WebDriverCommand::FindElements(x) => locator_params(x),
        WebDriverCommand::FindElementElements(e, x) => locator_params(x).push(("element"@, JsonV::String(e.id@))),
        WebDriverCommand::Get(x) => seq![("url"@, JsonV::String(x.url@))],
        WebDriverCommand::GetCSSValue(e, x) => seq![("id"@, JsonV::String(e.id@)), ("propertyName"@, JsonV::String(x@))],
        WebDriverCommand::GetElementAttribute(e, x) => seq![("id"@, JsonV::String(e.id@)), ("name"@, JsonV::String(x@))],
        WebDriverCommand::GetElementProperty(e, x) => seq![("id"@, JsonV::String(e.id@)), ("name"@, JsonV::String(x@))],
        WebDriverCommand::GetElementRect(e) => id_params(e),
        WebDriverCommand::GetElementTagName(e) => id_params(e),
        WebDriverCommand::GetElementText(e) => id_params(e),
        WebDriverCommand::IsDisplayed(e) => id_params(e),
        WebDriverCommand::IsEnabled(e) => id_params(e),
        WebDriverCommand::IsSelected(e) => id_params(e),
        WebDriverCommand::NewSession(_) => caps,
        WebDriverCommand::PerformActions(x) => seq![("actions"@, JsonV::Array(json_seq_view(x.actions@)))],
        WebDriverCommand::SendAlertText(x) => seq![("text"@, JsonV::String(x.text@)), ("value"@, keys_value(x.text@))],
        WebDriverCommand::SetTimeouts(x) => seq![
            ("script"@, opt_u64_value(x.script)),
            ("pageLoad"@, opt_u64_value(x.page_load)),
            ("implicit"@, opt_u64_value(x.implicit)),
        ],
        WebDriverCommand::SetWindowRect(x) => seq![
            ("x"@, opt_i64_value(x.x)),
            ("y"@, opt_i64_value(x.y)),
            ("width"@, opt_u64_value(x.width)),
            ("height"@, opt_u64_value(x.height)),
        ],
        WebDriverCommand::SwitchToFrame(x) => frame_params(x),
        WebDriverCommand::SwitchToWindow(x) => seq![("name"@, JsonV::String(x.handle@))],
        WebDriverCommand::TakeElementScreenshot(e) => seq![
            ("element"@, element_value(e)),
            ("highlights"@, JsonV::Array(Seq::empty())),
            ("full"@, JsonV::Bool(false)),
        ],
        WebDriverCommand::TakeScreenshot => seq![
            ("id"@, JsonV::Null),
            ("highlights"@, JsonV::Array(Seq::empty())),
            ("full"@, JsonV::Bool(false)),
        ],
        WebDriverCommand::Extension(x) => match x {
            GeckoExtensionCommand::InstallAddon(p) => seq![("path"@, JsonV::String(p.path@)), ("temporary"@, JsonV::Bool(p.temporary))],
            GeckoExtensionCommand::SetContext(p) => seq![("value"@, JsonV::String(context_name(p.context)))],
            GeckoExtensionCommand::UninstallAddon(p) => seq![("id"@, JsonV::String(p.id@))],
            GeckoExtensionCommand::XblAnonymousByAttribute(e, p) => seq![
                ("using"@, JsonV::String("anon attribute"@)),
                ("value"@, JsonV::Object(seq![(p.name@, JsonV::String(p.value@))])),
                ("element"@, JsonV::String(e.id@)),
            ],
            GeckoExtensionCommand::XblAnonymousChildren(e) => seq![
                ("using"@, JsonV::String("anon"@)),
                ("value"@, JsonV::Null),
                ("element"@, JsonV::String(e.id@)),
            ],
            GeckoExtensionCommand::GetContext => Seq::empty(),
        },
        _ => Seq::empty(),
    }
}

fn entry(k: &str, v: Json) -> (r: (String, Json))
    ensures
        r.0@ == k@,
        r.1@ == v@,
{
    (k.to_string(), v)
}

fn string(s: &String) -> (r: Json)
    ensures
        r@ == JsonV::String(s@),
{
    Json::String(s.clone())
}

fn literal(s: &str) -> (r: Json)
    ensures
        r@ == JsonV::String(s@),
{
    Json::String(s.to_string())
}

fn obj1(a: (String, Json)) -> (r: Capabilities)
    ensures
        members_view(r@) == seq![(a.0@, a.1@)],
{
    let ghost va = (a.0@, a.1@);
    let r = vec![a];
    assert(members_view(r@) =~= seq![va]);
    r
}

fn obj2(a: (String, Json), b: (String, Json)) -> (r: Capabilities)
    ensures
        members_view(r@) == seq![(a.0@, a.1@), (b.0@, b.1@)],
{
    let ghost (va, vb) = ((a.0@, a.1@), (b.0@, b.1@));
    let r = vec![a, b];
    assert(members_view(r@) =~= seq![va, vb]);
    r
}

fn obj3(a: (String, Json), b: (String, Json), c: (String, Json)) -> (r: Capabilities)
    ensures
        members_view(r@) == seq![(a.0@, a.1@), (b.0@, b.1@), (c.0@, c.1@)],
{
    let ghost (va, vb, vc) = ((a.0@, a.1@), (b.0@, b.1@), (c.0@, c.1@));
    let r = vec![a, b, c];
    assert(members_view(r@) =~= seq![va, vb, vc]);
    r
}

fn obj4(a: (String, Json), b: (String, Json), c: (String, Json), d: (String, Json)) -> (r: Capabilities)
    ensures
        members_view(r@) == seq![(a.0@, a.1@), (b.0@, b.1@), (c.0@, c.1@), (d.0@, d.1@)],
{
    let ghost (va, vb, vc, vd) = ((a.0@, a.1@), (b.0@, b.1@), (c.0@, c.1@), (d.0@, d.1@));
    let r = vec![a, b, c, d];
    assert(members_view(r@) =~= seq![va, vb, vc, vd]);
    r
}

fn obj5(a: (String, Json), b: (String, Json), c: (String, Json), d: (String, Json), e: (String, Json)) -> (r: Capabilities)
    ensures
        members_view(r@) == seq![(a.0@, a.1@), (b.0@, b.1@), (c.0@, c.1@), (d.0@, d.1@), (e.0@, e.1@)],
{
    let ghost (va, vb, vc, vd, ve) = ((a.0@, a.1@), (b.0@, b.1@), (c.0@, c.1@), (d.0@, d.1@), (e.0@, e.1@));
    let r = vec![a, b, c, d, e];
    assert(members_view(r@) =~= seq![va, vb, vc, vd, ve]);
    r
}

fn object(m: Capabilities) -> (r: Json)
    ensures
        r@ == JsonV::Object(members_view(m@)),
{
    let r = Json::Object(m);
    proof {
        lemma_object_view(m);
        assert(r@->Object_0 =~= members_view(m@));
    }
    r
}

fn clone_array(v: &Vec<Json>) -> (r: Json)
    ensures
        r@ == JsonV::Array(json_seq_view(v@)),
{
    let mut out: Vec<Json> = Vec::new();
    let mut i: usize = 0;
    while i < v.len()
        invariant
            i <= v@.len(),
            out@.len() == i,
            forall|k: int| 0 <= k < i ==> (#[trigger] out@[k])@ == v@[k]@,
        decreases v@.len() - i,
    {
        out.push(clone_json(&v[i]));
        i += 1;
    }
    let r = Json::Array(out);
    proof {
        lemma_array_view(out);
        assert(r@->Array_0 =~= json_seq_view(v@));
    }
    r
}

fn empty_array() -> (r: Json)
    ensures
        r@ == JsonV::Array(Seq::empty()),
{
    let v: Vec<Json> = Vec::new();
    let r = Json::Array(v);
    proof {
        lemma_array_view(v);
        assert(r@->Array_0 =~= Seq::<JsonV>::empty());
    }
    r
}

/// The JSON form of an element reference.
pub fn element_json(e: &WebElement) -> (r: Json)
    ensures
        r@ == element_value(*e),
{
    object(obj1(entry(ELEMENT_KEY, string(&e.id))))
}

fn id_object(e: &WebElement) -> (r: Capabilities)
    ensures
        members_view(r@) == id_params(*e),
{
    obj1(entry("id", string(&e.id)))
}

fn locator_object(x: &LocatorParameters) -> (r: Capabilities)
    ensures
        members_view(r@) == locator_params(*x),
{
    let using = match x.using {
        LocatorStrategy::CSSSelector => "css selector",
        LocatorStrategy::LinkText => "link text",
        LocatorStrategy::PartialLinkText => "partial link text",
        LocatorStrategy::TagName => "tag name",
        LocatorStrategy::XPath => "xpath",
    };
    obj2(entry("using", literal(using)), entry("value", string(&x.value)))
}

fn u64_json(o: Option<u64>) -> (r: Json)
    ensures
        r@ == opt_u64_value(o),
{
    match o {
        Some(u) => Json::Number(Number::PosInt(u)),
        None => Json::Null,
    }
}

fn i64_json(o: Option<i64>) -> (r: Json)
    ensures
        r@ == opt_i64_value(o),
{
    match o {
        Some(i) => if i >= 0 {
            Json::Number(Number::PosInt(i as u64))
        } else {
            Json::Number(Number::NegInt(i))
        },
        None => Json::Null,
    }
}

fn script_object(x: &JavascriptCommandParameters) -> (r: Capabilities)
    ensures
        members_view(r@) == script_params(*x),
{
    let args = match &x.args {
        Some(a) => clone_array(a),
        None => Json::Null,
    };
    obj5(
        entry("script", string(&x.script)),
        entry("args", args),
        entry("newSandbox", Json::Bool(false)),
        entry("specialPowers", Json::Bool(false)),
        entry("scriptTimeout", Json::Null),
    )
}

/// One string for each character of `text`.
pub fn keys_json(text: &String) -> (r: Json)
    ensures
        r@ == keys_value(text@),
{
    let n = text.as_str().unicode_len();
    let mut out: Vec<Json> = Vec::new();
    let mut i: usize = 0;
    while i < n
        invariant
            n == text@.len(),
            i <= n,
            out@.len() == i,
            forall|k: int| 0 <= k < i ==> (#[trigger] out@[k])@ == JsonV::String(seq![text@[k]]),
        decreases n - i,
    {
        let c = text.as_str().substring_char(i, i + 1);
        assert(c@ =~= seq![text@[i as int]]);
        out.push(Json::String(c.to_string()));
        i += 1;
    }
    let r = Json::Array(out);
    proof {
        lemma_array_view(out);
        assert(r@->Array_0 =~= keys_value(text@)->Array_0);
    }
    r
}

fn cookie_json(x: &AddCookieParameters) -> (r: Json)
    ensures
        r@ == cookie_value(*x),
{
    let mut m = obj2(entry("name", string(&x.name)), entry("value", string(&x.value)));
    let ghost head = members_view(m@);
    match &x.path {
        Some(p) => {
            let ghost before = m@;
            m.push(entry("path", string(p)));
            assert(members_view(m@) =~= members_view(before).push(("path"@, JsonV::String(p@))));
        },
        None => {},
    }
    assert(members_view(m@) =~= head + optional_member("path"@, opt_string_value(x.path)));
    let ghost head = members_view(m@);
    match &x.domain {
        Some(d) => {
            let ghost before = m@;
            m.push(entry("domain", string(d)));
            assert(members_view(m@) =~= members_view(before).push(("domain"@, JsonV::String(d@))));
        },
        None => {},
    }
    assert(members_view(m@) =~= head + optional_member("domain"@, opt_string_value(x.domain)));
    let ghost head = members_view(m@);
    match x.expiry {
        Some(e) => {
            let ghost before = m@;
            m.push(entry("expiry", Json::Number(Number::PosInt(e))));
            assert(members_view(m@) =~= members_view(before).push(("expiry"@, JsonV::Number(Number::PosInt(e)))));
        },
        None => {},
    }
    let ghost expiry = optional_member("expiry"@, match x.expiry {
        Some(e) => Some(JsonV::Number(Number::PosInt(e))),
        None => None,
    });
    assert(members_view(m@) =~= head + expiry);
    let ghost head = members_view(m@);
    m.push(entry("secure", Json::Bool(x.secure)));
    m.push(entry("httpOnly", Json::Bool(x.http_only)));
    assert(members_view(m@) =~= head + seq![("secure"@, JsonV::Bool(x.secure)), ("httpOnly"@, JsonV::Bool(x.http_only))]);
    let r = object(m);
    assert(r@->Object_0 =~= cookie_value(*x)->Object_0);
    r
}

fn frame_object(x: &SwitchToFrameParameters) -> (r: Capabilities)
    ensures
        members_view(r@) == frame_params(*x),
{
    match &x.id {
        None => {
            let r: Capabilities = Vec::new();
            assert(members_view(r@) =~= Seq::<(Seq<char>, JsonV)>::empty());
            r
        },
        Some(FrameId::Short(n)) => obj1(entry("id", Json::Number(Number::PosInt(*n as u64)))),
        Some(FrameId::Element(e)) => obj1(entry("element", element_json(e))),
    }
}

fn with_element(mut m: Capabilities, e: &WebElement) -> (r: Capabilities)
    ensures
        members_view(r@) == members_view(m@).push(("element"@, JsonV::String(e.id@))),
{
    let ghost before = m@;
    m.push(entry("element", string(&e.id)));
    assert(members_view(m@) =~= members_view(before).push(("element"@, JsonV::String(e.id@))));
    m
}

fn no_params() -> (r: Capabilities)
    ensures
        members_view(r@) == Seq::<(Seq<char>, JsonV)>::empty(),
{
    let r: Capabilities = Vec::new();
    assert(members_view(r@) =~= Seq::<(Seq<char>, JsonV)>::empty());
    r
}

impl MarionetteCommand {
    /// Puts a command in the form the remote end understands, under
    /// command id `id`; a new-session command carries the negotiated
    /// `capabilities`.
    pub fn from_webdriver_message(id: u64, capabilities: Option<Capabilities>, msg: &WebDriverMessage) -> (r: WebDriverResult<MarionetteCommand>)
        requires
            !(msg.command is Status),
            msg.command is NewSession ==> capabilities is Some,
        ensures
            r matches Ok(c) && c.id == id && c.name@ == wire_name(msg.command)
                && members_view(c.params@) == wire_params(msg.command, match capabilities {
                    Some(caps) => members_view(caps@),
                    None => Seq::empty(),
                }),
    {
        let (name, params): (&str, Capabilities) = match &msg.command {
            WebDriverCommand::Status => ("", no_params()),
            WebDriverCommand::AcceptAlert => ("WebDriver:AcceptDialog", no_params()),
            WebDriverCommand::AddCookie(x) => ("WebDriver:AddCookie", obj1(entry("cookie", cookie_json(x)))),
            WebDriverCommand::CloseWindow => ("WebDriver:CloseWindow", no_params()),
            WebDriverCommand::DeleteCookie(x) => ("WebDriver:DeleteCookie", obj1(entry("name", string(x)))),
            WebDriverCommand::DeleteCookies => ("WebDriver:DeleteAllCookies", no_params()),
            WebDriverCommand::DeleteSession => {
                let fv = vec![literal("eForceQuit")];
                let flags = Json::Array(fv);
                proof {
                    lemma_array_view(fv);
                    assert(flags@->Array_0 =~= seq![JsonV::String("eForceQuit"@)]);
                }
                ("Marionette:Quit", obj1(entry("flags", flags)))
            },
            WebDriverCommand::DismissAlert => ("WebDriver:DismissAlert", no_params()),
            WebDriverCommand::ElementClear(e) => ("WebDriver:ElementClear", id_object(e)),
            WebDriverCommand::ElementClick(e) => ("WebDriver:ElementClick", id_object(e)),
            WebDriverCommand::ElementSendKeys(e, x) => (
                "WebDriver:ElementSendKeys",
                obj3(entry("id", string(&e.id)), entry("text", string(&x.text)), entry("value", keys_json(&x.text))),
            ),
            WebDriverCommand::ElementTap(e) => ("singleTap", id_object(e)),
            WebDriverCommand::ExecuteAsyncScript(x) => ("WebDriver:ExecuteAsyncScript", script_object(x)),
            WebDriverCommand::ExecuteScript(x) => ("WebDriver:ExecuteScript", script_object(x)),
            WebDriverCommand::FindElement(x) => ("WebDriver:FindElement", locator_object(x)),
            WebDriverCommand::FindElementElement(e, x) => ("WebDriver:FindElement", with_element(locator_object(x), e)),
            WebDriverCommand::FindElements(x) => ("WebDriver:FindElements", locator_object(x)),
            WebDriverCommand::FindElementElements(e, x) => ("WebDriver:FindElements", with_element(locator_object(x), e)),
            WebDriverCommand::FullscreenWindow => ("WebDriver:FullscreenWindow", no_params()),
            WebDriverCommand::Get(x) => ("WebDriver:Navigate", obj1(entry("url", string(&x.url)))),
            WebDriverCommand::GetAlertText => ("WebDriver:GetAlertText", no_params()),
            WebDriverCommand::GetActiveElement => ("WebDriver:GetActiveElement", no_params()),
            WebDriverCommand::GetCookies => ("WebDriver:GetCookies", no_params()),
            WebDriverCommand::GetNamedCookie(_) => ("WebDriver:GetCookies", no_params()),
            WebDriverCommand::GetCurrentUrl => ("WebDriver:GetCurrentURL", no_params()),
            WebDriverCommand::GetCSSValue(e, x) => (
                "WebDriver:GetElementCSSValue",
                obj2(entry("id", string(&e.id)), entry("propertyName", string(x))),
            ),
            WebDriverCommand::GetElementAttribute(e, x) => (
                "WebDriver:GetElementAttribute",
                obj2(entry("id", string(&e.id)), entry("name", string(x))),
            ),
            WebDriverCommand::GetElementProperty(e, x) => (
                "WebDriver:GetElementProperty",
                obj2(entry("id", string(&e.id)), entry("name", string(x))),
            ),
            WebDriverCommand::GetElementRect(e) => ("WebDriver:GetElementRect", id_object(e)),
            WebDriverCommand::GetElementTagName(e) => ("WebDriver:GetElementTagName", id_object(e)),
            WebDriverCommand::GetElementText(e) => ("WebDriver:GetElementText", id_object(e)),
            WebDriverCommand::GetPageSource => ("WebDriver:GetPageSource", no_params()),
            WebDriverCommand::GetTimeouts => ("WebDriver:GetTimeouts", no_params()),
            WebDriverCommand::GetTitle => ("WebDriver:GetTitle", no_params()),
            WebDriverCommand::GetWindowHandle => ("WebDriver:GetWindowHandle", no_params()),
            WebDriverCommand::GetWindowHandles => ("WebDriver:GetWindowHandles", no_params()),
            WebDriverCommand::GetWindowRect => ("WebDriver:GetWindowRect", no_params()),
            WebDriverCommand::GoBack => ("WebDriver:Back", no_params()),
            WebDriverCommand::GoForward => ("WebDriver:Forward", no_params()),
            WebDriverCommand::IsDisplayed(e) => ("WebDriver:IsElementDisplayed", id_object(e)),
            WebDriverCommand::IsEnabled(e) => ("WebDriver:IsElementEnabled", id_object(e)),
            WebDriverCommand::IsSelected(e) => ("WebDriver:IsElementSelected", id_object(e)),
            WebDriverCommand::MaximizeWindow => ("WebDriver:MaximizeWindow", no_params()),
            WebDriverCommand::MinimizeWindow => ("WebDriver:MinimizeWindow", no_params()),
            WebDriverCommand::NewSession(_) => {
                let caps = match &capabilities {
                    Some(c) => clone_capabilities(c),
                    None => no_params(),
                };
                ("WebDriver:NewSession", caps)
            },
            WebDriverCommand::PerformActions(x) => ("WebDriver:PerformActions", obj1(entry("actions", clone_array(&x.actions)))),
            WebDriverCommand::Refresh => ("WebDriver:Refresh", no_params()),
            WebDriverCommand::ReleaseActions => ("WebDriver:ReleaseActions", no_params()),
            WebDriverCommand::SendAlertText(x) => (
                "WebDriver:SendAlertText",
                obj2(entry("text", string(&x.text)), entry("value", keys_json(&x.text))),
            ),
            WebDriverCommand::SetTimeouts(x) => (
                "WebDriver:SetTimeouts",
                obj3(entry("script", u64_json(x.script)), entry("pageLoad", u64_json(x.page_load)), entry("implicit", u64_json(x.implicit))),
            ),
            WebDriverCommand::SetWindowRect(x) => (
                "WebDriver:SetWindowRect",
                obj4(entry("x", i64_json(x.x)), entry("y", i64_json(x.y)), entry("width", u64_json(x.width)), entry("height", u64_json(x.height))),
            ),
            WebDriverCommand::SwitchToFrame(x) => ("WebDriver:SwitchToFrame", frame_object(x)),
            WebDriverCommand::SwitchToParentFrame => ("WebDriver:SwitchToParentFrame", no_params()),
            WebDriverCommand::SwitchToWindow(x) => ("WebDriver:SwitchToWindow", obj1(entry("name", string(&x.handle)))),
            WebDriverCommand::TakeElementScreenshot(e) => (
                "WebDriver:TakeScreenshot",
                obj3(entry("element", element_json(e)), entry("highlights", empty_array()), entry("full", Json::Bool(false))),
            ),
            WebDriverCommand::TakeScreenshot => (
                "WebDriver:TakeScreenshot",
                obj3(entry("id", Json::Null), entry("highlights", empty_array()), entry("full", Json::Bool(false))),
            ),
            WebDriverCommand::Extension(x) => match x {
                GeckoExtensionCommand::GetContext => ("Marionette:GetContext", no_params()),
                GeckoExtensionCommand::InstallAddon(p) => (
                    "Addon:Install",
                    obj2(entry("path", string(&p.path)), entry("temporary", Json::Bool(p.temporary))),
                ),
                GeckoExtensionCommand::SetContext(p) => {
                    let context = match p.context {
                        GeckoContext::Content => "content",
                        GeckoContext::Chrome => "chrome",
                    };
                    ("Marionette:SetContext", obj1(entry("value", literal(context))))
                },
                GeckoExtensionCommand::UninstallAddon(p) => ("Addon:Uninstall", obj1(entry("id", string(&p.id)))),
                GeckoExtensionCommand::XblAnonymousByAttribute(e, p) => {
                    let value = object(obj1((p.name.clone(), string(&p.value))));
                    (
                        "WebDriver:FindElement",
                        obj3(entry("using", literal("anon attribute")), entry("value", value), entry("element", string(&e.id))),
                    )
                },
                GeckoExtensionCommand::XblAnonymousChildren(e) => (
                    "WebDriver:FindElements",
                    obj3(entry("using", literal("anon")), entry("value", Json::Null), entry("element", string(&e.id))),
                ),
            },
        };
        Ok(MarionetteCommand::new(id, name.to_string(), params))
    }
}

} // verus!
