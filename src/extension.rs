use vstd::prelude::*;
use crate::command::{
    AddonInstallParameters, AddonUninstallParameters, GeckoContext, GeckoContextParameters, GeckoExtensionCommand,
    WebElement, XblLocatorParameters,
};
use crate::error::{ErrorStatus, WebDriverError, WebDriverResult};
use crate::json::{Json, JsonV, members_view, get_member, json_get, lemma_object_view, str_eq};

verus! {

/// The HTTP methods the extension routes use.
#[derive(PartialEq, Eq, Structural, Clone, Copy, Debug)]
pub enum HttpMethod {
    Get,
    Post,
}

/// The browser-specific endpoints.
#[derive(PartialEq, Eq, Structural, Clone, Copy, Debug)]
pub enum GeckoExtensionRoute {
    GetContext,
    SetContext,
    XblAnonymousChildren,
    XblAnonymousByAttribute,
    InstallAddon,
    UninstallAddon,
}

/// The method, path pattern and route of each browser-specific endpoint.
pub fn extension_routes() -> (r: Vec<(HttpMethod, &'static str, GeckoExtensionRoute)>)
    ensures
        r@.len() == 6,
        r@[0].0 == HttpMethod::Get && r@[0].1@ == "/session/{sessionId}/moz/context"@ && r@[0].2 == GeckoExtensionRoute::GetContext,
        r@[1].0 == HttpMethod::Post && r@[1].1@ == "/session/{sessionId}/moz/context"@ && r@[1].2 == GeckoExtensionRoute::SetContext,
        r@[2].0 == HttpMethod::Post && r@[2].1@ == "/session/{sessionId}/moz/xbl/{elementId}/anonymous_children"@
            && r@[2].2 == GeckoExtensionRoute::XblAnonymousChildren,
        r@[3].0 == HttpMethod::Post && r@[3].1@ == "/session/{sessionId}/moz/xbl/{elementId}/anonymous_by_attribute"@
            && r@[3].2 == GeckoExtensionRoute::XblAnonymousByAttribute,
        r@[4].0 == HttpMethod::Post && r@[4].1@ == "/session/{sessionId}/moz/addon/install"@ && r@[4].2 == GeckoExtensionRoute::InstallAddon,
        r@[5].0 == HttpMethod::Post && r@[5].1@ == "/session/{sessionId}/moz/addon/uninstall"@ && r@[5].2 == GeckoExtensionRoute::UninstallAddon,
{
    vec![
        (HttpMethod::Get, "/session/{sessionId}/moz/context", GeckoExtensionRoute::GetContext),
        (HttpMethod::Post, "/session/{sessionId}/moz/context", GeckoExtensionRoute::SetContext),
        (HttpMethod::Post, "/session/{sessionId}/moz/xbl/{elementId}/anonymous_children", GeckoExtensionRoute::XblAnonymousChildren),
        (HttpMethod::Post, "/session/{sessionId}/moz/xbl/{elementId}/anonymous_by_attribute", GeckoExtensionRoute::XblAnonymousByAttribute),
        (HttpMethod::Post, "/session/{sessionId}/moz/addon/install", GeckoExtensionRoute::InstallAddon),
        (HttpMethod::Post, "/session/{sessionId}/moz/addon/uninstall", GeckoExtensionRoute::UninstallAddon),
    ]
}

/// Whether `v` is an object whose every key is `a` or `b`.
pub open spec fn only_keys(v: JsonV, a: Seq<char>, b: Seq<char>) -> bool {
    v matches JsonV::Object(o) && forall|i: int| 0 <= i < o.len() ==> (#[trigger] o[i]).0 == a || o[i].0 == b
}

pub open spec fn string_member(v: JsonV, k: Seq<char>) -> Option<Seq<char>> {
    match get_member(v, k) {
        Some(JsonV::String(s)) => Some(s),
        _ => None,
    }
}

pub open spec fn bool_member(v: JsonV, k: Seq<char>) -> Option<bool> {
    match get_member(v, k) {
        Some(JsonV::Bool(b)) => Some(b),
        _ => None,
    }
}

/// The body of an add-on install request: the add-on's path, or its bytes in base64.
pub enum AddonBody {
    Path { path: String, temporary: bool },
    Base64 { addon: String, temporary: bool },
}

/// How an install body reads: `{addon, temporary}` first, else `{path,
/// temporary}`; no other member is allowed, and both are needed.
pub open spec fn addon_body_of(v: JsonV) -> Option<(bool, Seq<char>, bool)> {
    if only_keys(v, "addon"@, "temporary"@) && string_member(v, "addon"@) is Some && bool_member(v, "temporary"@) is Some {
        Some((true, string_member(v, "addon"@)->Some_0, bool_member(v, "temporary"@)->Some_0))
    } else if only_keys(v, "path"@, "temporary"@) && string_member(v, "path"@) is Some && bool_member(v, "temporary"@) is Some {
        Some((false, string_member(v, "path"@)->Some_0, bool_member(v, "temporary"@)->Some_0))
    } else {
        None
    }
}

fn bad_body(message: &str) -> (r: WebDriverError)
    ensures
        r.status == ErrorStatus::InvalidArgument,
        !r.delete_session,
{
    WebDriverError::new(ErrorStatus::InvalidArgument, message)
}

fn keys_within(body: &Json, a: &str, b: &str) -> (r: bool)
    ensures
        r == only_keys(body@, a@, b@),
{
    match body {
        Json::Object(m) => {
            proof {
                lemma_object_view(*m);
            }
            let mut i: usize = 0;
            while i < m.len()
                invariant
                    *body == Json::Object(*m),
                    i <= m@.len(),
                    forall|j: int| 0 <= j < i ==> (#[trigger] body@->Object_0[j]).0 == a@ || body@->Object_0[j].0 == b@,
                decreases m@.len() - i,
            {
                proof {
                    lemma_object_view(*m);
                }
                let k = m[i].0.as_str();
                if !(str_eq(k, a) || str_eq(k, b)) {
                    assert(!((body@->Object_0[i as int]).0 == a@ || body@->Object_0[i as int].0 == b@));
                    return false;
                }
                i += 1;
            }
            proof {
                lemma_object_view(*m);
            }
            true
        },
        _ => false,
    }
}

fn string_of(body: &Json, k: &str) -> (r: Option<String>)
    ensures
        match r {
            Some(s) => string_member(body@, k@) == Some(s@),
            None => string_member(body@, k@) is None,
        },
{
    match json_get(body, k) {
        Some(Json::String(s)) => Some(s.clone()),
        _ => None,
    }
}

fn bool_of(body: &Json, k: &str) -> (r: Option<bool>)
    ensures
        r == bool_member(body@, k@),
{
    match json_get(body, k) {
        Some(Json::Bool(b)) => Some(*b),
        _ => None,
    }
}

impl AddonBody {
    /// Reads the body of an add-on install request.
    pub fn from_json(body: &Json) -> (r: WebDriverResult<AddonBody>)
        ensures
            r is Ok <==> addon_body_of(body@) is Some,
            r matches Ok(AddonBody::Base64 { addon, temporary }) ==> addon_body_of(body@) == Some((true, addon@, temporary)),
            r matches Ok(AddonBody::Path { path, temporary }) ==> addon_body_of(body@) == Some((false, path@, temporary)),
            r matches Err(e) ==> e.status == ErrorStatus::InvalidArgument,
    {
        if keys_within(body, "addon", "temporary") {
            match (string_of(body, "addon"), bool_of(body, "temporary")) {
                (Some(addon), Some(temporary)) => {
                    return Ok(AddonBody::Base64 { addon, temporary });
                },
                _ => {},
            }
        }
        if keys_within(body, "path", "temporary") {
            match (string_of(body, "path"), bool_of(body, "temporary")) {
                (Some(path), Some(temporary)) => {
                    return Ok(AddonBody::Path { path, temporary });
                },
                _ => {},
            }
        }
        Err(bad_body("expected either {addon, temporary} or {path, temporary}"))
    }
}

/// The bytes that the base64 text `s` encodes, or `None` where it is no valid base64.
pub uninterp spec fn base64_decoded(s: Seq<char>) -> Option<Seq<u8>>;

/// Relies on `base64::decode` (standard alphabet, with padding) to turn the
/// text into bytes, or to refuse it.
#[verifier::external_body]
fn decode_base64(s: &str) -> (r: Option<Vec<u8>>)
    ensures
        r is None <==> base64_decoded(s@) is None,
        r matches Some(b) ==> base64_decoded(s@) == Some(b@),
{
    base64::decode(s).ok()
}

/// An add-on install request, with the add-on's bytes decoded where they came inline.
pub enum AddonInstallRequest {
    /// Install the add-on at this path.
    Path(AddonInstallParameters),
    /// Write these bytes to a new file and install that.
    Data { bytes: Vec<u8>, temporary: bool },
}

impl AddonInstallRequest {
    /// Reads an install request; inline add-ons are decoded from base64,
    /// and one that does not decode is an invalid argument.
    pub fn from_json(body: &Json) -> (r: WebDriverResult<AddonInstallRequest>)
        ensures
            addon_body_of(body@) is None ==> (r matches Err(e) && e.status == ErrorStatus::InvalidArgument),
            addon_body_of(body@) matches Some((false, path, temporary)) ==> (r matches Ok(AddonInstallRequest::Path(p))
                && p.path@ == path && p.temporary == temporary),
            addon_body_of(body@) matches Some((true, text, temporary)) ==> match base64_decoded(text) {
                Some(bytes) => r matches Ok(AddonInstallRequest::Data { bytes: b, temporary: t }) && b@ == bytes && t == temporary,
                None => r matches Err(e) && e.status == ErrorStatus::InvalidArgument,
            },
    {
        match AddonBody::from_json(body)? {
            AddonBody::Path { path, temporary } => Ok(AddonInstallRequest::Path(AddonInstallParameters { path, temporary })),
            AddonBody::Base64 { addon, temporary } => match decode_base64(addon.as_str()) {
                Some(bytes) => Ok(AddonInstallRequest::Data { bytes, temporary }),
                None => Err(bad_body("addon is not valid base64")),
            },
        }
    }
}

impl AddonUninstallParameters {
    /// Reads `{id}`.
    pub fn from_json(body: &Json) -> (r: WebDriverResult<AddonUninstallParameters>)
        ensures
            r is Ok <==> string_member(body@, "id"@) is Some,
            r matches Ok(p) ==> string_member(body@, "id"@) == Some(p.id@),
            r matches Err(e) ==> e.status == ErrorStatus::InvalidArgument,
    {
        match string_of(body, "id") {
            Some(id) => Ok(AddonUninstallParameters { id }),
            None => Err(bad_body("missing or invalid id")),
        }
    }
}

pub open spec fn context_of(v: JsonV) -> Option<GeckoContext> {
    match string_member(v, "context"@) {
        Some(s) => if s == "content"@ {
            Some(GeckoContext::Content)
        } else if s == "chrome"@ {
            Some(GeckoContext::Chrome)
        } else {
            None
        },
        None => None,
    }
}

impl GeckoContextParameters {
    /// Reads `{context}`, which is `"content"` or `"chrome"`.
    pub fn from_json(body: &Json) -> (r: WebDriverResult<GeckoContextParameters>)
        ensures
            r is Ok <==> context_of(body@) is Some,
            r matches Ok(p) ==> context_of(body@) == Some(p.context),
            r matches Err(e) ==> e.status == ErrorStatus::InvalidArgument,
    {
        match string_of(body, "context") {
            Some(s) => {
                if str_eq(s.as_str(), "content") {
                    Ok(GeckoContextParameters { context: GeckoContext::Content })
                } else if str_eq(s.as_str(), "chrome") {
                    Ok(GeckoContextParameters { context: GeckoContext::Chrome })
                } else {
                    Err(bad_body("unknown context"))
                }
            },
            None => Err(bad_body("missing or invalid context")),
        }
    }
}

impl XblLocatorParameters {
    /// Reads `{name, value}`, both strings.
    pub fn from_json(body: &Json) -> (r: WebDriverResult<XblLocatorParameters>)
        ensures
            r is Ok <==> string_member(body@, "name"@) is Some && string_member(body@, "value"@) is Some,
            r matches Ok(p) ==> string_member(body@, "name"@) == Some(p.name@) && string_member(body@, "value"@) == Some(p.value@),
            r matches Err(e) ==> e.status == ErrorStatus::InvalidArgument,
    {
        match (string_of(body, "name"), string_of(body, "value")) {
            (Some(name), Some(value)) => Ok(XblLocatorParameters { name, value }),
            _ => Err(bad_body("name and value must be strings")),
        }
    }
}

/// A browser-specific command whose body is ready; an add-on that came
/// inline still has to be written to a file.
pub enum ExtensionRequest {
    Ready(GeckoExtensionCommand),
    AddonData { bytes: Vec<u8>, temporary: bool },
}

impl GeckoExtensionRoute {
    /// Builds the command for this route from the element id of its path,
    /// where it has one, and its request body.
    pub fn command(&self, element_id: Option<String>, body: &Json) -> (r: WebDriverResult<ExtensionRequest>)
        ensures
            *self == GeckoExtensionRoute::GetContext ==> r matches Ok(ExtensionRequest::Ready(GeckoExtensionCommand::GetContext)),
            (*self == GeckoExtensionRoute::XblAnonymousChildren || *self == GeckoExtensionRoute::XblAnonymousByAttribute)
                && element_id is None ==> (r matches Err(e) && e.status == ErrorStatus::InvalidArgument),
            *self == GeckoExtensionRoute::XblAnonymousChildren && element_id is Some ==> (r matches Ok(
                ExtensionRequest::Ready(GeckoExtensionCommand::XblAnonymousChildren(e))) && e.id == element_id->Some_0),
            *self == GeckoExtensionRoute::SetContext ==> (r is Ok <==> context_of(body@) is Some),
            *self == GeckoExtensionRoute::SetContext && context_of(body@) is Some ==> (r matches Ok(
                ExtensionRequest::Ready(GeckoExtensionCommand::SetContext(p))) && Some(p.context) == context_of(body@)),
            *self == GeckoExtensionRoute::UninstallAddon ==> (r is Ok <==> string_member(body@, "id"@) is Some),
            *self == GeckoExtensionRoute::UninstallAddon && r is Ok ==> (r matches Ok(
                ExtensionRequest::Ready(GeckoExtensionCommand::UninstallAddon(p))) && string_member(body@, "id"@) == Some(p.id@)),
            *self == GeckoExtensionRoute::XblAnonymousByAttribute && element_id is Some ==> (r is Ok <==> (
                string_member(body@, "name"@) is Some && string_member(body@, "value"@) is Some)),
            *self == GeckoExtensionRoute::XblAnonymousByAttribute && r is Ok ==> (r matches Ok(ExtensionRequest::Ready(
                GeckoExtensionCommand::XblAnonymousByAttribute(e, p))) && Some(e.id) == element_id
                && string_member(body@, "name"@) == Some(p.name@) && string_member(body@, "value"@) == Some(p.value@)),
            *self == GeckoExtensionRoute::InstallAddon && addon_body_of(body@) is None ==> r is Err,
            *self == GeckoExtensionRoute::InstallAddon ==> (addon_body_of(body@) matches Some((false, path, temporary))
                ==> (r matches Ok(ExtensionRequest::Ready(GeckoExtensionCommand::InstallAddon(p)))
                && p.path@ == path && p.temporary == temporary)),
            *self == GeckoExtensionRoute::InstallAddon ==> (addon_body_of(body@) matches Some((true, text, temporary))
                ==> match base64_decoded(text) {
                    Some(bytes) => r matches Ok(ExtensionRequest::AddonData { bytes: b, temporary: t })
                        && b@ == bytes && t == temporary,
                    None => r is Err,
                }),
    {
        match self {
            GeckoExtensionRoute::GetContext => Ok(ExtensionRequest::Ready(GeckoExtensionCommand::GetContext)),
            GeckoExtensionRoute::SetContext => {
                let p = GeckoContextParameters::from_json(body)?;
                Ok(ExtensionRequest::Ready(GeckoExtensionCommand::SetContext(p)))
            },
            GeckoExtensionRoute::XblAnonymousChildren => match element_id {
                Some(id) => Ok(ExtensionRequest::Ready(GeckoExtensionCommand::XblAnonymousChildren(WebElement::new(id)))),
                None => Err(bad_body("Missing elementId parameter")),
            },
            GeckoExtensionRoute::XblAnonymousByAttribute => match element_id {
                Some(id) => {
                    let p = XblLocatorParameters::from_json(body)?;
                    Ok(ExtensionRequest::Ready(GeckoExtensionCommand::XblAnonymousByAttribute(WebElement::new(id), p)))
                },
                None => Err(bad_body("Missing elementId parameter")),
            },
            GeckoExtensionRoute::InstallAddon => match AddonInstallRequest::from_json(body)? {
                AddonInstallRequest::Path(p) => Ok(ExtensionRequest::Ready(GeckoExtensionCommand::InstallAddon(p))),
                AddonInstallRequest::Data { bytes, temporary } => Ok(ExtensionRequest::AddonData { bytes, temporary }),
            },
            GeckoExtensionRoute::UninstallAddon => {
                let p = AddonUninstallParameters::from_json(body)?;
                Ok(ExtensionRequest::Ready(GeckoExtensionCommand::UninstallAddon(p)))
            },
        }
    }
}

fn object_of(members: Vec<(String, Json)>) -> (r: Json)
    ensures
        r@ == JsonV::Object(members_view(members@)),
{
    let ghost m = members;
    let r = Json::Object(members);
    proof {
        lemma_object_view(m);
        assert(r@->Object_0 =~= members_view(m@));
    }
    r
}

impl GeckoExtensionCommand {
    /// The request body of the command, for those that have one.
    pub fn parameters_json(&self) -> (r: Option<Json>)
        ensures
            match self {
                GeckoExtensionCommand::GetContext => r is None,
                GeckoExtensionCommand::XblAnonymousChildren(_) => r is None,
                GeckoExtensionCommand::InstallAddon(p) => r matches Some(j) && j@ == JsonV::Object(
                    seq![("path"@, JsonV::String(p.path@)), ("temporary"@, JsonV::Bool(p.temporary))]),
                GeckoExtensionCommand::SetContext(p) => r matches Some(j) && j@ == JsonV::Object(
                    seq![("context"@, JsonV::String(crate::request::context_name(p.context)))]),
                GeckoExtensionCommand::UninstallAddon(p) => r matches Some(j) && j@ == JsonV::Object(
                    seq![("id"@, JsonV::String(p.id@))]),
                GeckoExtensionCommand::XblAnonymousByAttribute(_, p) => r matches Some(j) && j@ == JsonV::Object(
                    seq![("name"@, JsonV::String(p.name@)), ("value"@, JsonV::String(p.value@))]),
            },
    {
        match self {
            GeckoExtensionCommand::GetContext => None,
            GeckoExtensionCommand::XblAnonymousChildren(_) => None,
            GeckoExtensionCommand::InstallAddon(p) => {
                let m = vec![("path".to_string(), Json::String(p.path.clone())), ("temporary".to_string(), Json::Bool(p.temporary))];
                assert(members_view(m@) =~= seq![("path"@, JsonV::String(p.path@)), ("temporary"@, JsonV::Bool(p.temporary))]);
                Some(object_of(m))
            },
            GeckoExtensionCommand::SetContext(p) => {
                let name = match p.context {
                    GeckoContext::Content => "content",
                    GeckoContext::Chrome => "chrome",
                };
                let m = vec![("context".to_string(), Json::String(name.to_string()))];
                assert(members_view(m@) =~= seq![("context"@, JsonV::String(crate::request::context_name(p.context)))]);
                Some(object_of(m))
            },
            GeckoExtensionCommand::UninstallAddon(p) => {
                let m = vec![("id".to_string(), Json::String(p.id.clone()))];
                assert(members_view(m@) =~= seq![("id"@, JsonV::String(p.id@))]);
                Some(object_of(m))
            },
            GeckoExtensionCommand::XblAnonymousByAttribute(_, p) => {
                let m = vec![("name".to_string(), Json::String(p.name.clone())), ("value".to_string(), Json::String(p.value.clone()))];
                assert(members_view(m@) =~= seq![("name"@, JsonV::String(p.name@)), ("value"@, JsonV::String(p.value@))]);
                Some(object_of(m))
            },
        }
    }
}

} // verus!
