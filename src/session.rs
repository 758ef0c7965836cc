use vstd::prelude::*;
use crate::command::{GeckoExtensionCommand, WebDriverCommand, WebDriverMessage};
use crate::error::{ErrorStatus, WebDriverError, WebDriverResult, status_of_code};
use crate::json::{Json, JsonV, members_view, get_member, insert_member, json_get, clone_json, object_insert, lemma_object_view};
use crate::message::{MarionetteHandshake, MarionetteResponse};
use crate::response::{
    ResponseV, WebDriverResponse, NewSessionResponse, last_named, timeouts_of, handles_of,
    element_rect_of, window_rect_of, cookies_of, element_ref, elements_of, elements_value, to_web_element,
    value_member, timeouts_response, handles_response, element_rect_response, window_rect_response,
    cookies_response, last_named_cookie, elements_response,
};

verus! {

/// The version of this driver, reported among a new session's capabilities.
pub const DRIVER_VERSION: &'static str = "0.21.0";

/// The capability under which the driver's version is reported.
pub const VERSION_CAPABILITY: &'static str = "moz:geckodriverVersion";

/// How the reply to a command is read.
pub enum ResponseKind {
    /// Nothing is returned.
    Void,
    /// The reply's `value` member is returned.
    Value,
    /// The whole reply is returned.
    Whole,
    Timeouts,
    Handles,
    ElementRect,
    WindowRect,
    Cookies,
    /// The last cookie with this name.
    NamedCookie(Seq<char>),
    /// One element reference, under the reply's `value` member.
    Element,
    /// The reply is a list of element references.
    Elements,
    NewSession,
    DeleteSession,
}

pub open spec fn response_kind(c: WebDriverCommand) -> ResponseKind {
    match c {
        WebDriverCommand::Get(_) | WebDriverCommand::GoBack | WebDriverCommand::GoForward | WebDriverCommand::Refresh
        | WebDriverCommand::SetTimeouts(_) | WebDriverCommand::SwitchToWindow(_) | WebDriverCommand::SwitchToFrame(_)
        | WebDriverCommand::SwitchToParentFrame | WebDriverCommand::AddCookie(_) | WebDriverCommand::DeleteCookies
        | WebDriverCommand::DeleteCookie(_) | WebDriverCommand::DismissAlert | WebDriverCommand::AcceptAlert
        | WebDriverCommand::SendAlertText(_) | WebDriverCommand::ElementClick(_) | WebDriverCommand::ElementTap(_)
        | WebDriverCommand::ElementClear(_) | WebDriverCommand::ElementSendKeys(_, _)
        | WebDriverCommand::PerformActions(_) | WebDriverCommand::ReleaseActions => ResponseKind::Void,
        WebDriverCommand::GetCurrentUrl | WebDriverCommand::GetTitle | WebDriverCommand::GetPageSource
        | WebDriverCommand::GetWindowHandle | WebDriverCommand::IsDisplayed(_) | WebDriverCommand::IsSelected(_)
        | WebDriverCommand::GetElementAttribute(_, _) | WebDriverCommand::GetElementProperty(_, _)
        | WebDriverCommand::GetCSSValue(_, _) | WebDriverCommand::GetElementText(_)
        | WebDriverCommand::GetElementTagName(_) | WebDriverCommand::IsEnabled(_) | WebDriverCommand::ExecuteScript(_)
        | WebDriverCommand::ExecuteAsyncScript(_) | WebDriverCommand::GetAlertText | WebDriverCommand::TakeScreenshot
        | WebDriverCommand::TakeElementScreenshot(_) => ResponseKind::Value,
        WebDriverCommand::GetTimeouts => ResponseKind::Timeouts,
        WebDriverCommand::GetWindowHandles => ResponseKind::Whole,
        WebDriverCommand::CloseWindow => ResponseKind::Handles,
        WebDriverCommand::GetElementRect(_) => ResponseKind::ElementRect,
        WebDriverCommand::FullscreenWindow | WebDriverCommand::MinimizeWindow | WebDriverCommand::MaximizeWindow
        | WebDriverCommand::GetWindowRect | WebDriverCommand::SetWindowRect(_) => ResponseKind::WindowRect,
        WebDriverCommand::GetCookies => ResponseKind::Cookies,
        WebDriverCommand::GetNamedCookie(name) => ResponseKind::NamedCookie(name@),
        WebDriverCommand::FindElement(_) | WebDriverCommand::FindElementElement(_, _)
        | WebDriverCommand::GetActiveElement => ResponseKind::Element,
        WebDriverCommand::FindElements(_) | WebDriverCommand::FindElementElements(_, _) => ResponseKind::Elements,
        WebDriverCommand::NewSession(_) => ResponseKind::NewSession,
        WebDriverCommand::DeleteSession => ResponseKind::DeleteSession,
        WebDriverCommand::Status => ResponseKind::Void,
        WebDriverCommand::Extension(x) => match x {
            GeckoExtensionCommand::GetContext => ResponseKind::Value,
            GeckoExtensionCommand::SetContext(_) => ResponseKind::Void,
            GeckoExtensionCommand::XblAnonymousChildren(_) => ResponseKind::Elements,
            GeckoExtensionCommand::XblAnonymousByAttribute(_, _) => ResponseKind::Element,
            GeckoExtensionCommand::InstallAddon(_) => ResponseKind::Value,
            GeckoExtensionCommand::UninstallAddon(_) => ResponseKind::Void,
        },
    }
}

/// The answer that a successful reply `result` gives, or the status of the
/// error that reading it ends in.
pub open spec fn reply_answer(kind: ResponseKind, result: JsonV) -> Result<ResponseV, ErrorStatus> {
    match kind {
        ResponseKind::Void => Ok(ResponseV::Void),
        ResponseKind::Value => match get_member(result, "value"@) {
            Some(v) => Ok(ResponseV::Generic(v)),
            None => Err(ErrorStatus::UnknownError),
        },
        ResponseKind::Whole => Ok(ResponseV::Generic(result)),
        ResponseKind::Timeouts => match timeouts_of(result) {
            Some((s, p, i)) => Ok(ResponseV::Timeouts(s, p, i)),
            None => Err(ErrorStatus::UnknownError),
        },
        ResponseKind::Handles => match handles_of(result) {
            Some(h) => Ok(ResponseV::CloseWindow(h)),
            None => Err(ErrorStatus::UnknownError),
        },
        ResponseKind::ElementRect => match element_rect_of(result) {
            Some((x, y, w, h)) => Ok(ResponseV::ElementRect(x, y, w, h)),
            None => Err(ErrorStatus::UnknownError),
        },
        ResponseKind::WindowRect => match window_rect_of(result) {
            Some((x, y, w, h)) => Ok(ResponseV::WindowRect(x, y, w, h)),
            None => Err(ErrorStatus::UnknownError),
        },
        ResponseKind::Cookies => match cookies_of(result) {
            Some(cs) => Ok(ResponseV::Cookies(cs)),
            None => Err(ErrorStatus::UnknownError),
        },
        ResponseKind::NamedCookie(name) => match cookies_of(result) {
            Some(cs) => match last_named(cs, name) {
                Some(c) => Ok(ResponseV::Cookie(c)),
                None => Err(ErrorStatus::NoSuchCookie),
            },
            None => Err(ErrorStatus::UnknownError),
        },
        ResponseKind::Element => match get_member(result, "value"@) {
            Some(v) => match element_ref(v) {
                Some(id) => Ok(ResponseV::Generic(JsonV::Object(seq![(crate::command::ELEMENT_KEY@, JsonV::String(id))]))),
                None => Err(ErrorStatus::UnknownError),
            },
            None => Err(ErrorStatus::UnknownError),
        },
        ResponseKind::Elements => match elements_of(result) {
            Some(ids) => Ok(ResponseV::Generic(elements_value(ids))),
            None => Err(ErrorStatus::UnknownError),
        },
        ResponseKind::NewSession => match get_member(result, "sessionId"@) {
            Some(JsonV::String(sid)) => match get_member(result, "capabilities"@) {
                Some(JsonV::Object(caps)) => Ok(ResponseV::NewSession(
                    sid,
                    JsonV::Object(insert_member(caps, VERSION_CAPABILITY@, JsonV::String(DRIVER_VERSION@))),
                )),
                _ => Err(ErrorStatus::UnknownError),
            },
            _ => Err(ErrorStatus::SessionNotCreated),
        },
        ResponseKind::DeleteSession => Ok(ResponseV::DeleteSession),
    }
}

/// One live automation session on the remote end.
pub struct MarionetteSession {
    pub session_id: String,
    pub protocol: Option<u16>,
    pub application_type: Option<String>,
    pub command_id: u64,
}

impl MarionetteSession {
    pub open spec fn spec_command_id(&self) -> u64 {
        self.command_id
    }

    pub open spec fn spec_protocol(&self) -> Option<u16> {
        self.protocol
    }

    /// A session with the given id, or an empty one, whose first command will be number 1.
    pub fn new(session_id: Option<String>) -> (r: MarionetteSession)
        ensures
            r.session_id@ == match session_id {
                Some(s) => s@,
                None => Seq::<char>::empty(),
            },
            r.spec_protocol() is None,
            r.application_type is None,
            r.spec_command_id() == 0,
    {
        let initial_id = match session_id {
            Some(s) => s,
            None => String::new(),
        };
        MarionetteSession { session_id: initial_id, protocol: None, application_type: None, command_id: 0 }
    }

    /// The id of the command last sent.
    pub fn command_id(&self) -> (r: u64)
        ensures
            r == self.spec_command_id(),
    {
        self.command_id
    }

    /// The protocol version agreed in the handshake, once there was one.
    pub fn protocol(&self) -> (r: Option<u16>)
        ensures
            r == self.spec_protocol(),
    {
        self.protocol
    }

    /// Records what the remote end said in the handshake.
    pub fn record_handshake(&mut self, handshake: MarionetteHandshake)
        ensures
            final(self).spec_protocol() == Some(handshake.protocol),
            final(self).application_type == Some(handshake.application_type),
            final(self).spec_command_id() == old(self).spec_command_id(),
            final(self).session_id == old(self).session_id,
    {
        self.protocol = Some(handshake.protocol);
        self.application_type = Some(handshake.application_type);
    }

    /// Advances the command counter and returns the new id.
    pub fn next_command_id(&mut self) -> (r: u64)
        requires
            old(self).spec_command_id() < u64::MAX,
        ensures
            r == old(self).spec_command_id() + 1,
            final(self).spec_command_id() == r,
            final(self).session_id == old(self).session_id,
            final(self).spec_protocol() == old(self).spec_protocol(),
            final(self).application_type == old(self).application_type,
    {
        self.command_id = self.command_id + 1;
        self.command_id
    }

    /// Takes the session id from the reply to a new-session command.
    pub fn update(&mut self, msg: &WebDriverMessage, resp: &MarionetteResponse) -> (r: WebDriverResult<()>)
        ensures
            final(self).spec_command_id() == old(self).spec_command_id(),
            final(self).spec_protocol() == old(self).spec_protocol(),
            final(self).application_type == old(self).application_type,
            !(msg.command is NewSession) ==> r is Ok && final(self).session_id == old(self).session_id,
            msg.command is NewSession ==> match get_member(resp.result@, "sessionId"@) {
                Some(JsonV::String(sid)) => r is Ok && final(self).session_id@ == sid,
                _ => (r matches Err(e) && e.status == ErrorStatus::SessionNotCreated) && final(self).session_id == old(self).session_id,
            },
    {
        match &msg.command {
            WebDriverCommand::NewSession(_) => {
                match json_get(&resp.result, "sessionId") {
                    Some(Json::String(sid)) => {
                        self.session_id = sid.clone();
                        Ok(())
                    },
                    Some(_) => Err(WebDriverError::new(ErrorStatus::SessionNotCreated, "Unable to convert session id to string")),
                    None => Err(WebDriverError::new(ErrorStatus::SessionNotCreated, "Unable to get session id")),
                }
            },
            _ => Ok(()),
        }
    }

    /// Reads the remote end's reply to `msg` as the answer for the caller.
    ///
    /// A reply whose id is not that of the command last sent is refused as
    /// out of sequence before anything else is read from it; a reply that
    /// carries an error becomes that error.
    pub fn response(&mut self, msg: &WebDriverMessage, resp: MarionetteResponse) -> (r: WebDriverResult<WebDriverResponse>)
        requires
            !(msg.command is Status),
        ensures
            final(self).spec_command_id() == old(self).spec_command_id(),
            final(self).spec_protocol() == old(self).spec_protocol(),
            final(self).application_type == old(self).application_type,
            resp.id != old(self).spec_command_id() ==> (r matches Err(e) && e.status == ErrorStatus::UnknownError)
                && final(self).session_id == old(self).session_id,
            resp.id == old(self).spec_command_id() && resp.error is Some ==> (r matches Err(e)
                && e.status == status_of_code(resp.error->Some_0.code@) && e.message == resp.error->Some_0.message
                && e.stack == resp.error->Some_0.stacktrace) && final(self).session_id == old(self).session_id,
            resp.id == old(self).spec_command_id() && resp.error is None ==> match reply_answer(response_kind(msg.command), resp.result@) {
                Ok(v) => r matches Ok(x) && x@ == v,
                Err(s) => r matches Err(e) && e.status == s,
            },
            resp.id == old(self).spec_command_id() && resp.error is None && r is Ok && msg.command is NewSession
                ==> final(self).session_id@ == get_member(resp.result@, "sessionId"@)->Some_0->String_0,
    {
        if resp.id != self.command_id {
            return Err(WebDriverError::new(ErrorStatus::UnknownError, "Marionette responses arrived out of sequence"));
        }
        if let Some(error) = resp.error {
            return Err(error.into_webdriver_error());
        }
        let u = self.update(msg, &resp);
        if let Err(e) = u {
            return Err(e);
        }
        let result = &resp.result;
        match &msg.command {
            WebDriverCommand::Get(_) | WebDriverCommand::GoBack | WebDriverCommand::GoForward | WebDriverCommand::Refresh
            | WebDriverCommand::SetTimeouts(_) | WebDriverCommand::SwitchToWindow(_) | WebDriverCommand::SwitchToFrame(_)
            | WebDriverCommand::SwitchToParentFrame | WebDriverCommand::AddCookie(_) | WebDriverCommand::DeleteCookies
            | WebDriverCommand::DeleteCookie(_) | WebDriverCommand::DismissAlert | WebDriverCommand::AcceptAlert
            | WebDriverCommand::SendAlertText(_) | WebDriverCommand::ElementClick(_) | WebDriverCommand::ElementTap(_)
            | WebDriverCommand::ElementClear(_) | WebDriverCommand::ElementSendKeys(_, _)
            | WebDriverCommand::PerformActions(_) | WebDriverCommand::ReleaseActions | WebDriverCommand::Status => {
                Ok(WebDriverResponse::Void)
            },
            WebDriverCommand::GetCurrentUrl | WebDriverCommand::GetTitle | WebDriverCommand::GetPageSource
            | WebDriverCommand::GetWindowHandle | WebDriverCommand::IsDisplayed(_) | WebDriverCommand::IsSelected(_)
            | WebDriverCommand::GetElementAttribute(_, _) | WebDriverCommand::GetElementProperty(_, _)
            | WebDriverCommand::GetCSSValue(_, _) | WebDriverCommand::GetElementText(_)
            | WebDriverCommand::GetElementTagName(_) | WebDriverCommand::IsEnabled(_)
            | WebDriverCommand::ExecuteScript(_) | WebDriverCommand::ExecuteAsyncScript(_)
            | WebDriverCommand::GetAlertText | WebDriverCommand::TakeScreenshot
            | WebDriverCommand::TakeElementScreenshot(_) => {
                let v = value_member(result)?;
                Ok(WebDriverResponse::Generic(v))
            },
            WebDriverCommand::GetTimeouts => {
                let t = timeouts_response(result)?;
                Ok(WebDriverResponse::Timeouts(t))
            },
            WebDriverCommand::GetWindowHandles => Ok(WebDriverResponse::Generic(clone_json(result))),
            WebDriverCommand::CloseWindow => {
                let h = handles_response(result)?;
                Ok(WebDriverResponse::CloseWindow(h))
            },
            WebDriverCommand::GetElementRect(_) => {
                let rect = element_rect_response(result)?;
                Ok(WebDriverResponse::ElementRect(rect))
            },
            WebDriverCommand::FullscreenWindow | WebDriverCommand::MinimizeWindow | WebDriverCommand::MaximizeWindow
            | WebDriverCommand::GetWindowRect | WebDriverCommand::SetWindowRect(_) => {
                let rect = window_rect_response(result)?;
                Ok(WebDriverResponse::WindowRect(rect))
            },
            WebDriverCommand::GetCookies => {
                let cookies = cookies_response(result)?;
                Ok(WebDriverResponse::Cookies(cookies))
            },
            WebDriverCommand::GetNamedCookie(name) => {
                let cookies = cookies_response(result)?;
                match last_named_cookie(cookies, name) {
                    Some(c) => Ok(WebDriverResponse::Cookie(c)),
                    None => Err(WebDriverError::new(ErrorStatus::NoSuchCookie, "No cookie with that name")),
                }
            },
            WebDriverCommand::FindElement(_) | WebDriverCommand::FindElementElement(_, _)
            | WebDriverCommand::GetActiveElement => {
                let value = match json_get(result, "value") {
                    Some(v) => v,
                    None => {
                        return Err(WebDriverError::new(ErrorStatus::UnknownError, "Failed to find value field"));
                    },
                };
                let element = to_web_element(value)?;
                Ok(WebDriverResponse::Generic(crate::request::element_json(&element)))
            },
            WebDriverCommand::FindElements(_) | WebDriverCommand::FindElementElements(_, _) => {
                let v = elements_response(result)?;
                Ok(WebDriverResponse::Generic(v))
            },
            WebDriverCommand::NewSession(_) => {
                let session_id = match json_get(result, "sessionId") {
                    Some(Json::String(s)) => s.clone(),
                    _ => {
                        return Err(WebDriverError::new(ErrorStatus::InvalidSessionId, "Failed to find sessionId field"));
                    },
                };
                let mut capabilities = match json_get(result, "capabilities") {
                    Some(Json::Object(c)) => {
                        proof {
                            lemma_object_view(*c);
                            assert(Json::Object(*c)@->Object_0 =~= members_view(c@));
                        }
                        crate::capabilities::clone_capabilities(c)
                    },
                    _ => {
                        return Err(WebDriverError::new(ErrorStatus::UnknownError, "capabilities field is not an object"));
                    },
                };
                object_insert(&mut capabilities, VERSION_CAPABILITY.to_string(), Json::String(DRIVER_VERSION.to_string()));
                let ghost cv = capabilities;
                let caps = Json::Object(capabilities);
                proof {
                    lemma_object_view(cv);
                    assert(caps@->Object_0 =~= members_view(cv@));
                }
                Ok(WebDriverResponse::NewSession(NewSessionResponse { session_id, capabilities: caps }))
            },
            WebDriverCommand::DeleteSession => Ok(WebDriverResponse::DeleteSession),
            WebDriverCommand::Extension(x) => match x {
                GeckoExtensionCommand::GetContext | GeckoExtensionCommand::InstallAddon(_) => {
                    let v = value_member(result)?;
                    Ok(WebDriverResponse::Generic(v))
                },
                GeckoExtensionCommand::SetContext(_) | GeckoExtensionCommand::UninstallAddon(_) => Ok(WebDriverResponse::Void),
                GeckoExtensionCommand::XblAnonymousChildren(_) => {
                    let v = elements_response(result)?;
                    Ok(WebDriverResponse::Generic(v))
                },
                GeckoExtensionCommand::XblAnonymousByAttribute(_, _) => {
                    let value = match json_get(result, "value") {
                        Some(v) => v,
                        None => {
                            return Err(WebDriverError::new(ErrorStatus::UnknownError, "Failed to find value field"));
                        },
                    };
                    let element = to_web_element(value)?;
                    Ok(WebDriverResponse::Generic(crate::request::element_json(&element)))
                },
            },
        }
    }
}

} // verus!
