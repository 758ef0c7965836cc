use vstd::prelude::*;
use crate::json::str_eq;

verus! {

/// The standardized error statuses a command can end with.
#[derive(PartialEq, Eq, Structural, Clone, Copy, Debug)]
pub enum ErrorStatus {
    ElementClickIntercepted,
    ElementNotInteractable,
    ElementNotSelectable,
    InsecureCertificate,
    InvalidArgument,
    InvalidCookieDomain,
    InvalidCoordinates,
    InvalidElementState,
    InvalidSelector,
    InvalidSessionId,
    JavascriptError,
    MoveTargetOutOfBounds,
    NoSuchAlert,
    NoSuchCookie,
    NoSuchElement,
    NoSuchFrame,
    NoSuchWindow,
    ScriptTimeout,
    SessionNotCreated,
    StaleElementReference,
    Timeout,
    UnableToCaptureScreen,
    UnableToSetCookie,
    UnexpectedAlertOpen,
    UnknownCommand,
    UnknownError,
    UnknownMethod,
    UnsupportedOperation,
}

/// The error code string that names each status on the wire.
pub open spec fn status_code(s: ErrorStatus) -> Seq<char> {
    match s {
        ErrorStatus::ElementClickIntercepted => "element click intercepted"@,
        ErrorStatus::ElementNotInteractable => "element not interactable"@,
        ErrorStatus::ElementNotSelectable => "element not selectable"@,
        ErrorStatus::InsecureCertificate => "insecure certificate"@,
        ErrorStatus::InvalidArgument => "invalid argument"@,
        ErrorStatus::InvalidCookieDomain => "invalid cookie domain"@,
        ErrorStatus::InvalidCoordinates => "invalid coordinates"@,
        ErrorStatus::InvalidElementState => "invalid element state"@,
        ErrorStatus::InvalidSelector => "invalid selector"@,
        ErrorStatus::InvalidSessionId => "invalid session id"@,
        ErrorStatus::JavascriptError => "javascript error"@,
        ErrorStatus::MoveTargetOutOfBounds => "move target out of bounds"@,
        ErrorStatus::NoSuchAlert => "no such alert"@,
        ErrorStatus::NoSuchCookie => "no such cookie"@,
        ErrorStatus::NoSuchElement => "no such element"@,
        ErrorStatus::NoSuchFrame => "no such frame"@,
        ErrorStatus::NoSuchWindow => "no such window"@,
        ErrorStatus::ScriptTimeout => "script timeout"@,
        ErrorStatus::SessionNotCreated => "session not created"@,
        ErrorStatus::StaleElementReference => "stale element reference"@,
        ErrorStatus::Timeout => "timeout"@,
        ErrorStatus::UnableToCaptureScreen => "unable to capture screen"@,
        ErrorStatus::UnableToSetCookie => "unable to set cookie"@,
        ErrorStatus::UnexpectedAlertOpen => "unexpected alert open"@,
        ErrorStatus::UnknownCommand => "unknown command"@,
        ErrorStatus::UnknownError => "unknown error"@,
        ErrorStatus::UnknownMethod => "unknown method"@,
        ErrorStatus::UnsupportedOperation => "unsupported operation"@,
    }
}

/// The status a wire error code stands for: the one whose code it is, and
/// unknown-error for a code that names none.
pub open spec fn status_of_code(code: Seq<char>) -> ErrorStatus {
    if code == "element click intercepted"@ {
        ErrorStatus::ElementClickIntercepted
    } else if code == "element not interactable"@ {
        ErrorStatus::ElementNotInteractable
    } else if code == "element not selectable"@ {
        ErrorStatus::ElementNotSelectable
    } else if code == "insecure certificate"@ {
        ErrorStatus::InsecureCertificate
    } else if code == "invalid argument"@ {
        ErrorStatus::InvalidArgument
    } else if code == "invalid cookie domain"@ {
        ErrorStatus::InvalidCookieDomain
    } else if code == "invalid coordinates"@ {
        ErrorStatus::InvalidCoordinates
    } else if code == "invalid element state"@ {
        ErrorStatus::InvalidElementState
    } else if code == "invalid selector"@ {
        ErrorStatus::InvalidSelector
    } else if code == "invalid session id"@ {
        ErrorStatus::InvalidSessionId
    } else if code == "javascript error"@ {
        ErrorStatus::JavascriptError
    } else if code == "move target out of bounds"@ {
        ErrorStatus::MoveTargetOutOfBounds
    } else if code == "no such alert"@ {
        ErrorStatus::NoSuchAlert
    } else if code == "no such cookie"@ {
        ErrorStatus::NoSuchCookie
    } else if code == "no such element"@ {
        ErrorStatus::NoSuchElement
    } else if code == "no such frame"@ {
        ErrorStatus::NoSuchFrame
    } else if code == "no such window"@ {
        ErrorStatus::NoSuchWindow
    } else if code == "script timeout"@ {
        ErrorStatus::ScriptTimeout
    } else if code == "session not created"@ {
        ErrorStatus::SessionNotCreated
    } else if code == "stale element reference"@ {
        ErrorStatus::StaleElementReference
    } else if code == "timeout"@ {
        ErrorStatus::Timeout
    } else if code == "unable to capture screen"@ {
        ErrorStatus::UnableToCaptureScreen
    } else if code == "unable to set cookie"@ {
        ErrorStatus::UnableToSetCookie
    } else if code == "unexpected alert open"@ {
        ErrorStatus::UnexpectedAlertOpen
    } else if code == "unknown command"@ {
        ErrorStatus::UnknownCommand
    } else if code == "unknown error"@ {
        ErrorStatus::UnknownError
    } else if code == "unknown method"@ {
        ErrorStatus::UnknownMethod
    } else if code == "unsupported operation"@ {
        ErrorStatus::UnsupportedOperation
    } else {
        ErrorStatus::UnknownError
    }
}

/// An error as it is reported to the caller.
#[derive(Debug)]
pub struct WebDriverError {
    pub status: ErrorStatus,
    pub message: String,
    pub stack: Option<String>,
    /// Set when the error leaves the session unusable, so that the caller
    /// tears it down.
    pub delete_session: bool,
}

pub type WebDriverResult<T> = Result<T, WebDriverError>;

impl WebDriverError {
    pub fn new(status: ErrorStatus, message: &str) -> (r: WebDriverError)
        ensures
            r.status == status,
            r.message@ == message@,
            r.stack is None,
            !r.delete_session,
    {
        WebDriverError { status, message: message.to_string(), stack: None, delete_session: false }
    }

    pub fn new_with_stack(status: ErrorStatus, message: String, stack: String) -> (r: WebDriverError)
        ensures
            r.status == status,
            r.message == message,
            r.stack == Some(stack),
            !r.delete_session,
    {
        WebDriverError { status, message, stack: Some(stack), delete_session: false }
    }

    /// The code string of this error's status.
    pub fn error_code(&self) -> (r: &'static str)
        ensures
            r@ == status_code(self.status),
    {
        status_code_str(self.status)
    }
}

/// The code string that names `s`.
pub fn status_code_str(s: ErrorStatus) -> (r: &'static str)
    ensures
        r@ == status_code(s),
{
    match s {
        ErrorStatus::ElementClickIntercepted => "element click intercepted",
        ErrorStatus::ElementNotInteractable => "element not interactable",
        ErrorStatus::ElementNotSelectable => "element not selectable",
        ErrorStatus::InsecureCertificate => "insecure certificate",
        ErrorStatus::InvalidArgument => "invalid argument",
        ErrorStatus::InvalidCookieDomain => "invalid cookie domain",
        ErrorStatus::InvalidCoordinates => "invalid coordinates",
        ErrorStatus::InvalidElementState => "invalid element state",
        ErrorStatus::InvalidSelector => "invalid selector",
        ErrorStatus::InvalidSessionId => "invalid session id",
        ErrorStatus::JavascriptError => "javascript error",
        ErrorStatus::MoveTargetOutOfBounds => "move target out of bounds",
        ErrorStatus::NoSuchAlert => "no such alert",
        ErrorStatus::NoSuchCookie => "no such cookie",
        ErrorStatus::NoSuchElement => "no such element",
        ErrorStatus::NoSuchFrame => "no such frame",
        ErrorStatus::NoSuchWindow => "no such window",
        ErrorStatus::ScriptTimeout => "script timeout",
        ErrorStatus::SessionNotCreated => "session not created",
        ErrorStatus::StaleElementReference => "stale element reference",
        ErrorStatus::Timeout => "timeout",
        ErrorStatus::UnableToCaptureScreen => "unable to capture screen",
        ErrorStatus::UnableToSetCookie => "unable to set cookie",
        ErrorStatus::UnexpectedAlertOpen => "unexpected alert open",
        ErrorStatus::UnknownCommand => "unknown command",
        ErrorStatus::UnknownError => "unknown error",
        ErrorStatus::UnknownMethod => "unknown method",
        ErrorStatus::UnsupportedOperation => "unsupported operation",
    }
}

/// The status that the wire error code `code` stands for.
pub fn status_from_code(code: &str) -> (r: ErrorStatus)
    ensures
        r == status_of_code(code@),
{
    if str_eq(code, "element click intercepted") {
        ErrorStatus::ElementClickIntercepted
    } else if str_eq(code, "element not interactable") {
        ErrorStatus::ElementNotInteractable
    } else if str_eq(code, "element not selectable") {
        ErrorStatus::ElementNotSelectable
    } else if str_eq(code, "insecure certificate") {
        ErrorStatus::InsecureCertificate
    } else if str_eq(code, "invalid argument") {
        ErrorStatus::InvalidArgument
    } else if str_eq(code, "invalid cookie domain") {
        ErrorStatus::InvalidCookieDomain
    } else if str_eq(code, "invalid coordinates") {
        ErrorStatus::InvalidCoordinates
    } else if str_eq(code, "invalid element state") {
        ErrorStatus::InvalidElementState
    } else if str_eq(code, "invalid selector") {
        ErrorStatus::InvalidSelector
    } else if str_eq(code, "invalid session id") {
        ErrorStatus::InvalidSessionId
    } else if str_eq(code, "javascript error") {
        ErrorStatus::JavascriptError
    } else if str_eq(code, "move target out of bounds") {
        ErrorStatus::MoveTargetOutOfBounds
    } else if str_eq(code, "no such alert") {
        ErrorStatus::NoSuchAlert
    } else if str_eq(code, "no such cookie") {
        ErrorStatus::NoSuchCookie
    } else if str_eq(code, "no such element") {
        ErrorStatus::NoSuchElement
    } else if str_eq(code, "no such frame") {
        ErrorStatus::NoSuchFrame
    } else if str_eq(code, "no such window") {
        ErrorStatus::NoSuchWindow
    } else if str_eq(code, "script timeout") {
        ErrorStatus::ScriptTimeout
    } else if str_eq(code, "session not created") {
        ErrorStatus::SessionNotCreated
    } else if str_eq(code, "stale element reference") {
        ErrorStatus::StaleElementReference
    } else if str_eq(code, "timeout") {
        ErrorStatus::Timeout
    } else if str_eq(code, "unable to capture screen") {
        ErrorStatus::UnableToCaptureScreen
    } else if str_eq(code, "unable to set cookie") {
        ErrorStatus::UnableToSetCookie
    } else if str_eq(code, "unexpected alert open") {
        ErrorStatus::UnexpectedAlertOpen
    } else if str_eq(code, "unknown command") {
        ErrorStatus::UnknownCommand
    } else if str_eq(code, "unknown error") {
        ErrorStatus::UnknownError
    } else if str_eq(code, "unknown method") {
        ErrorStatus::UnknownMethod
    } else if str_eq(code, "unsupported operation") {
        ErrorStatus::UnsupportedOperation
    } else {
        ErrorStatus::UnknownError
    }
}

} // verus!
