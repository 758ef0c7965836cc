use vstd::prelude::*;
use crate::capabilities::NewSessionParameters;
use crate::json::Json;

verus! {

/// The key under which a web element reference travels.
pub const ELEMENT_KEY: &'static str = "element-6066-11e4-a52e-4f735466cecf";
/// The key under which a frame reference travels.
pub const FRAME_KEY: &'static str = "frame-075b-4da1-b6ba-e579c2d3230a";
/// The key under which a window reference travels.
pub const WINDOW_KEY: &'static str = "window-fcc6-11e5-b4f8-330a88ab9d7f";
/// The key under which a chrome element reference travels.
pub const CHROME_ELEMENT_KEY: &'static str = "chromeelement-9fc5-4b51-a3c8-01716eedeb04";
/// The key under which older remote ends send element references.
pub const LEGACY_ELEMENT_KEY: &'static str = "ELEMENT";

/// A reference to a remote element, frame or window.
pub struct WebElement {
    pub id: String,
}

impl WebElement {
    pub fn new(id: String) -> (r: WebElement)
        ensures
            r.id == id,
    {
        WebElement { id }
    }
}

/// How to find elements.
#[derive(PartialEq, Eq, Structural, Clone, Copy, Debug)]
pub enum LocatorStrategy {
    CSSSelector,
    LinkText,
    PartialLinkText,
    TagName,
    XPath,
}

pub struct LocatorParameters {
    pub using: LocatorStrategy,
    pub value: String,
}

pub struct GetParameters {
    pub url: String,
}

pub struct TimeoutsParameters {
    pub script: Option<u64>,
    pub page_load: Option<u64>,
    pub implicit: Option<u64>,
}

pub struct WindowRectParameters {
    pub x: Option<i64>,
    pub y: Option<i64>,
    pub width: Option<u64>,
    pub height: Option<u64>,
}

pub struct JavascriptCommandParameters {
    pub script: String,
    pub args: Option<Vec<Json>>,
}

/// Input action sequences, already in their JSON form.
pub struct ActionsParameters {
    pub actions: Vec<Json>,
}

pub struct AddCookieParameters {
    pub name: String,
    pub value: String,
    pub path: Option<String>,
    pub domain: Option<String>,
    pub expiry: Option<u64>,
    pub secure: bool,
    pub http_only: bool,
}

pub enum FrameId {
    Short(u16),
    Element(WebElement),
}

pub struct SwitchToFrameParameters {
    pub id: Option<FrameId>,
}

pub struct SwitchToWindowParameters {
    pub handle: String,
}

pub struct SendKeysParameters {
    pub text: String,
}

/// The browser context that commands run in.
#[derive(PartialEq, Eq, Structural, Clone, Copy, Debug)]
pub enum GeckoContext {
    Content,
    Chrome,
}

pub struct GeckoContextParameters {
    pub context: GeckoContext,
}

pub struct XblLocatorParameters {
    pub name: String,
    pub value: String,
}

pub struct AddonInstallParameters {
    pub path: String,
    pub temporary: bool,
}

pub struct AddonUninstallParameters {
    pub id: String,
}

/// The browser-specific commands.
pub enum GeckoExtensionCommand {
    GetContext,
    SetContext(GeckoContextParameters),
    XblAnonymousChildren(WebElement),
    XblAnonymousByAttribute(WebElement, XblLocatorParameters),
    InstallAddon(AddonInstallParameters),
    UninstallAddon(AddonUninstallParameters),
}

/// A command of the remote automation API.
pub enum WebDriverCommand {
    NewSession(NewSessionParameters),
    DeleteSession,
    Get(GetParameters),
    GetCurrentUrl,
    GoBack,
    GoForward,
    Refresh,
    GetTitle,
    GetPageSource,
    GetWindowHandle,
    GetWindowHandles,
    CloseWindow,
    GetWindowRect,
    SetWindowRect(WindowRectParameters),
    MinimizeWindow,
    MaximizeWindow,
    FullscreenWindow,
    SwitchToWindow(SwitchToWindowParameters),
    SwitchToFrame(SwitchToFrameParameters),
    SwitchToParentFrame,
    FindElement(LocatorParameters),
    FindElements(LocatorParameters),
    FindElementElement(WebElement, LocatorParameters),
    FindElementElements(WebElement, LocatorParameters),
    GetActiveElement,
    IsDisplayed(WebElement),
    IsSelected(WebElement),
    GetElementAttribute(WebElement, String),
    GetElementProperty(WebElement, String),
    GetCSSValue(WebElement, String),
    GetElementText(WebElement),
    GetElementTagName(WebElement),
    GetElementRect(WebElement),
    IsEnabled(WebElement),
    ExecuteScript(JavascriptCommandParameters),
    ExecuteAsyncScript(JavascriptCommandParameters),
    GetCookies,
    GetNamedCookie(String),
    AddCookie(AddCookieParameters),
    DeleteCookies,
    DeleteCookie(String),
    GetTimeouts,
    SetTimeouts(TimeoutsParameters),
    ElementClick(WebElement),
    ElementTap(WebElement),
    ElementClear(WebElement),
    ElementSendKeys(WebElement, SendKeysParameters),
    PerformActions(ActionsParameters),
    ReleaseActions,
    DismissAlert,
    AcceptAlert,
    GetAlertText,
    SendAlertText(SendKeysParameters),
    TakeScreenshot,
    TakeElementScreenshot(WebElement),
    Status,
    Extension(GeckoExtensionCommand),
}

/// A command together with the session it is addressed to.
pub struct WebDriverMessage {
    pub session_id: Option<String>,
    pub command: WebDriverCommand,
}

} // verus!
