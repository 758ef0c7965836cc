use vstd::prelude::*;
use crate::capabilities::{BrowserCapabilities, Capabilities, NewSessionParameters, candidates, legacy_merge, any_shadowing, all_entries_ok, has_extension_key, asks_browser};
use crate::command::{WebDriverCommand, WebDriverMessage};
use crate::connection::MarionetteConnection;
use crate::error::{ErrorStatus, WebDriverError, WebDriverResult};
use crate::json::{Json, JsonV, members_view, lemma_object_view};
use crate::response::WebDriverResponse;

verus! {

/// How the driver starts or finds the browser.
pub struct MarionetteSettings {
    /// The port to connect on; a free one is picked where there is none.
    pub port: Option<u16>,
    /// The browser binary.
    pub binary: Option<String>,
    /// Whether to attach to a browser that is already running instead of starting one.
    pub connect_existing: bool,
    /// Whether to bring up the browser toolbox, for debugging the browser itself.
    pub jsdebugger: bool,
}

impl Default for MarionetteSettings {
    fn default() -> (r: MarionetteSettings)
        ensures
            r.port is None,
            r.binary is None,
            !r.connect_existing,
            !r.jsdebugger,
    {
        MarionetteSettings { port: None, binary: None, connect_existing: false, jsdebugger: false }
    }
}

/// How verbose the browser's remote protocol log is.
pub struct LogOptions {
    /// The level's name, where one was asked for.
    pub level: Option<String>,
}

/// What to do with an incoming command.
pub enum Dispatch {
    /// Answer at once, without the remote end.
    Respond(WebDriverResponse),
    /// Negotiate capabilities, start or find the browser, connect, then forward.
    CreateSession,
    /// Send it over the open connection.
    Forward,
}

/// The value of the status answer: ready while no session runs.
pub open spec fn status_value(idle: bool) -> JsonV {
    JsonV::Object(seq![
        ("ready"@, JsonV::Bool(idle)),
        ("message"@, JsonV::String(if idle { Seq::empty() } else { "Session already started"@ })),
    ])
}

/// How the browser is to be started for a session.
pub struct LaunchPlan {
    pub port: u16,
    /// False where an already running browser is used.
    pub start_browser: bool,
    pub binary: Option<String>,
    pub args: Vec<String>,
    pub env: Vec<(String, String)>,
}

/// The environment the browser is started with: crash reports on, never sent,
/// and a crash at shutdown reported too.
pub open spec fn crash_reporter_env() -> Seq<(Seq<char>, Seq<char>)> {
    seq![("MOZ_CRASHREPORTER"@, "1"@), ("MOZ_CRASHREPORTER_NO_REPORT"@, "1"@), ("MOZ_CRASHREPORTER_SHUTDOWN"@, "1"@)]
}

/// The arguments the browser is started with: the remote protocol flag, the
/// debugger flag where asked for, then the caller's own.
pub open spec fn launch_args(jsdebugger: bool, extra: Seq<Seq<char>>) -> Seq<Seq<char>> {
    seq!["-marionette"@] + (if jsdebugger { seq!["-jsdebugger"@] } else { Seq::empty() }) + extra
}

pub open spec fn strings_view(v: Seq<String>) -> Seq<Seq<char>> {
    Seq::new(v.len(), |i: int| v[i]@)
}

/// A preference value.
pub enum PrefValue {
    Bool(bool),
    Int(i64),
    Str(String),
}

pub enum PrefValueV {
    Bool(bool),
    Int(i64),
    Str(Seq<char>),
}

impl View for PrefValue {
    type V = PrefValueV;

    open spec fn view(&self) -> PrefValueV {
        match self {
            PrefValue::Bool(b) => PrefValueV::Bool(*b),
            PrefValue::Int(i) => PrefValueV::Int(*i),
            PrefValue::Str(s) => PrefValueV::Str(s@),
        }
    }
}

pub open spec fn prefs_view(v: Seq<(String, PrefValue)>) -> Seq<(Seq<char>, PrefValueV)> {
    Seq::new(v.len(), |i: int| (v[i].0@, v[i].1@))
}

/// The defaults that apply: all of them, or, for a profile of the caller's
/// own, those it does not set already.
pub open spec fn applicable_defaults(defaults: Seq<(Seq<char>, PrefValueV)>, existing: Seq<Seq<char>>, custom_profile: bool) -> Seq<(Seq<char>, PrefValueV)>
    decreases defaults.len(),
{
    if defaults.len() == 0 {
        defaults
    } else {
        let rest = applicable_defaults(defaults.drop_last(), existing, custom_profile);
        if !custom_profile || !existing.contains(defaults.last().0) {
            rest.push(defaults.last())
        } else {
            rest
        }
    }
}

pub open spec fn debugger_prefs() -> Seq<(Seq<char>, PrefValueV)> {
    seq![
        ("devtools.browsertoolbox.panel"@, PrefValueV::Str("jsdebugger"@)),
        ("devtools.debugger.remote-enabled"@, PrefValueV::Bool(true)),
        ("devtools.chrome.enabled"@, PrefValueV::Bool(true)),
        ("devtools.debugger.prompt-connection"@, PrefValueV::Bool(false)),
        ("marionette.debugging.clicktostart"@, PrefValueV::Bool(true)),
    ]
}

/// The preferences written into the profile, in order, a later write
/// winning: the applicable defaults, the caller's, the debugger's where
/// asked for, and last the log level and the port.
pub open spec fn preference_writes(
    defaults: Seq<(Seq<char>, PrefValueV)>,
    existing: Seq<Seq<char>>,
    custom_profile: bool,
    extra: Seq<(Seq<char>, PrefValueV)>,
    jsdebugger: bool,
    log_level: Seq<char>,
    port: u16,
) -> Seq<(Seq<char>, PrefValueV)> {
    applicable_defaults(defaults, existing, custom_profile) + extra + (if jsdebugger { debugger_prefs() } else { Seq::empty() })
        + seq![("marionette.log.level"@, PrefValueV::Str(log_level)), ("marionette.port"@, PrefValueV::Int(port as i64))]
}

fn clone_pref(p: &PrefValue) -> (r: PrefValue)
    ensures
        r@ == p@,
{
    match p {
        PrefValue::Bool(b) => PrefValue::Bool(*b),
        PrefValue::Int(i) => PrefValue::Int(*i),
        PrefValue::Str(s) => PrefValue::Str(s.clone()),
    }
}

fn contains_key(existing: &Vec<String>, key: &String) -> (r: bool)
    ensures
        r == strings_view(existing@).contains(key@),
{
    let mut i: usize = 0;
    while i < existing.len()
        invariant
            i <= existing@.len(),
            forall|j: int| 0 <= j < i ==> existing@[j]@ != key@,
        decreases existing@.len() - i,
    {
        if existing[i] == *key {
            assert(strings_view(existing@)[i as int] == key@);
            return true;
        }
        i += 1;
    }
    proof {
        if strings_view(existing@).contains(key@) {
            let j = choose|j: int| 0 <= j < strings_view(existing@).len() && strings_view(existing@)[j] == key@;
            assert(existing@[j]@ == key@);
        }
    }
    false
}

fn push_pref(out: &mut Vec<(String, PrefValue)>, key: &str, value: PrefValue)
    ensures
        prefs_view(final(out)@) == prefs_view(old(out)@).push((key@, value@)),
{
    let ghost before = out@;
    out.push((key.to_string(), value));
    assert(prefs_view(out@) =~= prefs_view(before).push((key@, value@)));
}

/// Owns the connection to the browser, and knows whether it started one.
pub struct MarionetteHandler {
    pub connection: Option<MarionetteConnection>,
    pub settings: MarionetteSettings,
    /// Whether a browser process that this handler started is running.
    pub browser: bool,
}

impl MarionetteHandler {
    pub fn new(settings: MarionetteSettings) -> (r: MarionetteHandler)
        ensures
            r.connection is None,
            !r.browser,
    {
        MarionetteHandler { connection: None, settings, browser: false }
    }

    /// The preferences to write into the browser's profile, in order: the
    /// defaults (those a profile of the caller's own already sets are kept), the
    /// caller's `extra_prefs`, the debugger's where asked for, then `log_level`
    /// and `port`.
    pub fn set_prefs(
        &self,
        port: u16,
        existing: &Vec<String>,
        custom_profile: bool,
        extra_prefs: Vec<(String, PrefValue)>,
        defaults: &Vec<(String, PrefValue)>,
        log_level: String,
    ) -> (r: Vec<(String, PrefValue)>)
        ensures
            prefs_view(r@) == preference_writes(prefs_view(defaults@), strings_view(existing@), custom_profile,
                prefs_view(extra_prefs@), self.settings.jsdebugger, log_level@, port),
    {
        let jsdebugger = self.settings.jsdebugger;
        let extra = extra_prefs;
        let ghost d = prefs_view(defaults@);
        let ghost ex = strings_view(existing@);
        let mut out: Vec<(String, PrefValue)> = Vec::new();
        let mut i: usize = 0;
        while i < defaults.len()
            invariant
                d == prefs_view(defaults@),
                ex == strings_view(existing@),
                i <= defaults@.len(),
                prefs_view(out@) == applicable_defaults(d.subrange(0, i as int), ex, custom_profile),
            decreases defaults@.len() - i,
        {
            proof {
                assert(d.subrange(0, i + 1).drop_last() =~= d.subrange(0, i as int));
            }
            if !custom_profile || !contains_key(existing, &defaults[i].0) {
                let ghost before = out@;
                out.push((defaults[i].0.clone(), clone_pref(&defaults[i].1)));
                assert(prefs_view(out@) =~= prefs_view(before).push(d[i as int]));
            }
            i += 1;
        }
        assert(d.subrange(0, i as int) =~= d);
        let ghost base = prefs_view(out@);
        let ghost ext = prefs_view(extra@);
        let mut j: usize = 0;
        while j < extra.len()
            invariant
                ext == prefs_view(extra@),
                j <= extra@.len(),
                prefs_view(out@) == base + ext.subrange(0, j as int),
            decreases extra@.len() - j,
        {
            let ghost before = out@;
            out.push((extra[j].0.clone(), clone_pref(&extra[j].1)));
            assert(prefs_view(out@) =~= prefs_view(before).push(ext[j as int]));
            assert(base + ext.subrange(0, j + 1) =~= (base + ext.subrange(0, j as int)).push(ext[j as int]));
            j += 1;
        }
        assert(ext.subrange(0, j as int) =~= ext);
        let ghost mid = prefs_view(out@);
        if jsdebugger {
            push_pref(&mut out, "devtools.browsertoolbox.panel", PrefValue::Str("jsdebugger".to_string()));
            push_pref(&mut out, "devtools.debugger.remote-enabled", PrefValue::Bool(true));
            push_pref(&mut out, "devtools.chrome.enabled", PrefValue::Bool(true));
            push_pref(&mut out, "devtools.debugger.prompt-connection", PrefValue::Bool(false));
            push_pref(&mut out, "marionette.debugging.clicktostart", PrefValue::Bool(true));
            assert(prefs_view(out@) =~= mid + debugger_prefs());
        } else {
            assert(prefs_view(out@) =~= mid + Seq::<(Seq<char>, PrefValueV)>::empty());
        }
        let ghost tail = prefs_view(out@);
        push_pref(&mut out, "marionette.log.level", PrefValue::Str(log_level));
        push_pref(&mut out, "marionette.port", PrefValue::Int(port as i64));
        assert(prefs_view(out@) =~= tail + seq![("marionette.log.level"@, PrefValueV::Str(log_level@)), ("marionette.port"@, PrefValueV::Int(port as i64))]);
        out
    }

    /// Decides what to do with `msg`: the status is answered at once, ready
    /// only while no session runs; without a session only a new-session
    /// command is taken.
    pub fn dispatch(&self, msg: &WebDriverMessage) -> (r: WebDriverResult<Dispatch>)
        ensures
            msg.command is Status ==> (r matches Ok(Dispatch::Respond(WebDriverResponse::Generic(v)))
                && v@ == status_value(self.connection is None)),
            !(msg.command is Status) && self.connection is None && !(msg.command is NewSession)
                ==> (r matches Err(e) && e.status == ErrorStatus::InvalidSessionId),
            !(msg.command is Status) && self.connection is None && msg.command is NewSession ==> r matches Ok(Dispatch::CreateSession),
            !(msg.command is Status) && self.connection is Some ==> r matches Ok(Dispatch::Forward),
    {
        match &msg.command {
            WebDriverCommand::Status => {
                let idle = self.connection.is_none();
                let message = if idle { String::new() } else { "Session already started".to_string() };
                let ghost mv = message@;
                let members = vec![("ready".to_string(), Json::Bool(idle)), ("message".to_string(), Json::String(message))];
                let ghost m = members;
                let v = Json::Object(members);
                proof {
                    lemma_object_view(m);
                    assert(v@->Object_0 =~= status_value(idle)->Object_0);
                }
                Ok(Dispatch::Respond(WebDriverResponse::Generic(v)))
            },
            WebDriverCommand::NewSession(_) => {
                if self.connection.is_none() {
                    Ok(Dispatch::CreateSession)
                } else {
                    Ok(Dispatch::Forward)
                }
            },
            _ => {
                if self.connection.is_none() {
                    Err(WebDriverError::new(ErrorStatus::InvalidSessionId, "Tried to run command without establishing a connection"))
                } else {
                    Ok(Dispatch::Forward)
                }
            },
        }
    }

    /// Picks the capabilities for a new session; no match is a failure to
    /// create the session, and nothing is started.
    pub fn negotiate<T: BrowserCapabilities>(params: &NewSessionParameters, browser_capabilities: &mut T) -> (r: WebDriverResult<Capabilities>)
        ensures
            params matches NewSessionParameters::Legacy(l) ==> (r matches Ok(c)
                && members_view(c@) == legacy_merge(members_view(l.required@), members_view(l.desired@))),
            params matches NewSessionParameters::Spec(p) ==> (any_shadowing(*p) ==> (r matches Err(e)
                && e.status == ErrorStatus::InvalidArgument)),
            params matches NewSessionParameters::Spec(p) ==> (r matches Ok(c) ==> exists|i: int|
                0 <= i < candidates(*p).len() && members_view(c@) == #[trigger] candidates(*p)[i]),
            params matches NewSessionParameters::Spec(p) ==> (!any_shadowing(*p) && (forall|i: int|
                0 <= i < candidates(*p).len() ==> all_entries_ok(#[trigger] candidates(*p)[i])
                    && !has_extension_key(candidates(*p)[i])) ==> (r is Ok || (r matches Err(e)
                && e.status == ErrorStatus::SessionNotCreated))),
            params matches NewSessionParameters::Spec(p) ==> (!any_shadowing(*p) && (forall|i: int|
                0 <= i < candidates(*p).len() ==> all_entries_ok(#[trigger] candidates(*p)[i])
                    && !has_extension_key(candidates(*p)[i])) && !asks_browser(candidates(*p)[0])
                ==> (r matches Ok(c) && members_view(c@) == candidates(*p)[0])),
            params matches NewSessionParameters::Spec(p) ==> (!any_shadowing(*p) && (exists|i: int|
                0 <= i < candidates(*p).len() && !all_entries_ok(#[trigger] candidates(*p)[i])) ==> r is Err),
            params matches NewSessionParameters::Spec(p) ==> ((r matches Err(e) && e.status == ErrorStatus::SessionNotCreated)
                ==> (forall|i: int| 0 <= i < candidates(*p).len() ==> asks_browser(#[trigger] candidates(*p)[i]))
                || (exists|i: int| 0 <= i < candidates(*p).len() && has_extension_key(#[trigger] candidates(*p)[i]))),
            params matches NewSessionParameters::Spec(p) ==> (any_shadowing(*p) || (exists|i: int|
                0 <= i < candidates(*p).len() && !all_entries_ok(#[trigger] candidates(*p)[i])))
                ==> *final(browser_capabilities) == *old(browser_capabilities),
    {
        match params.match_browser(browser_capabilities)? {
            Some(c) => Ok(c),
            None => Err(WebDriverError::new(ErrorStatus::SessionNotCreated, "Unable to find a matching set of capabilities")),
        }
    }

    /// Plans how to bring up the browser on the configured port, or on
    /// `free_port` where none is configured.
    pub fn launch_plan(&self, free_port: u16, extra_args: Vec<String>) -> (r: WebDriverResult<LaunchPlan>)
        ensures
            !self.settings.connect_existing && self.settings.binary is None ==> (r matches Err(e)
                && e.status == ErrorStatus::SessionNotCreated),
            self.settings.connect_existing || self.settings.binary is Some ==> (r matches Ok(p)
                && p.port == (match self.settings.port { Some(x) => x, None => free_port })
                && p.start_browser == !self.settings.connect_existing
                && strings_view(p.args@) == launch_args(self.settings.jsdebugger, strings_view(extra_args@))
                && Seq::new(p.env@.len(), |i: int| (p.env@[i].0@, p.env@[i].1@)) == crash_reporter_env()),
    {
        let port = match self.settings.port {
            Some(x) => x,
            None => free_port,
        };
        let start_browser = !self.settings.connect_existing;
        if start_browser && self.settings.binary.is_none() {
            return Err(WebDriverError::new(ErrorStatus::SessionNotCreated, "Expected browser binary location, but unable to find binary in default location, no 'moz:firefoxOptions.binary' capability provided, and no binary flag set on the command line"));
        }
        let binary = match &self.settings.binary {
            Some(b) => Some(b.clone()),
            None => None,
        };
        let mut args: Vec<String> = vec!["-marionette".to_string()];
        if self.settings.jsdebugger {
            args.push("-jsdebugger".to_string());
        }
        let ghost head = strings_view(args@);
        let ghost ext = strings_view(extra_args@);
        let mut i: usize = 0;
        while i < extra_args.len()
            invariant
                ext == strings_view(extra_args@),
                i <= extra_args@.len(),
                strings_view(args@) == head + ext.subrange(0, i as int),
            decreases extra_args@.len() - i,
        {
            let ghost before = args@;
            args.push(extra_args[i].clone());
            assert(strings_view(args@) =~= strings_view(before).push(ext[i as int]));
            assert(head + ext.subrange(0, i + 1) =~= (head + ext.subrange(0, i as int)).push(ext[i as int]));
            i += 1;
        }
        assert(ext.subrange(0, i as int) =~= ext);
        assert(head =~= seq!["-marionette"@] + (if self.settings.jsdebugger { seq!["-jsdebugger"@] } else { Seq::<Seq<char>>::empty() }));
        let env = vec![
            ("MOZ_CRASHREPORTER".to_string(), "1".to_string()),
            ("MOZ_CRASHREPORTER_NO_REPORT".to_string(), "1".to_string()),
            ("MOZ_CRASHREPORTER_SHUTDOWN".to_string(), "1".to_string()),
        ];
        assert(Seq::new(env@.len(), |i: int| (env@[i].0@, env@[i].1@)) =~= crash_reporter_env());
        Ok(LaunchPlan { port, start_browser, binary, args, env })
    }

    /// Takes on the connection of a new session, and the browser if one was started.
    pub fn session_started(&mut self, connection: MarionetteConnection, browser_started: bool)
        ensures
            final(self).connection is Some,
            final(self).browser == browser_started,
    {
        self.connection = Some(connection);
        self.browser = browser_started;
    }

    /// The error of a forwarded command as reported: a failed new-session
    /// command also tears the session down.
    pub fn command_failed(msg: &WebDriverMessage, error: WebDriverError) -> (r: WebDriverError)
        ensures
            r.status == error.status,
            r.message == error.message,
            r.stack == error.stack,
            r.delete_session == (error.delete_session || msg.command is NewSession),
    {
        let mut e = error;
        if let WebDriverCommand::NewSession(_) = &msg.command {
            e.delete_session = true;
        }
        e
    }

    /// The error of a step taken once the browser was started and a
    /// connection attempted (connecting, the handshake): reported as it is,
    /// and tearing the session down.
    pub fn startup_failed(error: WebDriverError) -> (r: WebDriverError)
        ensures
            r.status == error.status,
            r.message == error.message,
            r.stack == error.stack,
            r.delete_session,
    {
        let mut e = error;
        e.delete_session = true;
        e
    }

    /// The command that asks the browser to quit at the end of a session.
    pub fn quit_message(session_id: String) -> (r: WebDriverMessage)
        ensures
            r.command is DeleteSession,
            r.session_id == Some(session_id),
    {
        WebDriverMessage { session_id: Some(session_id), command: WebDriverCommand::DeleteSession }
    }

    /// Ends the session: the connection is closed and dropped, and the
    /// browser forgotten, so that a new session can start.
    pub fn session_ended(&mut self)
        ensures
            final(self).connection is None,
            !final(self).browser,
    {
        if let Some(c) = &mut self.connection {
            c.close();
        }
        self.connection = None;
        self.browser = false;
    }
}

} // verus!
