use vstd::prelude::*;
use vstd::string::to_string_from_display_ensures;
use crate::capabilities::Capabilities;
use crate::command::WebDriverMessage;
use crate::error::{ErrorStatus, WebDriverError, WebDriverResult, status_of_code};
use crate::json::{Json, JsonV, Number, get_member};
use crate::message::{MarionetteCommand, MarionetteResponse, handshake_ok, parse_handshake, response_value_ok, PROTOCOL_VERSION};
use crate::request::{wire_name, wire_params};
use crate::json::members_view;
use crate::response::WebDriverResponse;
use crate::session::{MarionetteSession, response_kind, reply_answer};

verus! {

/// The loopback address the remote end listens on; it only listens on IPv4.
pub const DEFAULT_HOST: &'static str = "127.0.0.1";

/// How long to keep trying to connect, in milliseconds.
pub const CONNECT_TIMEOUT_MS: u64 = 60000;

/// How long to wait between connection attempts, in milliseconds.
pub const POLL_INTERVAL_MS: u64 = 100;

/// How long to wait for the browser to exit after a session ends, in seconds.
pub const SHUTDOWN_TIMEOUT_SECS: u64 = 70;

/// What was seen of the browser process before a connection attempt.
pub enum ProcessState {
    /// Still running.
    Running,
    /// Exited with this code, or by a signal where there is none.
    Exited(Option<i32>),
    /// Its state could not be read.
    Unknown,
}

/// What to do after an attempt to connect failed.
#[derive(PartialEq, Eq, Structural, Clone, Copy, Debug)]
pub enum RetryDecision {
    /// Wait this many milliseconds and try again.
    Sleep(u64),
    /// Stop trying.
    GiveUp,
}

/// How the message of an early exit begins; the exit status follows.
pub const EXIT_MESSAGE: &'static str = "Process unexpectedly closed with status ";

/// Decides, before an attempt to connect, whether the browser is gone: a
/// process that has exited, or whose state cannot be read, ends the
/// attempts at once. The message names the exit code, `signal` where the
/// process was killed by one, or `{unknown}`; as the browser was started,
/// the error tears the session down.
pub fn check_process(process: &Option<ProcessState>) -> (r: WebDriverResult<()>)
    ensures
        r is Ok <==> (process is None || process matches Some(ProcessState::Running)),
        r matches Err(e) ==> e.status == ErrorStatus::UnknownError && e.delete_session,
        process matches Some(ProcessState::Exited(Some(code))) ==> (r matches Err(e)
            && exists|s: String| to_string_from_display_ensures::<i32>(&code, s) && e.message@ == EXIT_MESSAGE@ + s@),
        process matches Some(ProcessState::Exited(None)) ==> (r matches Err(e) && e.message@ == EXIT_MESSAGE@ + "signal"@),
        process matches Some(ProcessState::Unknown) ==> (r matches Err(e) && e.message@ == EXIT_MESSAGE@ + "{unknown}"@),
{
    let status = match process {
        None => {
            return Ok(());
        },
        Some(ProcessState::Running) => {
            return Ok(());
        },
        Some(ProcessState::Exited(Some(code))) => code.to_string(),
        Some(ProcessState::Exited(None)) => "signal".to_string(),
        Some(ProcessState::Unknown) => "{unknown}".to_string(),
    };
    let message = EXIT_MESSAGE.to_string().concat(status.as_str());
    Err(WebDriverError { status: ErrorStatus::UnknownError, message, stack: None, delete_session: true })
}

/// Decides after a failed attempt to connect: try again after the poll
/// interval while the timeout has not run out.
pub fn after_failed_attempt(elapsed_ms: u64) -> (r: RetryDecision)
    ensures
        elapsed_ms < CONNECT_TIMEOUT_MS ==> r == RetryDecision::Sleep(POLL_INTERVAL_MS),
        elapsed_ms >= CONNECT_TIMEOUT_MS ==> r == RetryDecision::GiveUp,
{
    if elapsed_ms < CONNECT_TIMEOUT_MS {
        RetryDecision::Sleep(POLL_INTERVAL_MS)
    } else {
        RetryDecision::GiveUp
    }
}

/// What came back from the remote end for a command.
pub enum Reply {
    /// Reading from the stream failed.
    ReadFailed,
    /// The bytes were no JSON text.
    Malformed,
    /// The JSON value read.
    Value(Json),
}

/// The wire connection to the remote end and the session it carries.
pub struct MarionetteConnection {
    pub port: u16,
    /// Whether the stream is open and the handshake done.
    pub connected: bool,
    pub session: MarionetteSession,
}

fn fatal(message: &str) -> (r: WebDriverError)
    ensures
        r.status == ErrorStatus::UnknownError,
        r.delete_session,
{
    let mut e = WebDriverError::new(ErrorStatus::UnknownError, message);
    e.delete_session = true;
    e
}

impl MarionetteConnection {
    pub fn new(port: u16, session_id: Option<String>) -> (r: MarionetteConnection)
        ensures
            r.port == port,
            !r.connected,
            r.session.spec_command_id() == 0,
            r.session.session_id@ == match session_id {
                Some(s) => s@,
                None => Seq::<char>::empty(),
            },
    {
        MarionetteConnection { port, connected: false, session: MarionetteSession::new(session_id) }
    }

    /// Checks the first message of a fresh stream; only the supported
    /// protocol version is accepted, and no command goes out before. A
    /// failed handshake tears the session down.
    pub fn handshake(&mut self, message: &Json) -> (r: WebDriverResult<()>)
        ensures
            r is Ok <==> handshake_ok(message@),
            r is Ok ==> final(self).connected && final(self).session.spec_protocol() == Some(PROTOCOL_VERSION)
                && (final(self).session.application_type matches Some(a)
                && get_member(message@, "applicationType"@) == Some(JsonV::String(a@))),
            r is Err ==> final(self).connected == old(self).connected
                && final(self).session.spec_protocol() == old(self).session.spec_protocol(),
            r matches Err(e) ==> e.status == ErrorStatus::UnknownError && e.delete_session,
            final(self).session.spec_command_id() == old(self).session.spec_command_id(),
    {
        let h = match parse_handshake(message) {
            Ok(h) => h,
            Err(mut e) => {
                e.delete_session = true;
                return Err(e);
            },
        };
        self.session.record_handshake(h);
        self.connected = true;
        Ok(())
    }

    /// Closes the connection; no command goes out after.
    pub fn close(&mut self)
        ensures
            !final(self).connected,
            final(self).session.spec_command_id() == old(self).session.spec_command_id(),
    {
        self.connected = false;
    }

    /// Numbers the next command and puts it in wire form; it fails, fatally for the
    /// session, where the connection is not open.
    pub fn begin_command(&mut self, capabilities: Option<Capabilities>, msg: &WebDriverMessage) -> (r: WebDriverResult<MarionetteCommand>)
        requires
            !(msg.command is Status),
            msg.command is NewSession ==> capabilities is Some,
            old(self).session.spec_command_id() < u64::MAX,
        ensures
            !old(self).connected ==> (r matches Err(e) && e.status == ErrorStatus::UnknownError && e.delete_session)
                && final(self).session.spec_command_id() == old(self).session.spec_command_id(),
            old(self).connected ==> (r matches Ok(c) && c.id == old(self).session.spec_command_id() + 1
                && c.name@ == wire_name(msg.command)
                && members_view(c.params@) == wire_params(msg.command, match capabilities {
                    Some(caps) => members_view(caps@),
                    None => Seq::empty(),
                })) && final(self).session.spec_command_id() == old(self).session.spec_command_id() + 1,
            final(self).connected == old(self).connected,
    {
        if !self.connected {
            return Err(fatal("Tried to write before opening stream"));
        }
        let id = self.session.next_command_id();
        MarionetteCommand::from_webdriver_message(id, capabilities, msg)
    }

    /// The error for a command that could not be written: fatal for the session.
    pub fn write_failed(&self) -> (r: WebDriverError)
        ensures
            r.status == ErrorStatus::UnknownError,
            r.delete_session,
    {
        fatal("Failed to write response to stream")
    }

    /// Reads the reply to `msg`: a failed read is fatal for the session, a
    /// malformed reply an unknown error; the rest goes through the session.
    pub fn finish_command(&mut self, msg: &WebDriverMessage, reply: Reply) -> (r: WebDriverResult<WebDriverResponse>)
        requires
            !(msg.command is Status),
        ensures
            reply is ReadFailed ==> (r matches Err(e) && e.status == ErrorStatus::UnknownError && e.delete_session),
            reply is Malformed ==> (r matches Err(e) && e.status == ErrorStatus::UnknownError),
            reply matches Reply::Value(j) && !response_value_ok(j@) ==> (r matches Err(e) && e.status == ErrorStatus::UnknownError),
            reply is Value && response_value_ok(reply->Value_0@)
                && reply->Value_0@->Array_0[1] != JsonV::Number(Number::PosInt(old(self).session.spec_command_id()))
                ==> (r matches Err(e) && e.status == ErrorStatus::UnknownError),
            reply is Value && response_value_ok(reply->Value_0@)
                && reply->Value_0@->Array_0[1] == JsonV::Number(Number::PosInt(old(self).session.spec_command_id()))
                && !(reply->Value_0@->Array_0[2] is Null) ==> (r matches Err(e)
                && e.status == status_of_code(get_member(reply->Value_0@->Array_0[2], "error"@)->Some_0->String_0)),
            reply is Value && response_value_ok(reply->Value_0@)
                && reply->Value_0@->Array_0[1] == JsonV::Number(Number::PosInt(old(self).session.spec_command_id()))
                && reply->Value_0@->Array_0[2] is Null ==> match reply_answer(response_kind(msg.command), reply->Value_0@->Array_0[3]) {
                    Ok(v) => r matches Ok(x) && x@ == v,
                    Err(s) => r matches Err(e) && e.status == s,
                },
            final(self).session.spec_command_id() == old(self).session.spec_command_id(),
            final(self).connected == old(self).connected,
    {
        match reply {
            Reply::ReadFailed => Err(fatal("Failed to decode response from marionette")),
            Reply::Malformed => Err(WebDriverError::new(ErrorStatus::UnknownError, "Failed to parse response from marionette")),
            Reply::Value(j) => {
                let resp = MarionetteResponse::from_json(j)?;
                self.session.response(msg, resp)
            },
        }
    }
}

} // verus!
