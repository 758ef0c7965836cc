use vstd::prelude::*;
use crate::capabilities::Capabilities;
use crate::error::{ErrorStatus, WebDriverError, WebDriverResult, status_from_code, status_of_code};
use crate::json::{Json, JsonV, Number, members_view, get_member, json_get, lemma_array_view, lemma_object_view};

verus! {

/// A command on the wire: `[0, id, name, params]`.
pub struct MarionetteCommand {
    pub id: u64,
    pub name: String,
    pub params: Capabilities,
}

/// The JSON value of the command `(id, name, params)`.
pub open spec fn command_value(id: u64, name: Seq<char>, params: Seq<(Seq<char>, JsonV)>) -> JsonV {
    JsonV::Array(seq![
        JsonV::Number(Number::PosInt(0)),
        JsonV::Number(Number::PosInt(id)),
        JsonV::String(name),
        JsonV::Object(params),
    ])
}

/// The command that a JSON value spells, if it spells one.
pub open spec fn command_of(v: JsonV) -> Option<(u64, Seq<char>, Seq<(Seq<char>, JsonV)>)> {
    match v {
        JsonV::Array(a) => if a.len() == 4 && a[0] == JsonV::Number(Number::PosInt(0)) {
            match (a[1], a[2], a[3]) {
                (JsonV::Number(Number::PosInt(id)), JsonV::String(name), JsonV::Object(params)) => Some((id, name, params)),
                _ => None,
            }
        } else {
            None
        },
        _ => None,
    }
}

/// A command read back from its JSON value is the command that was written.
pub proof fn lemma_command_round_trip(id: u64, name: Seq<char>, params: Seq<(Seq<char>, JsonV)>)
    ensures
        command_of(command_value(id, name, params)) == Some((id, name, params)),
{
}

impl MarionetteCommand {
    pub fn new(id: u64, name: String, params: Capabilities) -> (r: MarionetteCommand)
        ensures
            r.id == id,
            r.name == name,
            r.params == params,
    {
        MarionetteCommand { id, name, params }
    }

    /// The command as the JSON value that goes on the wire.
    pub fn to_json(self) -> (r: Json)
        ensures
            r@ == command_value(self.id, self.name@, members_view(self.params@)),
    {
        let ghost params = self.params;
        let ghost name = self.name;
        let ghost id = self.id;
        let v = vec![Json::Number(Number::PosInt(0)), Json::Number(Number::PosInt(self.id)), Json::String(self.name), Json::Object(self.params)];
        let r = Json::Array(v);
        proof {
            lemma_array_view(v);
            lemma_object_view(params);
            assert(r@->Array_0[3]->Object_0 =~= members_view(params@));
            assert(r@->Array_0 =~= command_value(id, name@, members_view(params@))->Array_0);
        }
        r
    }

    /// Reads a command back from its JSON value.
    pub fn from_json(j: Json) -> (r: Option<MarionetteCommand>)
        ensures
            r is None <==> command_of(j@) is None,
            r matches Some(c) ==> command_of(j@) == Some((c.id, c.name@, members_view(c.params@))),
    {
        let ghost jv = j@;
        match j {
            Json::Array(mut a) => {
                proof {
                    lemma_array_view(a);
                }
                if a.len() != 4 {
                    return None;
                }
                let params = a.pop().unwrap();
                let name = a.pop().unwrap();
                let id = a.pop().unwrap();
                let kind = a.pop().unwrap();
                match (kind, id, name, params) {
                    (Json::Number(Number::PosInt(0)), Json::Number(Number::PosInt(id)), Json::String(name), Json::Object(params)) => {
                        proof {
                            lemma_object_view(params);
                            assert(jv->Array_0[3]->Object_0 =~= members_view(params@));
                        }
                        Some(MarionetteCommand { id, name, params })
                    },
                    _ => None,
                }
            },
            _ => None,
        }
    }
}

/// An error reported by the remote end.
pub struct MarionetteError {
    pub code: String,
    pub message: String,
    pub stacktrace: Option<String>,
}

/// A response on the wire: `[1, id, error, result]`.
pub struct MarionetteResponse {
    pub id: u64,
    pub error: Option<MarionetteError>,
    pub result: Json,
}

impl MarionetteError {
    /// The error as the caller sees it: the status that its code stands for,
    /// its message, and its stack trace where it has one.
    pub fn into_webdriver_error(self) -> (r: WebDriverError)
        ensures
            r.status == status_of_code(self.code@),
            r.message == self.message,
            r.stack == self.stacktrace,
            !r.delete_session,
    {
        let status = status_from_code(self.code.as_str());
        match self.stacktrace {
            Some(stack) => WebDriverError::new_with_stack(status, self.message, stack),
            None => WebDriverError { status, message: self.message, stack: None, delete_session: false },
        }
    }
}

/// Whether a JSON value reads as an optional string: absent, `null` or a string.
pub open spec fn optional_string_ok(v: Option<JsonV>) -> bool {
    match v {
        None => true,
        Some(JsonV::Null) => true,
        Some(JsonV::String(_)) => true,
        _ => false,
    }
}

/// Whether a JSON value reads as a remote error: an object with string
/// members `error` and `message`, and an optional string `stacktrace`.
pub open spec fn error_value_ok(v: JsonV) -> bool {
    &&& v is Object
    &&& get_member(v, "error"@) matches Some(JsonV::String(_))
    &&& get_member(v, "message"@) matches Some(JsonV::String(_))
    &&& optional_string_ok(get_member(v, "stacktrace"@))
}

/// Whether a JSON value reads as a response.
pub open spec fn response_value_ok(v: JsonV) -> bool {
    &&& v matches JsonV::Array(a)
    &&& a.len() == 4
    &&& a[0] == JsonV::Number(Number::PosInt(1))
    &&& a[1] matches JsonV::Number(Number::PosInt(_))
    &&& (a[2] is Null || error_value_ok(a[2]))
}

/// Whether `e` holds the code, message and stack trace that the error object `v` carries.
pub open spec fn error_fields(v: JsonV, e: MarionetteError) -> bool {
    &&& get_member(v, "error"@) == Some(JsonV::String(e.code@))
    &&& get_member(v, "message"@) == Some(JsonV::String(e.message@))
    &&& match e.stacktrace {
        Some(st) => get_member(v, "stacktrace"@) == Some(JsonV::String(st@)),
        None => get_member(v, "stacktrace"@) is None || get_member(v, "stacktrace"@) == Some(JsonV::Null),
    }
}

fn decode_error() -> (r: WebDriverError)
    ensures
        r.status == ErrorStatus::UnknownError,
{
    WebDriverError::new(ErrorStatus::UnknownError, "Failed to decode response from marionette")
}

fn optional_string(v: Option<&Json>) -> (r: Result<Option<String>, ()>)
    ensures
        r is Ok <==> optional_string_ok(match v { Some(j) => Some(j@), None => None }),
        r matches Ok(Some(s)) ==> v matches Some(j) && j@ == JsonV::String(s@),
        r matches Ok(None) ==> (v is None || (v matches Some(j) && j@ is Null)),
{
    match v {
        None => Ok(None),
        Some(Json::Null) => Ok(None),
        Some(Json::String(s)) => Ok(Some(s.clone())),
        _ => Err(()),
    }
}

fn error_from_json(v: &Json) -> (r: Option<MarionetteError>)
    ensures
        r is Some <==> error_value_ok(v@),
        r matches Some(e) ==> error_fields(v@, e),
{
    match v {
        Json::Object(_) => {},
        _ => {
            return None;
        },
    }
    let code = match json_get(v, "error") {
        Some(Json::String(s)) => s.clone(),
        _ => {
            return None;
        },
    };
    let message = match json_get(v, "message") {
        Some(Json::String(s)) => s.clone(),
        _ => {
            return None;
        },
    };
    let stacktrace = match optional_string(json_get(v, "stacktrace")) {
        Ok(s) => s,
        Err(()) => {
            return None;
        },
    };
    Some(MarionetteError { code, message, stacktrace })
}

impl MarionetteResponse {
    /// Reads a response from its JSON value; anything else is an unknown error.
    pub fn from_json(j: Json) -> (r: WebDriverResult<MarionetteResponse>)
        ensures
            r is Ok <==> response_value_ok(j@),
            r matches Ok(resp) ==> j@->Array_0[1] == JsonV::Number(Number::PosInt(resp.id))
                && resp.result@ == j@->Array_0[3]
                && (resp.error is None <==> j@->Array_0[2] is Null)
                && (resp.error matches Some(e) ==> error_fields(j@->Array_0[2], e)),
            r matches Err(e) ==> e.status == ErrorStatus::UnknownError,
    {
        let ghost jv = j@;
        match j {
            Json::Array(mut a) => {
                proof {
                    lemma_array_view(a);
                }
                if a.len() != 4 {
                    return Err(decode_error());
                }
                let result = a.pop().unwrap();
                let error = a.pop().unwrap();
                let id = a.pop().unwrap();
                let kind = a.pop().unwrap();
                match kind {
                    Json::Number(Number::PosInt(1)) => {},
                    _ => {
                        return Err(decode_error());
                    },
                }
                let id = match id {
                    Json::Number(Number::PosInt(id)) => id,
                    _ => {
                        return Err(decode_error());
                    },
                };
                let error = match error {
                    Json::Null => None,
                    e => match error_from_json(&e) {
                        Some(e) => Some(e),
                        None => {
                            return Err(decode_error());
                        },
                    },
                };
                Ok(MarionetteResponse { id, error, result })
            },
            _ => Err(decode_error()),
        }
    }
}

/// What the remote end sends first on a new connection.
pub struct MarionetteHandshake {
    pub protocol: u16,
    pub application_type: String,
}

/// The only protocol version spoken here.
pub const PROTOCOL_VERSION: u16 = 3;

/// Whether a JSON value reads as a handshake of the supported protocol version.
pub open spec fn handshake_ok(v: JsonV) -> bool {
    &&& v is Object
    &&& get_member(v, "marionetteProtocol"@) == Some(JsonV::Number(Number::PosInt(PROTOCOL_VERSION as u64)))
    &&& get_member(v, "applicationType"@) matches Some(JsonV::String(_))
}

/// Reads the handshake, refusing any protocol version but the supported one.
pub fn parse_handshake(j: &Json) -> (r: WebDriverResult<MarionetteHandshake>)
    ensures
        r is Ok <==> handshake_ok(j@),
        r matches Ok(h) ==> h.protocol == PROTOCOL_VERSION
            && get_member(j@, "applicationType"@) == Some(JsonV::String(h.application_type@)),
        r matches Err(e) ==> e.status == ErrorStatus::UnknownError,
{
    match j {
        Json::Object(_) => {},
        _ => {
            return Err(WebDriverError::new(ErrorStatus::UnknownError, "handshake is not an object"));
        },
    }
    let protocol = match json_get(j, "marionetteProtocol") {
        Some(Json::Number(Number::PosInt(p))) => *p,
        _ => {
            return Err(WebDriverError::new(ErrorStatus::UnknownError, "handshake has no protocol version"));
        },
    };
    let application_type = match json_get(j, "applicationType") {
        Some(Json::String(s)) => s.clone(),
        _ => {
            return Err(WebDriverError::new(ErrorStatus::UnknownError, "handshake has no application type"));
        },
    };
    if protocol != PROTOCOL_VERSION as u64 {
        return Err(WebDriverError::new(ErrorStatus::UnknownError, "Unsupported Marionette protocol version, required 3"));
    }
    Ok(MarionetteHandshake { protocol: PROTOCOL_VERSION, application_type })
}

} // verus!
