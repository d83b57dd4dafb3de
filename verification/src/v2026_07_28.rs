//! The protocol revision of 2026-07-28: its error taxonomy and the
//! JSON-RPC error objects it maps to, cache hints, completion, content
//! blocks, the compliance harness, discovery, elicitation, the `Mcp-Param` headers,
//! capabilities, input requests, logging, the typed `_meta` objects and
//! notifications.

pub mod caching;
pub mod completion;
pub mod content;
pub mod compliance;
pub mod discover;
pub mod elicitation;
pub mod headers;
pub mod initialize;
pub mod input_required;
pub mod json_rpc;
pub mod logging;
pub mod meta;
pub mod notifications;
pub mod ping;

use vstd::prelude::*;
use crate::json::{Json, is_json_string, is_json_string_array};
use crate::rpc_error::{JsonRpcErrorObject, INVALID_PARAMS_CODE, INTERNAL_ERROR_CODE, is_server_error_code};
use crate::carried::{io_error_text, serde_json_error_text};
use crate::text::{str_debug, str_debug_text, owned, concat2, concat3, concat4, concat5, concat6, concat7, string_of, i64_decimal, int_decimal};

verus! {

/// The protocol version string of this revision, as it appears on the wire.
pub const MCP_VERSION: &'static str = "2026-07-28";

/// The `Debug` forms of the strings of `v`, separated by `, `.
pub open spec fn debug_items(v: Seq<Seq<char>>) -> Seq<char>
    decreases v.len(),
{
    if v.len() == 0 {
        seq![]
    } else if v.len() == 1 {
        str_debug_text(v[0])
    } else {
        debug_items(v.drop_last()) + ", "@ + str_debug_text(v.last())
    }
}

/// What `format!("{:?}", v)` gives for a list of strings: the `Debug` form
/// of each string, separated by `, `, in square brackets.
pub open spec fn strings_debug_text(v: Seq<Seq<char>>) -> Seq<char> {
    "["@ + debug_items(v) + "]"@
}

/// The `Debug` text of a list of strings, as `Vec<String>` writes it.
pub(crate) fn strings_debug(v: &Vec<String>) -> (r: String)
    ensures
        r@ == strings_debug_text(v@.map_values(|s: String| s@)),
{
    let ghost views = v@.map_values(|s: String| s@);
    let mut out = owned("[");
    proof {
        reveal_strlit("[");
        reveal_strlit(", ");
        reveal_strlit("]");
    }
    let mut i: usize = 0;
    while i < v.len()
        invariant
            i <= v@.len(),
            views == v@.map_values(|s: String| s@),
            out@ == "["@ + debug_items(views.take(i as int)),
        decreases v.len() - i,
    {
        let d = str_debug(v[i].as_str());
        proof {
            assert(views.take(i + 1).drop_last() =~= views.take(i as int));
            assert(views.take(i + 1).last() == views[i as int]);
        }
        if i == 0 {
            out.append(d.as_str());
            assert(views.take(1) =~= seq![views[0]]);
        } else {
            out.append(", ");
            out.append(d.as_str());
        }
        i = i + 1;
    }
    assert(views.take(v@.len() as int) =~= views);
    out.append("]");
    out
}

/// Errors of the protocol layer.
#[derive(Debug)]
pub enum McpError {
    VersionMismatch { expected: String, actual: String },
    InvalidCapability(String),
    ToolNotFound(String),
    ResourceNotFound(String),
    PromptNotFound(String),
    InvalidRequest { message: String },
    InvalidParameters(String),
    MissingParameter(String),
    InvalidParameterType { param: String, expected: String, actual: String },
    ParameterOutOfRange { param: String, value: String, constraint: String },
    ToolExecutionError(String),
    ResourceExecutionError(String),
    PromptExecutionError(String),
    ResourceAccessDenied(String),
    ConfigurationError(String),
    SessionError(String),
    ValidationError(String),
    IoError(std::io::Error),
    SerializationError(serde_json::Error),
    TransportError(String),
    JsonRpcProtocolError(String),
    /// A JSON-RPC error reproduced verbatim: code, message and optional data.
    JsonRpcError { code: i64, message: String, data: Option<Json> },
    /// `-32021`: the server requires a client capability that the request did not declare.
    MissingRequiredClientCapability { required: Json },
    /// `-32022`: the requested protocol version is not supported.
    UnsupportedProtocolVersion { supported: Vec<String>, requested: String },
    /// The handler needs client input before it can complete (not a wire
    /// error). The input requests are carried as JSON objects keyed by their
    /// server-assigned ids.
    InputRequired { input_requests: Option<Vec<(String, Json)>>, request_state: Option<String> },
}

/// The frozen legacy allocations of framework-internal codes in `-32000..=-32019`.
pub open spec fn is_legacy_allocation(code: int) -> bool {
    code == -32000 || (-32019 <= code <= -32010)
}

/// Whether `code` lies in the JSON-RPC reserved range `-32768..=-32000`.
pub open spec fn in_reserved_range(code: int) -> bool {
    -32768 <= code <= -32000
}

impl McpError {
    /// The JSON-RPC error code that `self` is reported with.
    pub open spec fn rpc_code(&self) -> int {
        match *self {
            McpError::InvalidRequest { .. } => -32602,
            McpError::InvalidParameters(_) => -32602,
            McpError::MissingParameter(_) => -32602,
            McpError::InvalidParameterType { .. } => -32602,
            McpError::ParameterOutOfRange { .. } => -32602,
            McpError::ToolNotFound(_) => -32602,
            McpError::ResourceNotFound(_) => -32602,
            McpError::PromptNotFound(_) => -32602,
            McpError::MissingRequiredClientCapability { .. } => -32021,
            McpError::UnsupportedProtocolVersion { .. } => -32022,
            McpError::InputRequired { .. } => -32603,
            McpError::ToolExecutionError(_) => -32010,
            McpError::ResourceExecutionError(_) => -32012,
            McpError::PromptExecutionError(_) => -32013,
            McpError::ResourceAccessDenied(_) => -32011,
            McpError::ValidationError(_) => -32014,
            McpError::InvalidCapability(_) => -32015,
            McpError::VersionMismatch { .. } => -32016,
            McpError::ConfigurationError(_) => -32017,
            McpError::SessionError(_) => -32018,
            McpError::TransportError(_) => -32019,
            McpError::JsonRpcProtocolError(_) => -32000,
            McpError::IoError(_) => -32603,
            McpError::SerializationError(_) => -32603,
            McpError::JsonRpcError { code, .. } => code as int,
        }
    }

    /// The errors that the framework raises for its own purposes, outside
    /// any code that the specification assigns.
    pub open spec fn is_framework_internal(&self) -> bool {
        match *self {
            McpError::ToolExecutionError(_) | McpError::ResourceAccessDenied(_)
            | McpError::ResourceExecutionError(_) | McpError::PromptExecutionError(_)
            | McpError::ValidationError(_) | McpError::InvalidCapability(_)
            | McpError::VersionMismatch { .. } | McpError::ConfigurationError(_)
            | McpError::SessionError(_) | McpError::TransportError(_)
            | McpError::JsonRpcProtocolError(_) => true,
            _ => false,
        }
    }

    /// The position of `self`'s variant in the declaration of `McpError`.
    pub open spec fn variant_index(&self) -> int {
        match *self {
            McpError::VersionMismatch { .. } => 0,
            McpError::InvalidCapability(_) => 1,
            McpError::ToolNotFound(_) => 2,
            McpError::ResourceNotFound(_) => 3,
            McpError::PromptNotFound(_) => 4,
            McpError::InvalidRequest { .. } => 5,
            McpError::InvalidParameters(_) => 6,
            McpError::MissingParameter(_) => 7,
            McpError::InvalidParameterType { .. } => 8,
            McpError::ParameterOutOfRange { .. } => 9,
            McpError::ToolExecutionError(_) => 10,
            McpError::ResourceExecutionError(_) => 11,
            McpError::PromptExecutionError(_) => 12,
            McpError::ResourceAccessDenied(_) => 13,
            McpError::ConfigurationError(_) => 14,
            McpError::SessionError(_) => 15,
            McpError::ValidationError(_) => 16,
            McpError::IoError(_) => 17,
            McpError::SerializationError(_) => 18,
            McpError::TransportError(_) => 19,
            McpError::JsonRpcProtocolError(_) => 20,
            McpError::JsonRpcError { .. } => 21,
            McpError::MissingRequiredClientCapability { .. } => 22,
            McpError::UnsupportedProtocolVersion { .. } => 23,
            McpError::InputRequired { .. } => 24,
        }
    }

    /// Whether `r` carries the message and data that `self` is reported with
    /// (the I/O and serialization errors: their own display text after a
    /// fixed lead-in).
    pub open spec fn reported_as(&self, r: JsonRpcErrorObject) -> bool {
        match *self {
            McpError::InvalidRequest { message } => r.message@ == message@ && r.data is None,
            McpError::InvalidParameters(m) => r.message@ == m@ && r.data is None,
            McpError::MissingParameter(p) => r.message@ == "Missing required parameter: "@ + p@
                && r.data is None,
            McpError::InvalidParameterType { param, expected, actual } => r.message@
                == "Invalid parameter type for '"@ + param@ + "': expected "@ + expected@
                + ", got "@ + actual@ && r.data is None,
            McpError::ParameterOutOfRange { param, value, constraint } => r.message@
                == "Parameter '"@ + param@ + "' value "@ + value@ + " is out of range: "@
                + constraint@ && r.data is None,
            McpError::ToolNotFound(n) => r.message@ == "Unknown tool: "@ + n@ && r.data is None,
            McpError::ResourceNotFound(u) => r.message@ == "Unknown resource: "@ + u@
                && r.data is None,
            McpError::PromptNotFound(n) => r.message@ == "Unknown prompt: "@ + n@ && r.data is None,
            McpError::MissingRequiredClientCapability { required } => {
                &&& r.message@ == "Missing required client capability"@
                &&& r.data matches Some(Json::Object(m)) && m@.len() == 1
                    && m@[0].0@ == "requiredCapabilities"@ && m@[0].1.same(required)
            },
            McpError::UnsupportedProtocolVersion { supported, requested } => {
                &&& r.message@ == "Unsupported protocol version"@
                &&& r.data matches Some(Json::Object(m)) && m@.len() == 2
                    && m@[0].0@ == "supported"@ && m@[1].0@ == "requested"@
                    && is_json_string(m@[1].1, requested@)
                    && is_json_string_array(m@[0].1, supported@)
            },
            McpError::InputRequired { .. } => r.message@
                == "InputRequired escaped MRTR conversion (handler bug)"@ && r.data is None,
            McpError::ToolExecutionError(m) => r.message@ == "Tool execution failed: "@ + m@
                && r.data is None,
            McpError::ResourceExecutionError(m) => r.message@ == "Resource execution failed: "@
                + m@ && r.data is None,
            McpError::PromptExecutionError(m) => r.message@ == "Prompt execution failed: "@ + m@
                && r.data is None,
            McpError::ResourceAccessDenied(u) => r.message@ == "Resource access denied: "@ + u@
                && r.data is None,
            McpError::ValidationError(m) => r.message@ == "Validation error: "@ + m@
                && r.data is None,
            McpError::InvalidCapability(c) => r.message@ == "Invalid capability: "@ + c@
                && r.data is None,
            McpError::VersionMismatch { expected, actual } => r.message@
                == "Protocol version mismatch: expected "@ + expected@ + ", got "@ + actual@
                && r.data is None,
            McpError::ConfigurationError(m) => r.message@ == "Configuration error: "@ + m@
                && r.data is None,
            McpError::SessionError(m) => r.message@ == "Session error: "@ + m@ && r.data is None,
            McpError::TransportError(m) => r.message@ == "Transport error: "@ + m@
                && r.data is None,
            McpError::JsonRpcProtocolError(m) => r.message@ == "JSON-RPC protocol error: "@ + m@
                && r.data is None,
            McpError::IoError(_) => r.message@.len() >= 10 && r.message@.subrange(0, 10)
                == "IO error: "@ && r.data is None,
            McpError::SerializationError(_) => r.message@.len() >= 21 && r.message@.subrange(0, 21)
                == "Serialization error: "@ && r.data is None,
            McpError::JsonRpcError { message, data, .. } => r.message@ == message@ && match (
                r.data,
                data,
            ) {
                (None, None) => true,
                (Some(a), Some(b)) => a.same(b),
                _ => false,
            },
        }
    }

    /// Converts the error into the JSON-RPC error object of a 2.0 response.
    /// Request and parameter errors, and unknown tools, resources and
    /// prompts, are "Invalid params" (`-32602`); the capability and version
    /// negotiation failures carry the codes the specification assigns
    /// (`-32021`, `-32022`) with structured data; framework-internal errors
    /// keep their legacy codes in `-32000..=-32019`; I/O and serialization
    /// errors are internal errors; a reproduced JSON-RPC error keeps its code,
    /// message and data.
    pub fn to_error_object(&self) -> (r: JsonRpcErrorObject)
        requires
            self matches McpError::JsonRpcError { code, .. } ==> is_server_error_code(*code),
        ensures
            r.code == self.rpc_code(),
            self.reported_as(r),
    {
        match self {
            McpError::InvalidRequest { message } => JsonRpcErrorObject::invalid_params(message.as_str()),
            McpError::InvalidParameters(msg) => JsonRpcErrorObject::invalid_params(msg.as_str()),
            McpError::MissingParameter(param) => {
                let m = concat2("Missing required parameter: ", param.as_str());
                JsonRpcErrorObject::invalid_params(m.as_str())
            },
            McpError::InvalidParameterType { param, expected, actual } => {
                let m = concat6(
                    "Invalid parameter type for '",
                    param.as_str(),
                    "': expected ",
                    expected.as_str(),
                    ", got ",
                    actual.as_str(),
                );
                JsonRpcErrorObject::invalid_params(m.as_str())
            },
            McpError::ParameterOutOfRange { param, value, constraint } => {
                let m = concat6(
                    "Parameter '",
                    param.as_str(),
                    "' value ",
                    value.as_str(),
                    " is out of range: ",
                    constraint.as_str(),
                );
                JsonRpcErrorObject::invalid_params(m.as_str())
            },
            McpError::ToolNotFound(name) => {
                let m = concat2("Unknown tool: ", name.as_str());
                JsonRpcErrorObject::invalid_params(m.as_str())
            },
            McpError::ResourceNotFound(uri) => {
                let m = concat2("Unknown resource: ", uri.as_str());
                JsonRpcErrorObject::invalid_params(m.as_str())
            },
            McpError::PromptNotFound(name) => {
                let m = concat2("Unknown prompt: ", name.as_str());
                JsonRpcErrorObject::invalid_params(m.as_str())
            },
            McpError::MissingRequiredClientCapability { required } => {
                let mut members: Vec<(String, Json)> = Vec::new();
                members.push((owned("requiredCapabilities"), required.deep_clone()));
                JsonRpcErrorObject::server_error(
                    -32021,
                    "Missing required client capability",
                    Some(Json::Object(members)),
                )
            },
            McpError::UnsupportedProtocolVersion { supported, requested } => {
                let mut items: Vec<Json> = Vec::new();
                let mut i: usize = 0;
                while i < supported.len()
                    invariant
                        i <= supported@.len(),
                        items@.len() == i,
                        forall|j: int| 0 <= j < i ==> is_json_string(#[trigger] items@[j], supported@[j]@),
                    decreases supported.len() - i,
                {
                    items.push(Json::String(supported[i].clone()));
                    i = i + 1;
                }
                let mut members: Vec<(String, Json)> = Vec::new();
                members.push((owned("supported"), Json::Array(items)));
                members.push((owned("requested"), Json::String(requested.clone())));
                JsonRpcErrorObject::server_error(
                    -32022,
                    "Unsupported protocol version",
                    Some(Json::Object(members)),
                )
            },
            McpError::InputRequired { .. } => JsonRpcErrorObject::internal_error(
                Some(owned("InputRequired escaped MRTR conversion (handler bug)")),
            ),
            McpError::ToolExecutionError(msg) => {
                let m = concat2("Tool execution failed: ", msg.as_str());
                JsonRpcErrorObject::server_error(-32010, m.as_str(), None)
            },
            McpError::ResourceExecutionError(msg) => {
                let m = concat2("Resource execution failed: ", msg.as_str());
                JsonRpcErrorObject::server_error(-32012, m.as_str(), None)
            },
            McpError::PromptExecutionError(msg) => {
                let m = concat2("Prompt execution failed: ", msg.as_str());
                JsonRpcErrorObject::server_error(-32013, m.as_str(), None)
            },
            McpError::ResourceAccessDenied(uri) => {
                let m = concat2("Resource access denied: ", uri.as_str());
                JsonRpcErrorObject::server_error(-32011, m.as_str(), None)
            },
            McpError::ValidationError(msg) => {
                let m = concat2("Validation error: ", msg.as_str());
                JsonRpcErrorObject::server_error(-32014, m.as_str(), None)
            },
            McpError::InvalidCapability(cap) => {
                let m = concat2("Invalid capability: ", cap.as_str());
                JsonRpcErrorObject::server_error(-32015, m.as_str(), None)
            },
            McpError::VersionMismatch { expected, actual } => {
                let m = concat4(
                    "Protocol version mismatch: expected ",
                    expected.as_str(),
                    ", got ",
                    actual.as_str(),
                );
                JsonRpcErrorObject::server_error(-32016, m.as_str(), None)
            },
            McpError::ConfigurationError(msg) => {
                let m = concat2("Configuration error: ", msg.as_str());
                JsonRpcErrorObject::server_error(-32017, m.as_str(), None)
            },
            McpError::SessionError(msg) => {
                let m = concat2("Session error: ", msg.as_str());
                JsonRpcErrorObject::server_error(-32018, m.as_str(), None)
            },
            McpError::TransportError(msg) => {
                let m = concat2("Transport error: ", msg.as_str());
                JsonRpcErrorObject::server_error(-32019, m.as_str(), None)
            },
            McpError::JsonRpcProtocolError(msg) => {
                let m = concat2("JSON-RPC protocol error: ", msg.as_str());
                JsonRpcErrorObject::server_error(-32000, m.as_str(), None)
            },
            McpError::IoError(err) => {
                let t = io_error_text(err);
                let m = concat2("IO error: ", t.as_str());
                proof {
                    reveal_strlit("IO error: ");
                    assert(m@.subrange(0, 10) =~= "IO error: "@);
                }
                JsonRpcErrorObject::internal_error(Some(m))
            },
            McpError::SerializationError(err) => {
                let t = serde_json_error_text(err);
                let m = concat2("Serialization error: ", t.as_str());
                proof {
                    reveal_strlit("Serialization error: ");
                    assert(m@.subrange(0, 21) =~= "Serialization error: "@);
                }
                JsonRpcErrorObject::internal_error(Some(m))
            },
            McpError::JsonRpcError { code, message, data } => {
                let d = match data {
                    Some(d) => Some(d.deep_clone()),
                    None => None,
                };
                JsonRpcErrorObject::server_error(*code, message.as_str(), d)
            },
        }
    }
}

impl McpError {
    /// Whether `t` is the display text of `self` (for the I/O and
    /// serialization errors: the error's own display text after a fixed lead-in).
    pub open spec fn displays_as(&self, t: Seq<char>) -> bool {
        match *self {
            McpError::VersionMismatch { expected, actual } => t == "Protocol version mismatch: expected "@
                + expected@ + ", got "@ + actual@,
            McpError::InvalidCapability(c) => t == "Invalid capability: "@ + c@,
            McpError::ToolNotFound(n) => t == "Tool not found: "@ + n@,
            McpError::ResourceNotFound(u) => t == "Resource not found: "@ + u@,
            McpError::PromptNotFound(n) => t == "Prompt not found: "@ + n@,
            McpError::InvalidRequest { message } => t == "Invalid request: "@ + message@,
            McpError::InvalidParameters(m) => t == "Invalid parameters: "@ + m@,
            McpError::MissingParameter(p) => t == "Missing required parameter: "@ + p@,
            McpError::InvalidParameterType { param, expected, actual } => t
                == "Invalid parameter type for '"@ + param@ + "': expected "@ + expected@
                + ", got "@ + actual@,
            McpError::ParameterOutOfRange { param, value, constraint } => t == "Parameter '"@
                + param@ + "' value "@ + value@ + " is out of range: "@ + constraint@,
            McpError::ToolExecutionError(m) => t == "Tool execution failed: "@ + m@,
            McpError::ResourceExecutionError(m) => t == "Resource execution failed: "@ + m@,
            McpError::PromptExecutionError(m) => t == "Prompt execution failed: "@ + m@,
            McpError::ResourceAccessDenied(u) => t == "Resource access denied: "@ + u@,
            McpError::ConfigurationError(m) => t == "Configuration error: "@ + m@,
            McpError::SessionError(m) => t == "Session error: "@ + m@,
            McpError::ValidationError(m) => t == "Validation error: "@ + m@,
            McpError::IoError(_) => t.len() >= 10 && t.subrange(0, 10) == "IO error: "@,
            McpError::SerializationError(_) => t.len() >= 21 && t.subrange(0, 21)
                == "Serialization error: "@,
            McpError::TransportError(m) => t == "Transport error: "@ + m@,
            McpError::JsonRpcProtocolError(m) => t == "JSON-RPC protocol error: "@ + m@,
            McpError::JsonRpcError { code, message, .. } => t == "JSON-RPC error "@ + int_decimal(
                code as int,
            ) + ": "@ + message@,
            McpError::MissingRequiredClientCapability { .. } => t
                == "Missing required client capability"@,
            McpError::UnsupportedProtocolVersion { supported, requested } => t
                == "Unsupported protocol version: requested "@ + requested@ + ", supported "@
                + strings_debug_text(supported@.map_values(|s: String| s@)),
            McpError::InputRequired { .. } => t
                == "Input required (MRTR): handler needs client input before completing"@,
        }
    }

    /// The human-readable text of the error (its `Display` form).
    pub fn display_text(&self) -> (r: String)
        ensures
            self.displays_as(r@),
    {
        match self {
            McpError::VersionMismatch { expected, actual } => concat4(
                "Protocol version mismatch: expected ",
                expected.as_str(),
                ", got ",
                actual.as_str(),
            ),
            McpError::InvalidCapability(c) => concat2("Invalid capability: ", c.as_str()),
            McpError::ToolNotFound(n) => concat2("Tool not found: ", n.as_str()),
            McpError::ResourceNotFound(u) => concat2("Resource not found: ", u.as_str()),
            McpError::PromptNotFound(n) => concat2("Prompt not found: ", n.as_str()),
            McpError::InvalidRequest { message } => concat2("Invalid request: ", message.as_str()),
            McpError::InvalidParameters(m) => concat2("Invalid parameters: ", m.as_str()),
            McpError::MissingParameter(p) => concat2("Missing required parameter: ", p.as_str()),
            McpError::InvalidParameterType { param, expected, actual } => concat6(
                "Invalid parameter type for '",
                param.as_str(),
                "': expected ",
                expected.as_str(),
                ", got ",
                actual.as_str(),
            ),
            McpError::ParameterOutOfRange { param, value, constraint } => concat6(
                "Parameter '",
                param.as_str(),
                "' value ",
                value.as_str(),
                " is out of range: ",
                constraint.as_str(),
            ),
            McpError::ToolExecutionError(m) => concat2("Tool execution failed: ", m.as_str()),
            McpError::ResourceExecutionError(m) => concat2("Resource execution failed: ", m.as_str()),
            McpError::PromptExecutionError(m) => concat2("Prompt execution failed: ", m.as_str()),
            McpError::ResourceAccessDenied(u) => concat2("Resource access denied: ", u.as_str()),
            McpError::ConfigurationError(m) => concat2("Configuration error: ", m.as_str()),
            McpError::SessionError(m) => concat2("Session error: ", m.as_str()),
            McpError::ValidationError(m) => concat2("Validation error: ", m.as_str()),
            McpError::IoError(err) => {
                let t = io_error_text(err);
                let m = concat2("IO error: ", t.as_str());
                proof {
                    reveal_strlit("IO error: ");
                    assert(m@.subrange(0, 10) =~= "IO error: "@);
                }
                m
            },
            McpError::SerializationError(err) => {
                let t = serde_json_error_text(err);
                let m = concat2("Serialization error: ", t.as_str());
                proof {
                    reveal_strlit("Serialization error: ");
                    assert(m@.subrange(0, 21) =~= "Serialization error: "@);
                }
                m
            },
            McpError::TransportError(m) => concat2("Transport error: ", m.as_str()),
            McpError::JsonRpcProtocolError(m) => concat2("JSON-RPC protocol error: ", m.as_str()),
            McpError::JsonRpcError { code, message, .. } => {
                let digits = string_of(&i64_decimal(*code));
                concat4("JSON-RPC error ", digits.as_str(), ": ", message.as_str())
            },
            McpError::MissingRequiredClientCapability { .. } => owned(
                "Missing required client capability",
            ),
            McpError::UnsupportedProtocolVersion { supported, requested } => {
                let listed = strings_debug(supported);
                concat4(
                    "Unsupported protocol version: requested ",
                    requested.as_str(),
                    ", supported ",
                    listed.as_str(),
                )
            },
            McpError::InputRequired { .. } => owned(
                "Input required (MRTR): handler needs client input before completing",
            ),
        }
    }

    /// A missing parameter error.
    pub fn missing_param(param: &str) -> (r: McpError)
        ensures
            r matches McpError::MissingParameter(p) && p@ == param@,
    {
        McpError::MissingParameter(owned(param))
    }

    /// An invalid parameter type error.
    pub fn invalid_param_type(param: &str, expected: &str, actual: &str) -> (r: McpError)
        ensures
            r matches McpError::InvalidParameterType { param: p, expected: e, actual: a } && p@
                == param@ && e@ == expected@ && a@ == actual@,
    {
        McpError::InvalidParameterType {
            param: owned(param),
            expected: owned(expected),
            actual: owned(actual),
        }
    }

    /// A parameter out of range error.
    pub fn param_out_of_range(param: &str, value: &str, constraint: &str) -> (r: McpError)
        ensures
            r matches McpError::ParameterOutOfRange { param: p, value: v, constraint: c } && p@
                == param@ && v@ == value@ && c@ == constraint@,
    {
        McpError::ParameterOutOfRange {
            param: owned(param),
            value: owned(value),
            constraint: owned(constraint),
        }
    }

    /// A tool execution error.
    pub fn tool_execution(message: &str) -> (r: McpError)
        ensures
            r matches McpError::ToolExecutionError(m) && m@ == message@,
    {
        McpError::ToolExecutionError(owned(message))
    }

    /// A resource execution error.
    pub fn resource_execution(message: &str) -> (r: McpError)
        ensures
            r matches McpError::ResourceExecutionError(m) && m@ == message@,
    {
        McpError::ResourceExecutionError(owned(message))
    }

    /// A prompt execution error.
    pub fn prompt_execution(message: &str) -> (r: McpError)
        ensures
            r matches McpError::PromptExecutionError(m) && m@ == message@,
    {
        McpError::PromptExecutionError(owned(message))
    }

    /// A validation error.
    pub fn validation(message: &str) -> (r: McpError)
        ensures
            r matches McpError::ValidationError(m) && m@ == message@,
    {
        McpError::ValidationError(owned(message))
    }

    /// A configuration error.
    pub fn configuration(message: &str) -> (r: McpError)
        ensures
            r matches McpError::ConfigurationError(m) && m@ == message@,
    {
        McpError::ConfigurationError(owned(message))
    }

    /// A transport error.
    pub fn transport(message: &str) -> (r: McpError)
        ensures
            r matches McpError::TransportError(m) && m@ == message@,
    {
        McpError::TransportError(owned(message))
    }

    /// A JSON-RPC protocol error.
    pub fn json_rpc_protocol(message: &str) -> (r: McpError)
        ensures
            r matches McpError::JsonRpcProtocolError(m) && m@ == message@,
    {
        McpError::JsonRpcProtocolError(owned(message))
    }

    /// A JSON-RPC error reproduced with its code, message and data.
    pub fn json_rpc_error(code: i64, message: &str, data: Option<Json>) -> (r: McpError)
        ensures
            r matches McpError::JsonRpcError { code: c, message: m, data: d } && c == code && m@
                == message@ && d == data,
    {
        McpError::JsonRpcError { code, message: owned(message), data }
    }
}

/// A message-only error is a tool execution error.
impl From<String> for McpError {
    fn from(message: String) -> (r: McpError) {
        McpError::ToolExecutionError(message)
    }
}

impl vstd::std_specs::convert::FromSpecImpl<String> for McpError {
    open spec fn obeys_from_spec() -> bool {
        true
    }

    open spec fn from_spec(message: String) -> McpError {
        McpError::ToolExecutionError(message)
    }
}

/// A message-only error is a tool execution error.
impl<'a> From<&'a str> for McpError {
    fn from(message: &'a str) -> (r: McpError)
        ensures
            r matches McpError::ToolExecutionError(m) && m@ == message@,
    {
        McpError::ToolExecutionError(owned(message))
    }
}

impl<'a> vstd::std_specs::convert::FromSpecImpl<&'a str> for McpError {
    open spec fn obeys_from_spec() -> bool {
        false
    }

    open spec fn from_spec(message: &'a str) -> McpError {
        McpError::ToolExecutionError(arbitrary())
    }
}

/// The framework-internal errors keep the frozen legacy allocations in
/// `-32000..=-32019`; none is emitted elsewhere inside the JSON-RPC reserved
/// range `-32768..=-32000` (in particular none in the specification's
/// `-32020..=-32099`).
pub proof fn lemma_framework_codes_are_legacy(e: McpError)
    requires
        e.is_framework_internal(),
    ensures
        is_legacy_allocation(e.rpc_code()) || !in_reserved_range(e.rpc_code()),
        !(-32099 <= e.rpc_code() <= -32020),
{
}

/// No two framework-internal errors of different kinds share a code.
pub proof fn lemma_framework_codes_distinct(a: McpError, b: McpError)
    requires
        a.is_framework_internal(),
        b.is_framework_internal(),
        a.rpc_code() == b.rpc_code(),
    ensures
        a.variant_index() == b.variant_index(),
{
}

/// The structured negotiation failures carry the codes the specification
/// assigns them: a missing client capability `-32021`, an unsupported
/// protocol version `-32022`; both within the specification's range.
pub proof fn lemma_negotiation_codes(e: McpError)
    ensures
        e is MissingRequiredClientCapability ==> e.rpc_code() == -32021,
        e is UnsupportedProtocolVersion ==> e.rpc_code() == -32022,
        (e is MissingRequiredClientCapability || e is UnsupportedProtocolVersion) ==> -32099
            <= e.rpc_code() <= -32020,
{
}

/// Each error's JSON-RPC code: request and parameter errors, and an unknown
/// tool, resource or prompt, are "Invalid params" (`-32602`); I/O and
/// serialization errors, and an input request that escaped its conversion,
/// are "Internal error" (`-32603`); a missing client capability is `-32021`
/// and an unsupported protocol version `-32022`; the framework's own errors
/// keep their frozen allocations `-32000`, `-32010..=-32019`; a reproduced
/// JSON-RPC error keeps its code.
pub proof fn lemma_error_codes(e: McpError)
    ensures
        (e is InvalidRequest || e is InvalidParameters || e is MissingParameter
            || e is InvalidParameterType || e is ParameterOutOfRange || e is ToolNotFound
            || e is ResourceNotFound || e is PromptNotFound) ==> e.rpc_code() == -32602
            && e.rpc_code() == INVALID_PARAMS_CODE,
        (e is IoError || e is SerializationError || e is InputRequired) ==> e.rpc_code() == -32603
            && e.rpc_code() == INTERNAL_ERROR_CODE,
        e is MissingRequiredClientCapability ==> e.rpc_code() == -32021,
        e is UnsupportedProtocolVersion ==> e.rpc_code() == -32022,
        e is JsonRpcProtocolError ==> e.rpc_code() == -32000,
        e is ToolExecutionError ==> e.rpc_code() == -32010,
        e is ResourceAccessDenied ==> e.rpc_code() == -32011,
        e is ResourceExecutionError ==> e.rpc_code() == -32012,
        e is PromptExecutionError ==> e.rpc_code() == -32013,
        e is ValidationError ==> e.rpc_code() == -32014,
        e is InvalidCapability ==> e.rpc_code() == -32015,
        e is VersionMismatch ==> e.rpc_code() == -32016,
        e is ConfigurationError ==> e.rpc_code() == -32017,
        e is SessionError ==> e.rpc_code() == -32018,
        e is TransportError ==> e.rpc_code() == -32019,
        e matches McpError::JsonRpcError { code, .. } ==> e.rpc_code() == code,
{
}

/// What an "Invalid params" error object says: a request or parameter
/// error its own message (or the missing, mistyped or out-of-range parameter
/// described), an unknown tool, resource or prompt "Unknown tool: ",
/// "Unknown resource: " or "Unknown prompt: " and its name; none carries
/// data.
pub proof fn lemma_invalid_params_messages(e: McpError, r: JsonRpcErrorObject)
    requires
        e.reported_as(r),
    ensures
        e matches McpError::InvalidRequest { message } ==> r.message@ == message@ && r.data is None,
        e matches McpError::InvalidParameters(m) ==> r.message@ == m@ && r.data is None,
        e matches McpError::MissingParameter(p) ==> r.message@ == "Missing required parameter: "@ + p@
            && r.data is None,
        e matches McpError::ToolNotFound(n) ==> r.message@ == "Unknown tool: "@ + n@ && r.data is None,
        e matches McpError::ResourceNotFound(u) ==> r.message@ == "Unknown resource: "@ + u@
            && r.data is None,
        e matches McpError::PromptNotFound(n) ==> r.message@ == "Unknown prompt: "@ + n@ && r.data is None,
{
}

} // verus!
