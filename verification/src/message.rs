//! The messages that the actor reads and writes.

use crate::json::{
    bool_value, comes_before, entries_view, insert_entry, new_object, object_entries,
    object_is_one_line, object_text, object_value, quote, quoted, quoted_is_one_line, string_value,
    value_text, with_entry, write_i32, write_object, write_value,
};
use crate::text::{one_line, signed_decimal};
use serde_json::{Map as Object, Value};
use vstd::prelude::*;

verus! {

/// The protocol version that every message carries.
pub const JSONRPC_VERSION: &'static str = "2.0";

/// The id of the request that opens the connection to the server.
pub const INITIALIZE_REQUEST_ID: &'static str = "initialize";

/// The text of a value that may be absent.
pub open spec fn optional_text(value: Option<Value>) -> Option<Seq<char>> {
    match value {
        Some(v) => Some(value_text(v)),
        None => None,
    }
}

/// The entry of a value that may be absent.
pub open spec fn optional_entry(key: Seq<char>, text: Option<Seq<char>>) -> Seq<
    (Seq<char>, Seq<char>),
> {
    match text {
        Some(t) => seq![(key, t)],
        None => seq![],
    }
}

/// A request to the MCP server.
#[derive(Debug)]
pub struct McpRequest {
    pub jsonrpc: String,
    pub id: String,
    pub method: String,
    pub params: Option<Value>,
}

/// What a request says: its parameters are given by their compact text.
pub struct RequestView {
    pub jsonrpc: Seq<char>,
    pub id: Seq<char>,
    pub method: Seq<char>,
    pub params: Option<Seq<char>>,
}

impl RequestView {
    /// The request as a JSON object; parameters that are absent are left out.
    pub open spec fn text(self) -> Seq<char> {
        object_text(
            seq![
                ("jsonrpc"@, quoted(self.jsonrpc)),
                ("id"@, quoted(self.id)),
                ("method"@, quoted(self.method)),
            ] + optional_entry("params"@, self.params),
        )
    }
}

impl View for McpRequest {
    type V = RequestView;

    open spec fn view(&self) -> RequestView {
        RequestView {
            jsonrpc: self.jsonrpc@,
            id: self.id@,
            method: self.method@,
            params: optional_text(self.params),
        }
    }
}

/// Adds a key and a text to a list of them.
fn add_entry(entries: &mut Vec<(String, String)>, key: &str, text: String)
    ensures
        entries_view(final(entries)@) == entries_view(old(entries)@).push((key@, text@)),
{
    entries.push((key.to_string(), text));
    assert(entries_view(entries@) =~= entries_view(old(entries)@).push((key@, text@)));
}

impl McpRequest {
    /// The request as a JSON object, on one line.
    pub fn to_json(&self) -> (r: String)
        ensures
            r@ == self@.text(),
            one_line(r@),
    {
        proof {
            quoted_is_one_line(self@.jsonrpc);
            quoted_is_one_line(self@.id);
            quoted_is_one_line(self@.method);
        }
        let mut entries: Vec<(String, String)> = Vec::new();
        add_entry(&mut entries, "jsonrpc", quote(self.jsonrpc.as_str()));
        add_entry(&mut entries, "id", quote(self.id.as_str()));
        add_entry(&mut entries, "method", quote(self.method.as_str()));
        match &self.params {
            Some(value) => {
                add_entry(&mut entries, "params", write_value(value));
            },
            None => {},
        }
        assert(entries_view(entries@) =~= seq![
            ("jsonrpc"@, quoted(self@.jsonrpc)),
            ("id"@, quoted(self@.id)),
            ("method"@, quoted(self@.method)),
        ] + optional_entry("params"@, self@.params));
        proof {
            object_is_one_line(entries_view(entries@));
        }
        write_object(&entries)
    }
}

/// An error that the MCP server reports.
#[derive(Debug)]
pub struct McpError {
    pub code: i32,
    pub message: String,
    pub data: Option<Value>,
}

/// What an error says.
pub struct ErrorView {
    pub code: int,
    pub message: Seq<char>,
    pub data: Option<Seq<char>>,
}

impl ErrorView {
    /// The error as a JSON object; data that is absent is left out.
    pub open spec fn text(self) -> Seq<char> {
        object_text(
            seq![
                ("code"@, signed_decimal(self.code)),
                ("message"@, quoted(self.message)),
            ] + optional_entry("data"@, self.data),
        )
    }
}

impl View for McpError {
    type V = ErrorView;

    open spec fn view(&self) -> ErrorView {
        ErrorView {
            code: self.code as int,
            message: self.message@,
            data: optional_text(self.data),
        }
    }
}

impl McpError {
    /// The error as a JSON object.
    pub fn to_json(&self) -> (r: String)
        ensures
            r@ == self@.text(),
    {
        let mut entries: Vec<(String, String)> = Vec::new();
        add_entry(&mut entries, "code", write_i32(self.code));
        add_entry(&mut entries, "message", quote(self.message.as_str()));
        match &self.data {
            Some(value) => {
                add_entry(&mut entries, "data", write_value(value));
            },
            None => {},
        }
        assert(entries_view(entries@) =~= seq![
            ("code"@, signed_decimal(self@.code)),
            ("message"@, quoted(self@.message)),
        ] + optional_entry("data"@, self@.data));
        write_object(&entries)
    }
}

/// A response of the MCP server.
#[derive(Debug)]
pub struct McpResponse {
    pub jsonrpc: String,
    pub id: String,
    pub result: Option<Value>,
    pub error: Option<McpError>,
}

/// What a response says.
pub struct ResponseView {
    pub jsonrpc: Seq<char>,
    pub id: Seq<char>,
    pub result: Option<Seq<char>>,
    pub error: Option<ErrorView>,
}

impl ResponseView {
    /// The response as a JSON object; a result or an error that is absent is left
    /// out.
    pub open spec fn text(self) -> Seq<char> {
        object_text(
            seq![
                ("jsonrpc"@, quoted(self.jsonrpc)),
                ("id"@, quoted(self.id)),
            ] + optional_entry("result"@, self.result) + optional_entry(
                "error"@,
                match self.error {
                    Some(error) => Some(error.text()),
                    None => None,
                },
            ),
        )
    }
}

impl View for McpResponse {
    type V = ResponseView;

    open spec fn view(&self) -> ResponseView {
        ResponseView {
            jsonrpc: self.jsonrpc@,
            id: self.id@,
            result: optional_text(self.result),
            error: match self.error {
                Some(error) => Some(error@),
                None => None,
            },
        }
    }
}

impl McpResponse {
    /// The response as a JSON object.
    pub fn to_json(&self) -> (r: String)
        ensures
            r@ == self@.text(),
    {
        let mut entries: Vec<(String, String)> = Vec::new();
        add_entry(&mut entries, "jsonrpc", quote(self.jsonrpc.as_str()));
        add_entry(&mut entries, "id", quote(self.id.as_str()));
        match &self.result {
            Some(value) => {
                add_entry(&mut entries, "result", write_value(value));
            },
            None => {},
        }
        match &self.error {
            Some(error) => {
                add_entry(&mut entries, "error", error.to_json());
            },
            None => {},
        }
        assert(entries_view(entries@) =~= seq![
            ("jsonrpc"@, quoted(self@.jsonrpc)),
            ("id"@, quoted(self@.id)),
        ] + optional_entry("result"@, self@.result) + optional_entry(
            "error"@,
            match self@.error {
                Some(error) => Some(error.text()),
                None => None,
            },
        ));
        write_object(&entries)
    }
}

/// A request of another actor.
#[derive(Debug)]
pub enum McpActorRequest {
    /// List the tools of the server.
    ToolsList {  },
    /// Call a tool of the server.
    ToolsCall { name: String, args: Value },
}

/// The server process that the actor is to start.
#[derive(Debug)]
pub struct InitState {
    pub command: String,
    pub args: Vec<String>,
}

/// The text of the parameters of a tool call.
pub open spec fn tools_call_params_text(name: Seq<char>, args: Seq<char>) -> Seq<char> {
    object_text(seq![("arguments"@, args), ("name"@, quoted(name))])
}

/// The parameters of a tool call.
pub fn tools_call_params(name: String, args: Value) -> (r: Value)
    ensures
        value_text(r) == tools_call_params_text(name@, value_text(args)),
{
    proof {
        reveal_strlit("name");
        reveal_strlit("arguments");
    }
    let mut params: Object<String, Value> = new_object();
    insert_entry(&mut params, "name".to_string(), string_value(name));
    assert(object_entries(params) =~= seq![("name"@, quoted(name@))]);
    insert_entry(&mut params, "arguments".to_string(), args);
    assert(object_entries(params) =~= seq![
        ("arguments"@, value_text(args)),
        ("name"@, quoted(name@)),
    ]);
    object_value(params)
}

/// The text of the parameters of the request that opens the connection.
pub open spec fn initialize_params_text() -> Seq<char> {
    object_text(
        seq![
            (
                "capabilities"@,
                object_text(
                    seq![
                        (
                            "tools"@,
                            object_text(seq![("supportsFileOperations"@, "true"@)]),
                        ),
                    ],
                ),
            ),
            (
                "clientInfo"@,
                object_text(
                    seq![
                        ("name"@, quoted("mcp-poc"@)),
                        ("version"@, quoted("0.1.0"@)),
                    ],
                ),
            ),
            ("protocolVersion"@, quoted("2024-11-05"@)),
        ],
    )
}

/// The parameters of the request that opens the connection.
pub fn initialize_params() -> (r: Value)
    ensures
        value_text(r) == initialize_params_text(),
{
    proof {
        reveal_strlit("protocolVersion");
        reveal_strlit("capabilities");
        reveal_strlit("clientInfo");
        reveal_strlit("name");
        reveal_strlit("version");
        reveal_with_fuel(comes_before, 3);
        reveal_with_fuel(with_entry, 3);
    }
    let mut tools: Object<String, Value> = new_object();
    insert_entry(&mut tools, "supportsFileOperations".to_string(), bool_value(true));
    assert(object_entries(tools) =~= seq![("supportsFileOperations"@, "true"@)]);
    let mut capabilities: Object<String, Value> = new_object();
    insert_entry(&mut capabilities, "tools".to_string(), object_value(tools));
    let ghost tools_text = object_text(seq![("supportsFileOperations"@, "true"@)]);
    assert(object_entries(capabilities) =~= seq![("tools"@, tools_text)]);
    let mut client: Object<String, Value> = new_object();
    insert_entry(&mut client, "name".to_string(), string_value("mcp-poc".to_string()));
    insert_entry(&mut client, "version".to_string(), string_value("0.1.0".to_string()));
    assert(object_entries(client) =~= seq![
        ("name"@, quoted("mcp-poc"@)),
        ("version"@, quoted("0.1.0"@)),
    ]);
    let mut params: Object<String, Value> = new_object();
    insert_entry(
        &mut params,
        "protocolVersion".to_string(),
        string_value("2024-11-05".to_string()),
    );
    let ghost version_text = quoted("2024-11-05"@);
    assert(object_entries(params) =~= seq![("protocolVersion"@, version_text)]);
    insert_entry(&mut params, "capabilities".to_string(), object_value(capabilities));
    let ghost capabilities_text = object_text(seq![("tools"@, tools_text)]);
    assert(object_entries(params) =~= seq![
        ("capabilities"@, capabilities_text),
        ("protocolVersion"@, version_text),
    ]);
    let ghost before = object_entries(params);
    insert_entry(&mut params, "clientInfo".to_string(), object_value(client));
    assert(before.drop_first() =~= seq![("protocolVersion"@, version_text)]);
    assert(object_entries(params) =~= seq![
        ("capabilities"@, capabilities_text),
        (
            "clientInfo"@,
            object_text(
                seq![("name"@, quoted("mcp-poc"@)), ("version"@, quoted("0.1.0"@))],
            ),
        ),
        ("protocolVersion"@, version_text),
    ]);
    object_value(params)
}

/// The text of the notification that the connection is open.
pub open spec fn initialized_notification_text() -> Seq<char> {
    object_text(
        seq![
            ("jsonrpc"@, quoted("2.0"@)),
            ("method"@, quoted("notifications/initialized"@)),
        ],
    )
}

/// The notification that the connection is open.
pub fn initialized_notification() -> (r: String)
    ensures
        r@ == initialized_notification_text(),
        one_line(r@),
{
    proof {
        reveal_strlit("jsonrpc");
        reveal_strlit("method");
        reveal_with_fuel(with_entry, 3);
    }
    let mut notification: Object<String, Value> = new_object();
    insert_entry(
        &mut notification,
        "jsonrpc".to_string(),
        string_value(JSONRPC_VERSION.to_string()),
    );
    insert_entry(
        &mut notification,
        "method".to_string(),
        string_value("notifications/initialized".to_string()),
    );
    assert(object_entries(notification) =~= seq![
        ("jsonrpc"@, quoted("2.0"@)),
        ("method"@, quoted("notifications/initialized"@)),
    ]);
    write_value(&object_value(notification))
}

} // verus!
