//! What a reader of the messages gets from them.

use crate::json::{is_blank, is_null_json, members_text, object_text, quoted, skip_blank, value_text};
use crate::message::{
    initialize_params_text, initialized_notification_text, optional_entry, optional_text,
    tools_call_params_text, ErrorView, McpError, McpRequest, McpResponse, RequestView, ResponseView,
};
use crate::reading::{
    find, has_keys, is_number_text, is_value_text, key_if, member, number_reads_back,
    object_reads_back, plain_text_is_value, string_member, string_reads_back,
};
use crate::text::{line_bytes, signed_decimal};
use serde_json::Value;
use vstd::prelude::*;
use vstd::utf8::{
    decode_utf8, encode_utf8, encode_utf8_decode_utf8, encode_utf8_valid_utf8, valid_utf8,
};

verus! {

/// Whether a text that may be absent is one value where it is there.
pub open spec fn is_optional_value(text: Option<Seq<char>>) -> bool {
    text matches Some(t) ==> is_value_text(t)
}

proof fn find_among_two(a: (Seq<char>, Seq<char>), b: (Seq<char>, Seq<char>), key: Seq<char>)
    ensures
        find(seq![a, b], key) == (if a.0 == key {
            Some(a.1)
        } else if b.0 == key {
            Some(b.1)
        } else {
            None
        }),
{
    reveal_with_fuel(find, 3);
    assert(seq![a, b].drop_first() =~= seq![b]);
    assert(seq![b].drop_first() =~= seq![]);
}

proof fn find_among_three(
    a: (Seq<char>, Seq<char>),
    b: (Seq<char>, Seq<char>),
    c: (Seq<char>, Seq<char>),
    key: Seq<char>,
)
    ensures
        find(seq![a, b, c], key) == (if a.0 == key {
            Some(a.1)
        } else if b.0 == key {
            Some(b.1)
        } else if c.0 == key {
            Some(c.1)
        } else {
            None
        }),
{
    find_among_two(b, c, key);
    assert(seq![a, b, c].drop_first() =~= seq![b, c]);
}

/// Looking in a list first, and then in the rest of it.
proof fn find_in_parts(
    front: Seq<(Seq<char>, Seq<char>)>,
    back: Seq<(Seq<char>, Seq<char>)>,
    key: Seq<char>,
)
    ensures
        find(front + back, key) == (match find(front, key) {
            Some(value) => Some(value),
            None => find(back, key),
        }),
    decreases front.len(),
{
    if front.len() == 0 {
        assert(front + back =~= back);
    } else {
        assert((front + back).drop_first() =~= front.drop_first() + back);
        find_in_parts(front.drop_first(), back, key);
    }
}

proof fn find_in_three_parts(
    front: Seq<(Seq<char>, Seq<char>)>,
    middle: Seq<(Seq<char>, Seq<char>)>,
    back: Seq<(Seq<char>, Seq<char>)>,
    key: Seq<char>,
)
    ensures
        find(front + middle + back, key) == (match find(front, key) {
            Some(value) => Some(value),
            None => match find(middle, key) {
                Some(value) => Some(value),
                None => find(back, key),
            },
        }),
{
    find_in_parts(front + middle, back, key);
    find_in_parts(front, middle, key);
}

proof fn find_optional(own: Seq<char>, text: Option<Seq<char>>, key: Seq<char>)
    ensures
        find(optional_entry(own, text), key) == (if own == key {
            text
        } else {
            None
        }),
{
    reveal_with_fuel(find, 2);
    if text is Some {
        assert(seq![(own, text->0)].drop_first() =~= seq![]);
    }
}

/// A request is read as what it says: its version, id and method as strings, its parameters as
/// they are if it has any, and nothing more.
pub proof fn request_reads_back(request: RequestView)
    requires
        is_optional_value(request.params),
    ensures
        string_member(request.text(), "jsonrpc"@) == Some(request.jsonrpc),
        string_member(request.text(), "id"@) == Some(request.id),
        string_member(request.text(), "method"@) == Some(request.method),
        member(request.text(), "params"@) == request.params,
        has_keys(
            request.text(),
            seq!["jsonrpc"@, "id"@, "method"@] + key_if(request.params is Some, "params"@),
        ),
        is_value_text(request.text()),
{
    reveal_strlit("jsonrpc");
    reveal_strlit("id");
    reveal_strlit("method");
    reveal_strlit("params");
    string_reads_back(request.jsonrpc);
    string_reads_back(request.id);
    string_reads_back(request.method);
    let front = seq![
        ("jsonrpc"@, quoted(request.jsonrpc)),
        ("id"@, quoted(request.id)),
        ("method"@, quoted(request.method)),
    ];
    let back = optional_entry("params"@, request.params);
    object_reads_back(front + back);
    assert("method"@[0] != "params"@[0]);
    assert("jsonrpc"@.len() == 7 && "id"@.len() == 2 && "method"@.len() == 6 && "params"@.len() == 6);
    find_in_parts(front, back, "jsonrpc"@);
    find_in_parts(front, back, "id"@);
    find_in_parts(front, back, "method"@);
    find_in_parts(front, back, "params"@);
    find_among_three(front[0], front[1], front[2], "jsonrpc"@);
    find_among_three(front[0], front[1], front[2], "id"@);
    find_among_three(front[0], front[1], front[2], "method"@);
    find_among_three(front[0], front[1], front[2], "params"@);
    find_optional("params"@, request.params, "params"@);
}

/// An error is read as what it says: its code as a number, its message as a string, its data as
/// they are if it has any, and nothing more.
pub proof fn error_reads_back(error: ErrorView)
    requires
        is_optional_value(error.data),
    ensures
        member(error.text(), "code"@) matches Some(code) && is_number_text(code, error.code),
        string_member(error.text(), "message"@) == Some(error.message),
        member(error.text(), "data"@) == error.data,
        has_keys(
            error.text(),
            seq!["code"@, "message"@] + key_if(error.data is Some, "data"@),
        ),
        is_value_text(error.text()),
{
    reveal_strlit("code");
    reveal_strlit("message");
    reveal_strlit("data");
    number_reads_back(error.code);
    string_reads_back(error.message);
    let front = seq![
        ("code"@, signed_decimal(error.code)),
        ("message"@, quoted(error.message)),
    ];
    let back = optional_entry("data"@, error.data);
    object_reads_back(front + back);
    assert("code"@[0] != "data"@[0]);
    find_in_parts(front, back, "code"@);
    find_in_parts(front, back, "message"@);
    find_in_parts(front, back, "data"@);
    find_among_two(front[0], front[1], "code"@);
    find_among_two(front[0], front[1], "message"@);
    find_among_two(front[0], front[1], "data"@);
    find_optional("data"@, error.data, "data"@);
}

/// Whether the values that a response holds are values.
pub open spec fn is_valid_response(response: ResponseView) -> bool {
    &&& is_optional_value(response.result)
    &&& response.error matches Some(error) ==> is_optional_value(error.data)
}

/// Whether a text is read as a response: its version and id as strings, its result as it is if it
/// has one, its error with code, message and data if it has one, and nothing more.
pub open spec fn reads_as_response(text: Seq<char>, response: ResponseView) -> bool {
    &&& string_member(text, "jsonrpc"@) == Some(response.jsonrpc)
    &&& string_member(text, "id"@) == Some(response.id)
    &&& member(text, "result"@) == response.result
    &&& match response.error {
        None => member(text, "error"@) is None,
        Some(error) => {
            &&& member(text, "error"@) matches Some(inner)
            &&& member(inner, "code"@) matches Some(code)
            &&& is_number_text(code, error.code)
            &&& string_member(inner, "message"@) == Some(error.message)
            &&& member(inner, "data"@) == error.data
            &&& has_keys(
                inner,
                seq!["code"@, "message"@] + key_if(error.data is Some, "data"@),
            )
        },
    }
    &&& has_keys(
        text,
        seq!["jsonrpc"@, "id"@] + key_if(response.result is Some, "result"@) + key_if(
            response.error is Some,
            "error"@,
        ),
    )
}

/// A response that is written is read as that response.
pub proof fn response_reads_back(response: ResponseView)
    requires
        is_valid_response(response),
    ensures
        reads_as_response(response.text(), response),
{
    reveal_strlit("jsonrpc");
    reveal_strlit("id");
    reveal_strlit("result");
    reveal_strlit("error");
    string_reads_back(response.jsonrpc);
    string_reads_back(response.id);
    let error_text = match response.error {
        Some(error) => Some(error.text()),
        None => None,
    };
    if response.error is Some {
        error_reads_back(response.error->0);
    }
    let front = seq![("jsonrpc"@, quoted(response.jsonrpc)), ("id"@, quoted(response.id))];
    let middle = optional_entry("result"@, response.result);
    let back = optional_entry("error"@, error_text);
    object_reads_back(front + middle + back);
    assert("jsonrpc"@.len() == 7 && "id"@.len() == 2 && "result"@.len() == 6 && "error"@.len() == 5);
    find_in_three_parts(front, middle, back, "jsonrpc"@);
    find_in_three_parts(front, middle, back, "id"@);
    find_in_three_parts(front, middle, back, "result"@);
    find_in_three_parts(front, middle, back, "error"@);
    find_among_two(front[0], front[1], "jsonrpc"@);
    find_among_two(front[0], front[1], "id"@);
    find_among_two(front[0], front[1], "result"@);
    find_among_two(front[0], front[1], "error"@);
    find_optional("result"@, response.result, "result"@);
    find_optional("result"@, response.result, "error"@);
    find_optional("error"@, error_text, "result"@);
    find_optional("error"@, error_text, "error"@);
}

/// Whether a text is read as the parameters of a call of this tool with these arguments, and
/// nothing more.
pub open spec fn reads_as_tool_call(text: Seq<char>, name: Seq<char>, args: Seq<char>) -> bool {
    &&& string_member(text, "name"@) == Some(name)
    &&& member(text, "arguments"@) == Some(args)
    &&& has_keys(text, seq!["arguments"@, "name"@])
}

/// The parameters of a tool call are read as the tool and the arguments that were given.
pub proof fn tool_call_reads_back(name: Seq<char>, args: Seq<char>)
    requires
        is_value_text(args),
    ensures
        reads_as_tool_call(tools_call_params_text(name, args), name, args),
        is_value_text(tools_call_params_text(name, args)),
{
    reveal_strlit("name");
    reveal_strlit("arguments");
    string_reads_back(name);
    let entries = seq![("arguments"@, args), ("name"@, quoted(name))];
    object_reads_back(entries);
    find_among_two(entries[0], entries[1], "name"@);
    find_among_two(entries[0], entries[1], "arguments"@);
}

/// Calls of different tools, or with different arguments, have different parameters.
pub proof fn tool_calls_are_told_apart(
    name: Seq<char>,
    args: Seq<char>,
    other_name: Seq<char>,
    other_args: Seq<char>,
)
    requires
        is_value_text(args),
        is_value_text(other_args),
        tools_call_params_text(name, args) == tools_call_params_text(other_name, other_args),
    ensures
        name == other_name,
        args == other_args,
{
    tool_call_reads_back(name, args);
    tool_call_reads_back(other_name, other_args);
}

/// Whatever the arguments are, calls of different tools with the same arguments have different
/// parameters.
pub proof fn tools_are_told_apart(name: Seq<char>, other_name: Seq<char>, args: Seq<char>)
    requires
        tools_call_params_text(name, args) == tools_call_params_text(other_name, args),
    ensures
        name == other_name,
{
    string_reads_back(name);
    string_reads_back(other_name);
    let front = seq!['{'] + quoted("arguments"@) + seq![':'] + args + seq![','] + quoted("name"@)
        + seq![':'];
    let text = tools_call_params_text(name, args);
    let other_text = tools_call_params_text(other_name, args);
    reveal_with_fuel(members_text, 3);
    let entries = seq![("arguments"@, args), ("name"@, quoted(name))];
    let others = seq![("arguments"@, args), ("name"@, quoted(other_name))];
    assert(entries.drop_last() =~= seq![("arguments"@, args)]);
    assert(others.drop_last() =~= seq![("arguments"@, args)]);
    assert(text =~= front + quoted(name) + seq!['}']);
    assert(other_text =~= front + quoted(other_name) + seq!['}']);
    assert(quoted(name) =~= text.subrange(front.len() as int, text.len() - 1));
    assert(quoted(other_name) =~= other_text.subrange(front.len() as int, other_text.len() - 1));
}

/// Whether a text is read as the parameters with which the connection is opened.
pub open spec fn reads_as_opening(text: Seq<char>) -> bool {
    &&& string_member(text, "protocolVersion"@) == Some("2024-11-05"@)
    &&& member(text, "capabilities"@) matches Some(capabilities)
    &&& member(capabilities, "tools"@) matches Some(tools)
    &&& member(tools, "supportsFileOperations"@) == Some("true"@)
    &&& member(text, "clientInfo"@) matches Some(client)
    &&& string_member(client, "name"@) == Some("mcp-poc"@)
    &&& string_member(client, "version"@) == Some("0.1.0"@)
    &&& has_keys(text, seq!["capabilities"@, "clientInfo"@, "protocolVersion"@])
    &&& has_keys(capabilities, seq!["tools"@])
    &&& has_keys(tools, seq!["supportsFileOperations"@])
    &&& has_keys(client, seq!["name"@, "version"@])
}

/// The parameters of the request that opens the connection name the protocol version, the client
/// and what it can do.
pub proof fn opening_reads_back()
    ensures
        reads_as_opening(initialize_params_text()),
        is_value_text(initialize_params_text()),
{
    reveal_strlit("capabilities");
    reveal_strlit("clientInfo");
    reveal_strlit("protocolVersion");
    reveal_strlit("name");
    reveal_strlit("version");
    reveal_strlit("true");
    string_reads_back("2024-11-05"@);
    string_reads_back("mcp-poc"@);
    string_reads_back("0.1.0"@);
    assert("true"@ =~= seq!['t', 'r', 'u', 'e']);
    plain_text_is_value("true"@);
    assert("capabilities"@.len() == 12 && "clientInfo"@.len() == 10 && "protocolVersion"@.len() == 15);
    assert("name"@.len() == 4 && "version"@.len() == 7);
    let tools = seq![("supportsFileOperations"@, "true"@)];
    object_reads_back(tools);
    let capabilities = seq![("tools"@, object_text(tools))];
    object_reads_back(capabilities);
    let client = seq![("name"@, quoted("mcp-poc"@)), ("version"@, quoted("0.1.0"@))];
    object_reads_back(client);
    find_among_two(client[0], client[1], "name"@);
    find_among_two(client[0], client[1], "version"@);
    let entries = seq![
        ("capabilities"@, object_text(capabilities)),
        ("clientInfo"@, object_text(client)),
        ("protocolVersion"@, quoted("2024-11-05"@)),
    ];
    object_reads_back(entries);
    assert(initialize_params_text() == object_text(entries));
    find_optional("supportsFileOperations"@, Some("true"@), "supportsFileOperations"@);
    find_optional("tools"@, Some(object_text(tools)), "tools"@);
    assert(member(object_text(tools), "supportsFileOperations"@) == Some("true"@));
    assert(member(object_text(capabilities), "tools"@) == Some(object_text(tools)));
    assert(string_member(object_text(client), "name"@) == Some("mcp-poc"@));
    assert(string_member(object_text(client), "version"@) == Some("0.1.0"@));
    find_among_three(entries[0], entries[1], entries[2], "capabilities"@);
    find_among_three(entries[0], entries[1], entries[2], "clientInfo"@);
    find_among_three(entries[0], entries[1], entries[2], "protocolVersion"@);
}

/// Whether a text is read as the notification that the connection is open.
pub open spec fn reads_as_notification(text: Seq<char>) -> bool {
    &&& string_member(text, "jsonrpc"@) == Some("2.0"@)
    &&& string_member(text, "method"@) == Some("notifications/initialized"@)
    &&& has_keys(text, seq!["jsonrpc"@, "method"@])
}

/// The notification that the connection is open names its method, and has no id.
pub proof fn notification_reads_back()
    ensures
        reads_as_notification(initialized_notification_text()),
{
    reveal_strlit("jsonrpc");
    reveal_strlit("method");
    string_reads_back("2.0"@);
    string_reads_back("notifications/initialized"@);
    let entries = seq![
        ("jsonrpc"@, quoted("2.0"@)),
        ("method"@, quoted("notifications/initialized"@)),
    ];
    object_reads_back(entries);
    find_among_two(entries[0], entries[1], "jsonrpc"@);
    find_among_two(entries[0], entries[1], "method"@);
}

/// The text that stands on a line, if the bytes are UTF-8 that ends with a line feed.
pub open spec fn read_line(data: Seq<u8>) -> Option<Seq<char>> {
    if valid_utf8(data) && decode_utf8(data).len() > 0 && decode_utf8(data).last() == '\n' {
        Some(decode_utf8(data).drop_last())
    } else {
        None
    }
}

/// A line that is written is read as its text.
pub proof fn line_reads_back(text: Seq<char>)
    ensures
        read_line(line_bytes(text)) == Some(text),
{
    reveal_strlit("\n");
    let line = text + "\n"@;
    encode_utf8_decode_utf8(line);
    encode_utf8_valid_utf8(line);
    assert(line.drop_last() =~= text);
}

/// Bytes that are written for a text are read as that text.
pub proof fn bytes_read_back(text: Seq<char>)
    ensures
        valid_utf8(encode_utf8(text)),
        decode_utf8(encode_utf8(text)) == text,
{
    encode_utf8_decode_utf8(text);
    encode_utf8_valid_utf8(text);
}

/// What is made of a request shows all of it.
pub proof fn request_view_is_whole(request: McpRequest)
    ensures
        request@.jsonrpc == request.jsonrpc@,
        request@.id == request.id@,
        request@.method == request.method@,
        request@.params is Some <==> request.params is Some,
        request.params is Some ==> request@.params->0 == value_text(request.params->0),
{
}

/// What is made of an error shows all of it.
pub proof fn error_view_is_whole(error: McpError)
    ensures
        error@.code == error.code,
        error@.message == error.message@,
        error@.data is Some <==> error.data is Some,
        error.data is Some ==> error@.data->0 == value_text(error.data->0),
{
}

/// What is made of a response shows all of it.
pub proof fn response_view_is_whole(response: McpResponse)
    ensures
        response@.jsonrpc == response.jsonrpc@,
        response@.id == response.id@,
        response@.result is Some <==> response.result is Some,
        response.result is Some ==> response@.result->0 == value_text(response.result->0),
        response@.error is Some <==> response.error is Some,
        response.error is Some ==> response@.error->0 == response.error->0@,
{
}

/// What is made of a value that may be absent shows whether it is, and its text.
pub proof fn optional_text_is_whole(value: Option<Value>)
    ensures
        optional_text(value) is Some <==> value is Some,
        value is Some ==> optional_text(value)->0 == value_text(value->0),
{
}

proof fn skipped_blanks(bytes: Seq<u8>) -> (n: int)
    ensures
        0 <= n <= bytes.len(),
        skip_blank(bytes) == bytes.skip(n),
        forall|i: int| 0 <= i < n ==> is_blank(#[trigger] bytes[i]),
        n < bytes.len() ==> !is_blank(bytes[n]),
    decreases bytes.len(),
{
    if bytes.len() > 0 && is_blank(bytes[0]) {
        let m = skipped_blanks(bytes.drop_first());
        assert(bytes.drop_first().skip(m) =~= bytes.skip(m + 1));
        assert forall|i: int| 0 <= i < m + 1 implies is_blank(#[trigger] bytes[i]) by {
            if i > 0 {
                assert(bytes[i] == bytes.drop_first()[i - 1]);
            }
        }
        if m + 1 < bytes.len() {
            assert(bytes[m + 1] == bytes.drop_first()[m]);
        }
        m + 1
    } else {
        assert(bytes.skip(0) =~= bytes);
        0
    }
}

/// Whether bytes stand for the word `null` at this place, with a space, a tab, a line feed or a
/// carriage return at every other.
pub open spec fn is_null_at(bytes: Seq<u8>, at: int) -> bool {
    &&& 0 <= at
    &&& at + 4 <= bytes.len()
    &&& bytes[at] == 110 && bytes[at + 1] == 117 && bytes[at + 2] == 108 && bytes[at + 3] == 108
    &&& forall|i: int|
        0 <= i < bytes.len() && !(at <= i < at + 4) ==> (#[trigger] bytes[i] == 32 || bytes[i] == 9
            || bytes[i] == 10 || bytes[i] == 13)
}

/// The reminder is the word `null` with white space around it, and nothing else.
pub proof fn reminder_is_null(bytes: Seq<u8>)
    ensures
        is_null_json(bytes) <==> exists|at: int| is_null_at(bytes, at),
{
    let n = skipped_blanks(bytes);
    let rest = skip_blank(bytes);
    if is_null_json(bytes) {
        let m = skipped_blanks(rest.skip(4));
        assert(m == rest.skip(4).len());
        assert forall|i: int| 0 <= i < 4 implies bytes[n + i] == rest.take(4)[i] by {}
        assert(rest.take(4)[0] == 110 && rest.take(4)[1] == 117 && rest.take(4)[2] == 108
            && rest.take(4)[3] == 108);
        assert(bytes[n + 0] == 110 && bytes[n + 1] == 117 && bytes[n + 2] == 108 && bytes[n + 3]
            == 108);
        assert forall|i: int| 0 <= i < bytes.len() && !(n <= i < n + 4) implies (#[trigger] bytes[i]
            == 32 || bytes[i] == 9 || bytes[i] == 10 || bytes[i] == 13) by {
            if i < n {
                assert(is_blank(bytes[i]));
            } else {
                assert(bytes[i] == rest.skip(4)[i - n - 4]);
            }
        }
        assert(is_null_at(bytes, n));
    }
    if exists|at: int| is_null_at(bytes, at) {
        let at = choose|at: int| is_null_at(bytes, at);
        assert(n == at) by {
            if n < at {
                assert(bytes[n] == 32 || bytes[n] == 9 || bytes[n] == 10 || bytes[n] == 13);
            } else if n > at {
                assert(is_blank(bytes[at]));
            }
        }
        assert(rest.take(4) =~= seq![110u8, 117u8, 108u8, 108u8]);
        let m = skipped_blanks(rest.skip(4));
        if m < rest.skip(4).len() {
            assert(bytes[n + 4 + m] == rest.skip(4)[m]);
        }
    }
}

} // verus!
