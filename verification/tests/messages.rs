use mcp_poc::message::{
    initialize_params, initialized_notification, tools_call_params, McpError, McpRequest,
    McpResponse,
};
use serde_json::Value;

fn json(text: &str) -> Value {
    serde_json::from_str(text).unwrap()
}

fn request(id: &str, method: &str, params: Option<Value>) -> McpRequest {
    McpRequest {
        jsonrpc: "2.0".to_string(),
        id: id.to_string(),
        method: method.to_string(),
        params,
    }
}

#[test]
fn request_without_params_leaves_them_out() {
    assert_eq!(
        request("7", "tools/list", None).to_json(),
        r#"{"jsonrpc":"2.0","id":"7","method":"tools/list"}"#
    );
}

#[test]
fn request_with_params_writes_them_last() {
    let params = json(r#"{ "b": [1, -2, 2.5, null], "a": {"x": true, "é": "ü"} }"#);
    assert_eq!(
        request("7", "m", Some(params)).to_json(),
        r#"{"jsonrpc":"2.0","id":"7","method":"m","params":{"a":{"x":true,"é":"ü"},"b":[1,-2,2.5,null]}}"#
    );
}

#[test]
fn null_params_are_written() {
    assert_eq!(
        request("7", "m", Some(Value::Null)).to_json(),
        r#"{"jsonrpc":"2.0","id":"7","method":"m","params":null}"#
    );
}

#[test]
fn strings_are_escaped() {
    let id = "\"\\\n\r\t\u{8}\u{c}\u{0}\u{1f}\u{7f}/é😀";
    assert_eq!(
        request(id, "m", None).to_json(),
        "{\"jsonrpc\":\"2.0\",\"id\":\"\\\"\\\\\\n\\r\\t\\b\\f\\u0000\\u001f\u{7f}/é😀\",\"method\":\"m\"}"
    );
}

#[test]
fn request_is_one_line() {
    let text = request("a\nb", "c\nd", Some(json(r#"{"e\nf": "g\nh"}"#))).to_json();
    assert!(!text.contains('\n'));
    assert_eq!(json(&text)["params"]["e\nf"], Value::from("g\nh"));
}

#[test]
fn request_reads_back() {
    let back = json(&request("a\"b\u{1}", "m", Some(json("[1]"))).to_json());
    assert_eq!(back["id"], Value::from("a\"b\u{1}"));
    assert_eq!(back["method"], Value::from("m"));
    assert_eq!(back["params"], json("[1]"));
}

#[test]
fn response_with_result() {
    let response = McpResponse {
        jsonrpc: "2.0".to_string(),
        id: "7".to_string(),
        result: Some(json(r#"{"tools": []}"#)),
        error: None,
    };
    assert_eq!(response.to_json(), r#"{"jsonrpc":"2.0","id":"7","result":{"tools":[]}}"#);
}

#[test]
fn response_with_error() {
    let response = McpResponse {
        jsonrpc: "2.0".to_string(),
        id: "7".to_string(),
        result: None,
        error: Some(McpError {
            code: -32601,
            message: "no \"such\" method".to_string(),
            data: Some(json("[true]")),
        }),
    };
    assert_eq!(
        response.to_json(),
        r#"{"jsonrpc":"2.0","id":"7","error":{"code":-32601,"message":"no \"such\" method","data":[true]}}"#
    );
}

#[test]
fn response_with_result_and_error() {
    let response = McpResponse {
        jsonrpc: "1".to_string(),
        id: String::new(),
        result: Some(Value::from("r")),
        error: Some(McpError { code: 0, message: String::new(), data: None }),
    };
    assert_eq!(
        response.to_json(),
        r#"{"jsonrpc":"1","id":"","result":"r","error":{"code":0,"message":""}}"#
    );
}

#[test]
fn empty_response() {
    let response = McpResponse {
        jsonrpc: "2.0".to_string(),
        id: "7".to_string(),
        result: None,
        error: None,
    };
    assert_eq!(response.to_json(), r#"{"jsonrpc":"2.0","id":"7"}"#);
}

#[test]
fn error_codes_in_decimal() {
    for (code, text) in [
        (0, "0"),
        (10, "10"),
        (-1, "-1"),
        (i32::MAX, "2147483647"),
        (i32::MIN, "-2147483648"),
    ] {
        let error = McpError { code, message: "m".to_string(), data: None };
        assert_eq!(error.to_json(), format!("{{\"code\":{},\"message\":\"m\"}}", text));
    }
}

#[test]
fn parameters_of_a_tool_call() {
    let params = tools_call_params("read".to_string(), json(r#"{"path": "/tmp"}"#));
    assert_eq!(params, json(r#"{"name": "read", "arguments": {"path": "/tmp"}}"#));
    assert_eq!(
        request("7", "tools/call", Some(params)).to_json(),
        r#"{"jsonrpc":"2.0","id":"7","method":"tools/call","params":{"arguments":{"path":"/tmp"},"name":"read"}}"#
    );
}

#[test]
fn parameters_of_the_opening_request() {
    let params = initialize_params();
    let text = r#"{"capabilities":{"tools":{"supportsFileOperations":true}},"clientInfo":{"name":"mcp-poc","version":"0.1.0"},"protocolVersion":"2024-11-05"}"#;
    assert_eq!(params, json(text));
    assert_eq!(
        request("i", "m", Some(params)).to_json(),
        format!("{{\"jsonrpc\":\"2.0\",\"id\":\"i\",\"method\":\"m\",\"params\":{}}}", text)
    );
}

#[test]
fn notification_that_the_connection_is_open() {
    assert_eq!(
        initialized_notification(),
        r#"{"jsonrpc":"2.0","method":"notifications/initialized"}"#
    );
}
