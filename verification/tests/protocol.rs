use xtask::protocol::{
    IpcError, IpcNotification, IpcRequest, IpcResponse, RequestId, ERROR_INTERNAL,
    ERROR_METHOD_NOT_FOUND, ERROR_PARAM_NOT_FOUND, ERROR_PARSE, METHOD_GET_PARAMETER,
};

#[test]
fn error_constructors_use_protocol_codes() {
    let e = IpcError::parse_error();
    assert_eq!((e.code, e.message.as_str()), (ERROR_PARSE, "Parse error"));
    let e = IpcError::method_not_found("foo");
    assert_eq!((e.code, e.message.as_str()), (ERROR_METHOD_NOT_FOUND, "Method not found: foo"));
    let e = IpcError::param_not_found("gain");
    assert_eq!((e.code, e.message.as_str()), (ERROR_PARAM_NOT_FOUND, "Parameter not found: gain"));
    assert!(e.data.is_none());
    assert_eq!(IpcError::invalid_request("x").message, "Invalid request: x");
    assert_eq!(IpcError::invalid_params("y").message, "Invalid params: y");
}

#[test]
fn envelopes() {
    let req = IpcRequest::new(RequestId::Number(7), METHOD_GET_PARAMETER, None);
    assert_eq!(req.jsonrpc, "2.0");
    assert_eq!(req.method, "getParameter");
    let resp = IpcResponse::success_from(RequestId::String("a".to_string()), Err("boom".to_string()));
    let err = resp.error.expect("error");
    assert_eq!(err.code, ERROR_INTERNAL);
    assert_eq!(err.message, "Internal error: Failed to serialize success response: boom");
    let ok = IpcResponse::success_from(RequestId::Number(1), Ok(serde_json::Value::Bool(true)));
    assert_eq!(ok.result, Some(serde_json::Value::Bool(true)));
    assert!(ok.error.is_none());
    let n = IpcNotification::new_from("meterUpdate", None);
    assert!(n.params.is_none());
}
