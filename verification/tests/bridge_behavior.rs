use ton_tooling::bridge::{
    build_dap_session, dap_config_to_scenario, dap_request_kind, request_kind_of_value,
    resolve_connection, DebugConfigInfo, DebugRequestInfo, LaunchRequestInfo, RequestKind,
    TcpTemplate, DEFAULT_PORT, DEFAULT_TIMEOUT_MS, LOOPBACK_BITS,
};
use ton_tooling::ipv4::parse_ipv4;
use ton_tooling::ToolError;

#[test]
fn attach_request_is_always_rejected() {
    match dap_request_kind(r#"{"request":"attach","port":2345}"#) {
        Err(ToolError::InvalidRequestKind) => {}
        _ => panic!("expected InvalidRequestKind"),
    }
}

#[test]
fn launch_request_is_classified() {
    match dap_request_kind(r#"{"request":"launch"}"#) {
        Ok(RequestKind::Launch) => {}
        _ => panic!("expected Launch"),
    }
}

#[test]
fn absent_or_mistyped_request_is_rejected() {
    match dap_request_kind(r#"{"port":1}"#) {
        Err(ToolError::InvalidRequestKind) => {}
        _ => panic!("expected InvalidRequestKind"),
    }
    match dap_request_kind(r#"{"request":5}"#) {
        Err(ToolError::InvalidRequestKind) => {}
        _ => panic!("expected InvalidRequestKind"),
    }
    let v: serde_json::Value = serde_json::from_str(r#"{"request":"Launch"}"#).unwrap();
    match request_kind_of_value(&v) {
        Err(ToolError::InvalidRequestKind) => {}
        _ => panic!("classification is case-sensitive"),
    }
}

#[test]
fn unparseable_text_is_a_config_parse_failure() {
    match dap_request_kind("not json at all") {
        Err(ToolError::ConfigParse { .. }) => {}
        _ => panic!("expected ConfigParse"),
    }
}

#[test]
fn connection_defaults_fill_every_field() {
    let t = resolve_connection(None, None, "");
    assert_eq!(
        t,
        TcpTemplate { port: Some(42069), host: Some(0x7F000001), timeout: Some(5000) }
    );
    assert_eq!(t.port, Some(DEFAULT_PORT));
    assert_eq!(t.host, Some(LOOPBACK_BITS));
    assert_eq!(t.timeout, Some(DEFAULT_TIMEOUT_MS));
}

#[test]
fn connection_defaults_from_null_port_and_empty_host() {
    let plan = build_dap_session(r#"{"request":"launch","port":null,"host":""}"#, None).unwrap();
    assert_eq!(plan.kind, RequestKind::Launch);
    assert_eq!(
        plan.connection,
        TcpTemplate { port: Some(42069), host: Some(0x7F000001), timeout: Some(5000) }
    );
}

#[test]
fn caller_template_is_used_verbatim() {
    let given = TcpTemplate { port: None, host: Some(1), timeout: None };
    let plan = build_dap_session(r#"{"request":"launch","port":9000}"#, Some(given)).unwrap();
    assert_eq!(plan.connection, given);
}

#[test]
fn caller_port_and_host_are_honoured() {
    let plan =
        build_dap_session(r#"{"request":"launch","port":9229,"host":"10.0.0.1"}"#, None).unwrap();
    assert_eq!(plan.connection.port, Some(9229));
    assert_eq!(plan.connection.host, Some(0x0A000001));
    assert_eq!(plan.connection.timeout, Some(5000));
}

#[test]
fn launch_scenario_builds_the_exact_wire_json() {
    let cfg = DebugConfigInfo {
        label: "debug a.fif".to_string(),
        adapter: "tvm".to_string(),
        request: DebugRequestInfo::Launch(LaunchRequestInfo {
            program: "a.fif".to_string(),
            cwd: Some("/tmp".to_string()),
            args: vec!["x".to_string()],
            envs: vec![("A".to_string(), "1".to_string())],
        }),
        stop_on_entry: None,
    };
    let s = dap_config_to_scenario(cfg).unwrap();
    assert_eq!(s.label, "debug a.fif");
    assert_eq!(s.adapter, "tvm");
    assert!(s.build.is_none());
    assert!(s.tcp_connection.is_none());
    assert_eq!(
        s.config,
        r#"{"type":"tvm","request":"launch","program":"a.fif","cwd":"/tmp","args":["x"],"env":{"A":"1"},"stopOnEntry":false}"#
    );
}

#[test]
fn attach_scenario_always_fails() {
    let cfg = DebugConfigInfo {
        label: "attach".to_string(),
        adapter: "tvm".to_string(),
        request: DebugRequestInfo::Attach { process_id: Some(7) },
        stop_on_entry: Some(true),
    };
    match dap_config_to_scenario(cfg) {
        Err(ToolError::UnsupportedOperation) => {}
        _ => panic!("expected UnsupportedOperation"),
    }
}

#[test]
fn scenario_defaults_and_env_order_are_kept() {
    let cfg = DebugConfigInfo {
        label: "l".to_string(),
        adapter: "tvm".to_string(),
        request: DebugRequestInfo::Launch(LaunchRequestInfo {
            program: "p".to_string(),
            cwd: None,
            args: vec![],
            envs: vec![("B".to_string(), "2".to_string()), ("A".to_string(), "1".to_string())],
        }),
        stop_on_entry: Some(true),
    };
    let s = dap_config_to_scenario(cfg).unwrap();
    assert_eq!(
        s.config,
        r#"{"type":"tvm","request":"launch","program":"p","cwd":null,"args":[],"env":{"B":"2","A":"1"},"stopOnEntry":true}"#
    );
}

#[test]
fn wire_json_escapes_strings() {
    let cfg = DebugConfigInfo {
        label: "l".to_string(),
        adapter: "tvm".to_string(),
        request: DebugRequestInfo::Launch(LaunchRequestInfo {
            program: "a\"b\\c\nd\te\u{1}f".to_string(),
            cwd: None,
            args: vec![],
            envs: vec![],
        }),
        stop_on_entry: None,
    };
    let s = dap_config_to_scenario(cfg).unwrap();
    assert!(s.config.contains("a\\\"b\\\\c\\nd\\te\\u0001f"));
}

#[test]
fn session_carries_the_wire_config() {
    let text = r#"{"request":"launch","command":"a.fif","cwd":"/tmp","args":["x"],"env":{"A":"1"},"stopOnEntry":true,"port":9229,"host":"10.0.0.1"}"#;
    let plan = build_dap_session(text, None).unwrap();
    assert_eq!(
        plan.wire_config,
        r#"{"type":"tvm","request":"launch","program":"a.fif","cwd":"/tmp","args":["x"],"env":{"A":"1"},"stopOnEntry":true}"#
    );
}

#[test]
fn session_defaults_absent_fields() {
    let plan = build_dap_session(r#"{"request":"launch"}"#, None).unwrap();
    assert_eq!(
        plan.wire_config,
        r#"{"type":"tvm","request":"launch","program":"","cwd":null,"args":[],"env":{},"stopOnEntry":false}"#
    );
}

#[test]
fn mistyped_fields_are_config_parse_failures() {
    for text in [
        r#"{"request":"launch","args":"x"}"#,
        r#"{"request":"launch","args":[1]}"#,
        r#"{"request":"launch","env":[]}"#,
        r#"{"request":"launch","env":{"A":1}}"#,
        r#"{"request":"launch","port":70000}"#,
        r#"{"request":"launch","port":-1}"#,
        r#"{"request":"launch","host":null}"#,
        r#"{"request":"launch","stopOnEntry":null}"#,
        r#"{"request":"launch","cwd":7}"#,
    ] {
        match build_dap_session(text, None) {
            Err(ToolError::ConfigParse { .. }) => {}
            other => panic!("expected ConfigParse for {text}, got {other:?}"),
        }
    }
}

#[test]
fn missing_request_in_session_is_a_config_parse_failure() {
    match build_dap_session(r#"{"port":1}"#, None) {
        Err(ToolError::ConfigParse { .. }) => {}
        _ => panic!("expected ConfigParse"),
    }
}

#[test]
fn attach_session_is_an_invalid_request_kind() {
    match build_dap_session(r#"{"request":"attach"}"#, None) {
        Err(ToolError::InvalidRequestKind) => {}
        _ => panic!("expected InvalidRequestKind"),
    }
}

#[test]
fn dotted_quads_parse_to_big_endian_bits() {
    assert_eq!(parse_ipv4("127.0.0.1"), Some(0x7F000001));
    assert_eq!(parse_ipv4("10.0.0.1"), Some(0x0A000001));
    assert_eq!(parse_ipv4("255.255.255.255"), Some(0xFFFFFFFF));
    assert_eq!(parse_ipv4("0.0.0.0"), Some(0));
}

#[test]
fn malformed_hosts_do_not_parse() {
    for text in [
        "", "localhost", "1.2.3", "1.2.3.4.5", "01.2.3.4", "256.1.1.1", "1.2.3.", ".1.2.3",
        "1..2.3", "1.2.3.4 ", "a.b.c.d", "1.2.3.1e1",
    ] {
        assert_eq!(parse_ipv4(text), None, "{text} should not parse");
    }
}

#[test]
fn invalid_host_text_falls_back_to_loopback() {
    let t = resolve_connection(None, Some(1), "localhost");
    assert_eq!(t.host, Some(LOOPBACK_BITS));
    let t2 = resolve_connection(None, Some(1), "10.0.0.300");
    assert_eq!(t2.host, Some(LOOPBACK_BITS));
}
