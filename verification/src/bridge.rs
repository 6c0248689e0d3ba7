use vstd::prelude::*;
use vstd::string::*;

use crate::errors::ToolError;
use crate::ipv4::{is_ipv4, ipv4_bits, parse_ipv4};
use crate::json_read::{
    self, spec_as_bool, spec_as_str, spec_as_u64, spec_field, spec_is_null, spec_parse,
    spec_string_entries, spec_string_items,
};
use crate::json_text::{
    pair_views, push_quoted, push_string_array, push_string_object, quoted, seq_views,
    string_array, string_object,
};
use crate::textutil::str_eq;

verus! {

/// The port used when the caller names none.
pub const DEFAULT_PORT: u16 = 42069;

/// 127.0.0.1 as a 32-bit big-endian value, used when the caller's host text
/// is not a dotted quad.
pub const LOOPBACK_BITS: u32 = 0x7F000001;

/// The fixed connection timeout, in milliseconds.
pub const DEFAULT_TIMEOUT_MS: u64 = 5000;

/// The kind of debug session a caller asks for.
#[derive(Clone, Copy, Debug, PartialEq, Eq, Structural)]
pub enum RequestKind {
    Launch,
    Attach,
}

/// A TCP connection template; unresolved fields are `None`.
#[derive(Clone, Copy, Debug, PartialEq, Eq)]
pub struct TcpTemplate {
    pub port: Option<u16>,
    pub host: Option<u32>,
    pub timeout: Option<u64>,
}

/// What a lookup found at one field of the caller's configuration object.
pub enum RawField<T> {
    /// The object has no member under the field's key.
    Absent,
    /// The member is JSON null.
    Null,
    /// The member exists but has the wrong JSON type.
    Mistyped,
    /// The member's value.
    Value(T),
}

/// The view of a looked-up string field.
pub open spec fn raw_string_view(f: RawField<String>) -> RawField<Seq<char>> {
    match f {
        RawField::Absent => RawField::Absent,
        RawField::Null => RawField::Null,
        RawField::Mistyped => RawField::Mistyped,
        RawField::Value(s) => RawField::Value(s@),
    }
}

/// The view of a looked-up string-list field.
pub open spec fn raw_strings_view(f: RawField<Vec<String>>) -> RawField<Seq<Seq<char>>> {
    match f {
        RawField::Absent => RawField::Absent,
        RawField::Null => RawField::Null,
        RawField::Mistyped => RawField::Mistyped,
        RawField::Value(items) => RawField::Value(seq_views(items@)),
    }
}

/// The view of a looked-up string-map field.
pub open spec fn raw_entries_view(f: RawField<Vec<(String, String)>>) -> RawField<
    Seq<(Seq<char>, Seq<char>)>,
> {
    match f {
        RawField::Absent => RawField::Absent,
        RawField::Null => RawField::Null,
        RawField::Mistyped => RawField::Mistyped,
        RawField::Value(entries) => RawField::Value(pair_views(entries@)),
    }
}

/// What looking a string field up in the document finds.
pub open spec fn spec_string_field(v: serde_json::Value, key: Seq<char>) -> RawField<Seq<char>> {
    match spec_field(v, key) {
        None => RawField::Absent,
        Some(m) => if spec_is_null(m) {
            RawField::Null
        } else {
            match spec_as_str(m) {
                Some(s) => RawField::Value(s),
                None => RawField::Mistyped,
            }
        },
    }
}

/// What looking an unsigned-integer field up in the document finds.
pub open spec fn spec_u64_field(v: serde_json::Value, key: Seq<char>) -> RawField<u64> {
    match spec_field(v, key) {
        None => RawField::Absent,
        Some(m) => if spec_is_null(m) {
            RawField::Null
        } else {
            match spec_as_u64(m) {
                Some(n) => RawField::Value(n),
                None => RawField::Mistyped,
            }
        },
    }
}

/// What looking a boolean field up in the document finds.
pub open spec fn spec_bool_field(v: serde_json::Value, key: Seq<char>) -> RawField<bool> {
    match spec_field(v, key) {
        None => RawField::Absent,
        Some(m) => if spec_is_null(m) {
            RawField::Null
        } else {
            match spec_as_bool(m) {
                Some(b) => RawField::Value(b),
                None => RawField::Mistyped,
            }
        },
    }
}

/// What looking a string-list field up in the document finds.
pub open spec fn spec_strings_field(v: serde_json::Value, key: Seq<char>) -> RawField<
    Seq<Seq<char>>,
> {
    match spec_field(v, key) {
        None => RawField::Absent,
        Some(m) => if spec_is_null(m) {
            RawField::Null
        } else {
            match spec_string_items(m) {
                Some(items) => RawField::Value(items),
                None => RawField::Mistyped,
            }
        },
    }
}

/// What looking a string-map field up in the document finds.
pub open spec fn spec_entries_field(v: serde_json::Value, key: Seq<char>) -> RawField<
    Seq<(Seq<char>, Seq<char>)>,
> {
    match spec_field(v, key) {
        None => RawField::Absent,
        Some(m) => if spec_is_null(m) {
            RawField::Null
        } else {
            match spec_string_entries(m) {
                Some(entries) => RawField::Value(entries),
                None => RawField::Mistyped,
            }
        },
    }
}

/// What the mandatory-string rule decides: the value, or nothing on a
/// shape error.
pub open spec fn spec_required_string(f: RawField<Seq<char>>) -> Option<Seq<char>> {
    match f {
        RawField::Value(s) => Some(s),
        _ => None,
    }
}

/// What the default-to-empty string rule decides.
pub open spec fn spec_string_or_empty(f: RawField<Seq<char>>) -> Option<Seq<char>> {
    match f {
        RawField::Value(s) => Some(s),
        RawField::Absent => Some(""@),
        _ => None,
    }
}

/// What the optional-string rule decides.
pub open spec fn spec_optional_string(f: RawField<Seq<char>>) -> Option<Option<Seq<char>>> {
    match f {
        RawField::Value(s) => Some(Some(s)),
        RawField::Absent | RawField::Null => Some(None),
        RawField::Mistyped => None,
    }
}

/// What the default-to-false boolean rule decides.
pub open spec fn spec_bool_or_false(f: RawField<bool>) -> Option<bool> {
    match f {
        RawField::Value(b) => Some(b),
        RawField::Absent => Some(false),
        _ => None,
    }
}

/// What the optional-boolean rule decides.
pub open spec fn spec_optional_bool(f: RawField<bool>) -> Option<Option<bool>> {
    match f {
        RawField::Value(b) => Some(Some(b)),
        RawField::Absent | RawField::Null => Some(None),
        RawField::Mistyped => None,
    }
}

/// What the optional-port rule decides.
pub open spec fn spec_optional_port(f: RawField<u64>) -> Option<Option<u16>> {
    match f {
        RawField::Value(p) => if p <= 65535 {
            Some(Some(p as u16))
        } else {
            None
        },
        RawField::Absent | RawField::Null => Some(None),
        RawField::Mistyped => None,
    }
}

/// What the default-to-empty string-list rule decides.
pub open spec fn spec_strings_or_empty(f: RawField<Seq<Seq<char>>>) -> Option<Seq<Seq<char>>> {
    match f {
        RawField::Value(items) => Some(items),
        RawField::Absent => Some(Seq::empty()),
        _ => None,
    }
}

/// What the default-to-empty string-map rule decides.
pub open spec fn spec_entries_or_empty(f: RawField<Seq<(Seq<char>, Seq<char>)>>) -> Option<
    Seq<(Seq<char>, Seq<char>)>,
> {
    match f {
        RawField::Value(entries) => Some(entries),
        RawField::Absent => Some(Seq::empty()),
        _ => None,
    }
}

/// Holds when `r` is the configuration-shape error for the named field.
pub open spec fn field_error<T>(r: Result<T, ToolError>, name: Seq<char>) -> bool {
    match r {
        Err(ToolError::ConfigParse { detail }) => detail@ == "missing or mistyped field: "@ + name,
        _ => false,
    }
}

/// The configuration-shape error for the named field.
fn make_field_error(name: &str) -> (e: ToolError)
    ensures
        (match e {
            ToolError::ConfigParse { detail } => detail@ == "missing or mistyped field: "@ + name@,
            _ => false,
        }),
{
    let mut detail = "missing or mistyped field: ".to_owned();
    detail.append(name);
    ToolError::ConfigParse { detail }
}

/// A mandatory string field: anything but a string value is a shape error.
pub fn required_string(f: RawField<String>, name: &str) -> (r: Result<String, ToolError>)
    ensures
        f matches RawField::Value(s) ==> (r matches Ok(out) && out == s),
        !(f matches RawField::Value(_)) ==> field_error(r, name@),
        (match r {
            Ok(out) => spec_required_string(raw_string_view(f)) == Some(out@),
            Err(_) => spec_required_string(raw_string_view(f)) is None,
        }),
{
    match f {
        RawField::Value(s) => Ok(s),
        _ => Err(make_field_error(name)),
    }
}

/// A string field that defaults to empty when absent; null or another JSON
/// type is a shape error.
pub fn string_or_empty(f: RawField<String>, name: &str) -> (r: Result<String, ToolError>)
    ensures
        f matches RawField::Value(s) ==> (r matches Ok(out) && out == s),
        f is Absent ==> (r matches Ok(out) && out@ == ""@),
        f is Null || f is Mistyped ==> field_error(r, name@),
        (match r {
            Ok(out) => spec_string_or_empty(raw_string_view(f)) == Some(out@),
            Err(_) => spec_string_or_empty(raw_string_view(f)) is None,
        }),
{
    match f {
        RawField::Value(s) => Ok(s),
        RawField::Absent => Ok("".to_owned()),
        _ => Err(make_field_error(name)),
    }
}

/// An optional string field: absent and null both mean "not given".
pub fn optional_string(f: RawField<String>, name: &str) -> (r: Result<Option<String>, ToolError>)
    ensures
        f matches RawField::Value(s) ==> (r matches Ok(out) && out == Some(s)),
        f is Absent || f is Null ==> r == Ok::<Option<String>, ToolError>(None),
        f is Mistyped ==> field_error(r, name@),
        (match r {
            Ok(out) => spec_optional_string(raw_string_view(f)) == Some(opt_view(out)),
            Err(_) => spec_optional_string(raw_string_view(f)) is None,
        }),
{
    match f {
        RawField::Value(s) => Ok(Some(s)),
        RawField::Absent | RawField::Null => Ok(None),
        RawField::Mistyped => Err(make_field_error(name)),
    }
}

/// A boolean field that defaults to false when absent; null or another JSON
/// type is a shape error.
pub fn bool_or_false(f: RawField<bool>, name: &str) -> (r: Result<bool, ToolError>)
    ensures
        f matches RawField::Value(b) ==> r == Ok::<bool, ToolError>(b),
        f is Absent ==> r == Ok::<bool, ToolError>(false),
        f is Null || f is Mistyped ==> field_error(r, name@),
        (match r {
            Ok(out) => spec_bool_or_false(f) == Some(out),
            Err(_) => spec_bool_or_false(f) is None,
        }),
{
    match f {
        RawField::Value(b) => Ok(b),
        RawField::Absent => Ok(false),
        _ => Err(make_field_error(name)),
    }
}

/// An optional boolean field: absent and null both mean "not given".
pub fn optional_bool(f: RawField<bool>, name: &str) -> (r: Result<Option<bool>, ToolError>)
    ensures
        f matches RawField::Value(b) ==> r == Ok::<Option<bool>, ToolError>(Some(b)),
        f is Absent || f is Null ==> r == Ok::<Option<bool>, ToolError>(None),
        f is Mistyped ==> field_error(r, name@),
        (match r {
            Ok(out) => spec_optional_bool(f) == Some(out),
            Err(_) => spec_optional_bool(f) is None,
        }),
{
    match f {
        RawField::Value(b) => Ok(Some(b)),
        RawField::Absent | RawField::Null => Ok(None),
        RawField::Mistyped => Err(make_field_error(name)),
    }
}

/// An optional port field: a value above 65535 is a shape error.
pub fn optional_port(f: RawField<u64>, name: &str) -> (r: Result<Option<u16>, ToolError>)
    ensures
        f matches RawField::Value(p) ==> (if p <= 65535 {
            r == Ok::<Option<u16>, ToolError>(Some(p as u16))
        } else {
            field_error(r, name@)
        }),
        f is Absent || f is Null ==> r == Ok::<Option<u16>, ToolError>(None),
        f is Mistyped ==> field_error(r, name@),
        (match r {
            Ok(out) => spec_optional_port(f) == Some(out),
            Err(_) => spec_optional_port(f) is None,
        }),
{
    match f {
        RawField::Value(p) => {
            if p <= 65535 {
                Ok(Some(p as u16))
            } else {
                Err(make_field_error(name))
            }
        },
        RawField::Absent | RawField::Null => Ok(None),
        RawField::Mistyped => Err(make_field_error(name)),
    }
}

/// A string-list field that defaults to empty when absent; null or another
/// shape is a shape error.
pub fn strings_or_empty(f: RawField<Vec<String>>, name: &str) -> (r: Result<
    Vec<String>,
    ToolError,
>)
    ensures
        f matches RawField::Value(v) ==> (r matches Ok(out) && out == v),
        f is Absent ==> (r matches Ok(out) && out@.len() == 0),
        f is Null || f is Mistyped ==> field_error(r, name@),
        (match r {
            Ok(out) => spec_strings_or_empty(raw_strings_view(f)) == Some(seq_views(out@)),
            Err(_) => spec_strings_or_empty(raw_strings_view(f)) is None,
        }),
{
    match f {
        RawField::Value(v) => Ok(v),
        RawField::Absent => {
            let out: Vec<String> = Vec::new();
            proof {
                assert(seq_views(out@) =~= Seq::<Seq<char>>::empty());
            }
            Ok(out)
        },
        _ => Err(make_field_error(name)),
    }
}

/// A string-map field that defaults to empty when absent; null or another
/// shape is a shape error.
pub fn entries_or_empty(f: RawField<Vec<(String, String)>>, name: &str) -> (r: Result<
    Vec<(String, String)>,
    ToolError,
>)
    ensures
        f matches RawField::Value(v) ==> (r matches Ok(out) && out == v),
        f is Absent ==> (r matches Ok(out) && out@.len() == 0),
        f is Null || f is Mistyped ==> field_error(r, name@),
        (match r {
            Ok(out) => spec_entries_or_empty(raw_entries_view(f)) == Some(pair_views(out@)),
            Err(_) => spec_entries_or_empty(raw_entries_view(f)) is None,
        }),
{
    match f {
        RawField::Value(v) => Ok(v),
        RawField::Absent => {
            let out: Vec<(String, String)> = Vec::new();
            proof {
                assert(pair_views(out@) =~= Seq::<(Seq<char>, Seq<char>)>::empty());
            }
            Ok(out)
        },
        _ => Err(make_field_error(name)),
    }
}

/// Classifies the request field: exactly the string "launch" names a launch
/// session; every other value, shape or absence is rejected.
pub fn classify_request_field(f: &RawField<String>) -> (r: Result<RequestKind, ToolError>)
    ensures
        f matches RawField::Value(s) ==> (if s@ == "launch"@ {
            r == Ok::<RequestKind, ToolError>(RequestKind::Launch)
        } else {
            r == Err::<RequestKind, ToolError>(ToolError::InvalidRequestKind)
        }),
        !(f matches RawField::Value(_)) ==> r == Err::<RequestKind, ToolError>(
            ToolError::InvalidRequestKind,
        ),
{
    match f {
        RawField::Value(s) => {
            if str_eq(s.as_str(), "launch") {
                Ok(RequestKind::Launch)
            } else {
                Err(ToolError::InvalidRequestKind)
            }
        },
        _ => Err(ToolError::InvalidRequestKind),
    }
}

/// The connection template a session will use: a caller-supplied template
/// verbatim, else one synthesized from the configuration with the fixed
/// defaults filled in.
pub open spec fn spec_resolved_connection(
    caller: Option<TcpTemplate>,
    port: Option<u16>,
    host: Seq<char>,
) -> TcpTemplate {
    match caller {
        Some(t) => t,
        None => (TcpTemplate {
            port: Some(
                match port {
                    Some(p) => p,
                    None => DEFAULT_PORT,
                },
            ),
            host: Some(
                if is_ipv4(host) {
                    ipv4_bits(host) as u32
                } else {
                    LOOPBACK_BITS
                },
            ),
            timeout: Some(DEFAULT_TIMEOUT_MS),
        }),
    }
}

/// Resolves the TCP connection template for a session.
pub fn resolve_connection(caller: Option<TcpTemplate>, port: Option<u16>, host: &str) -> (r:
    TcpTemplate)
    ensures
        r == spec_resolved_connection(caller, port, host@),
{
    match caller {
        Some(t) => t,
        None => {
            let hbits = match parse_ipv4(host) {
                Some(bits) => bits,
                None => LOOPBACK_BITS,
            };
            let p = match port {
                Some(p) => p,
                None => DEFAULT_PORT,
            };
            TcpTemplate { port: Some(p), host: Some(hbits), timeout: Some(DEFAULT_TIMEOUT_MS) }
        },
    }
}

/// An optional text as a JSON value: a string literal, or `null`.
pub open spec fn opt_quoted(o: Option<Seq<char>>) -> Seq<char> {
    match o {
        Some(s) => quoted(s),
        None => "null"@,
    }
}

/// A JSON boolean.
pub open spec fn bool_text(b: bool) -> Seq<char> {
    if b {
        "true"@
    } else {
        "false"@
    }
}

/// The adapter's wire-level configuration object, exactly as it is sent:
/// fixed adapter type, launch request, then the caller's fields in order.
pub open spec fn wire_config_text(
    program: Seq<char>,
    cwd: Option<Seq<char>>,
    args: Seq<Seq<char>>,
    env: Seq<(Seq<char>, Seq<char>)>,
    stop_on_entry: bool,
) -> Seq<char> {
    "{\"type\":\"tvm\",\"request\":\"launch\",\"program\":"@ + quoted(program) + ",\"cwd\":"@
        + opt_quoted(cwd) + ",\"args\":"@ + string_array(args) + ",\"env\":"@ + string_object(env)
        + ",\"stopOnEntry\":"@ + bool_text(stop_on_entry) + "}"@
}

/// Builds the wire-level configuration text for a launch session.
pub fn build_wire_config(
    program: &str,
    cwd: &Option<String>,
    args: &Vec<String>,
    env: &Vec<(String, String)>,
    stop_on_entry: bool,
) -> (r: String)
    ensures
        r@ == wire_config_text(
            program@,
            opt_view(*cwd),
            seq_views(args@),
            pair_views(env@),
            stop_on_entry,
        ),
{
    let mut out = "{\"type\":\"tvm\",\"request\":\"launch\",\"program\":".to_owned();
    push_quoted(&mut out, program);
    out.append(",\"cwd\":");
    match cwd {
        Some(c) => push_quoted(&mut out, c.as_str()),
        None => out.append("null"),
    }
    out.append(",\"args\":");
    push_string_array(&mut out, args);
    out.append(",\"env\":");
    push_string_object(&mut out, env);
    out.append(",\"stopOnEntry\":");
    if stop_on_entry {
        out.append("true");
    } else {
        out.append("false");
    }
    out.append("}");
    proof {
        assert(out@ =~= wire_config_text(
            program@,
            opt_view(*cwd),
            seq_views(args@),
            pair_views(env@),
            stop_on_entry,
        ));
    }
    out
}

/// The view of an optional owned string.
pub open spec fn opt_view(o: Option<String>) -> Option<Seq<char>> {
    match o {
        Some(s) => Some(s@),
        None => None,
    }
}

/// The caller's adapter-agnostic launch configuration, with every optional
/// field already defaulted as the shape rules say.
pub struct GenericLaunchConfig {
    pub request: String,
    pub host: String,
    pub command: Option<String>,
    pub cwd: Option<String>,
    pub args: Vec<String>,
    pub env: Vec<(String, String)>,
    pub stop_on_entry: bool,
    pub stop_on_breakpoint: bool,
    pub stop_on_step: Option<bool>,
    pub port: Option<u16>,
}

/// The program the wire configuration names: the caller's command, or empty.
pub open spec fn launch_program(cfg: GenericLaunchConfig) -> Seq<char> {
    match cfg.command {
        Some(c) => c@,
        None => ""@,
    }
}

/// Everything a debug session needs before it is handed to the transport.
#[derive(Debug)]
pub struct SessionPlan {
    pub kind: RequestKind,
    pub connection: TcpTemplate,
    pub wire_config: String,
}

/// Plans a session from an already-shaped configuration: only a launch
/// request is accepted; the connection template and wire configuration are
/// derived exactly as specified.
pub fn session_from_config(cfg: GenericLaunchConfig, caller_tcp: Option<TcpTemplate>) -> (r:
    Result<SessionPlan, ToolError>)
    ensures
        cfg.request@ == "launch"@ ==> (r matches Ok(p) && p.kind == RequestKind::Launch
            && p.connection == spec_resolved_connection(caller_tcp, cfg.port, cfg.host@)
            && p.wire_config@ == wire_config_text(
            launch_program(cfg),
            opt_view(cfg.cwd),
            seq_views(cfg.args@),
            pair_views(cfg.env@),
            cfg.stop_on_entry,
        )),
        cfg.request@ != "launch"@ ==> r == Err::<SessionPlan, ToolError>(
            ToolError::InvalidRequestKind,
        ),
{
    if !str_eq(cfg.request.as_str(), "launch") {
        return Err(ToolError::InvalidRequestKind);
    }
    let connection = resolve_connection(caller_tcp, cfg.port, cfg.host.as_str());
    let program = match &cfg.command {
        Some(c) => c.as_str(),
        None => "",
    };
    let wire_config = build_wire_config(program, &cfg.cwd, &cfg.args, &cfg.env, cfg.stop_on_entry);
    Ok(SessionPlan { kind: RequestKind::Launch, connection, wire_config })
}

/// The fields of a generic launch request, as the host hands them over.
pub struct LaunchRequestInfo {
    pub program: String,
    pub cwd: Option<String>,
    pub args: Vec<String>,
    pub envs: Vec<(String, String)>,
}

/// A generic debug request: launch with its fields, or attach.
pub enum DebugRequestInfo {
    Launch(LaunchRequestInfo),
    Attach { process_id: Option<u32> },
}

/// The host's adapter-agnostic description of a requested debug session.
pub struct DebugConfigInfo {
    pub label: String,
    pub adapter: String,
    pub request: DebugRequestInfo,
    pub stop_on_entry: Option<bool>,
}

/// An adapter-specific session descriptor, ready to launch. This adapter
/// never sets a build step or a TCP template here; the connection is
/// resolved later, from whatever the caller submits as a launch config.
pub struct Scenario {
    pub label: String,
    pub adapter: String,
    /// The name of a build task to run first; never set by this adapter.
    pub build: Option<String>,
    /// The wire-level configuration, JSON-encoded.
    pub config: String,
    pub tcp_connection: Option<TcpTemplate>,
}

/// A boolean that defaults to false when not given.
pub open spec fn default_false(o: Option<bool>) -> bool {
    match o {
        Some(b) => b,
        None => false,
    }
}

/// Translates a generic debug request into this adapter's scenario: attach
/// is rejected outright; launch carries the request's fields into the wire
/// configuration verbatim.
pub fn dap_config_to_scenario(cfg: DebugConfigInfo) -> (r: Result<Scenario, ToolError>)
    ensures
        cfg.request is Attach ==> r == Err::<Scenario, ToolError>(ToolError::UnsupportedOperation),
        cfg.request matches DebugRequestInfo::Launch(l) ==> (r matches Ok(s) && s.label == cfg.label
            && s.adapter == cfg.adapter && s.build is None && s.tcp_connection is None
            && s.config@ == wire_config_text(
            l.program@,
            opt_view(l.cwd),
            seq_views(l.args@),
            pair_views(l.envs@),
            default_false(cfg.stop_on_entry),
        )),
{
    match cfg.request {
        DebugRequestInfo::Attach { process_id: _ } => Err(ToolError::UnsupportedOperation),
        DebugRequestInfo::Launch(l) => {
            let stop_on_entry = match cfg.stop_on_entry {
                Some(b) => b,
                None => false,
            };
            let config = build_wire_config(
                l.program.as_str(),
                &l.cwd,
                &l.args,
                &l.envs,
                stop_on_entry,
            );
            Ok(
                Scenario {
                    label: cfg.label,
                    adapter: cfg.adapter,
                    build: None,
                    config,
                    tcp_connection: None,
                },
            )
        },
    }
}

/// Looks a string field up in the caller's configuration object.
fn string_field(v: &serde_json::Value, key: &str) -> (r: RawField<String>)
    ensures
        raw_string_view(r) == spec_string_field(*v, key@),
{
    match json_read::json_field(v, key) {
        None => RawField::Absent,
        Some(member) => {
            if json_read::json_is_null(member) {
                RawField::Null
            } else {
                match json_read::json_as_str(member) {
                    Some(s) => RawField::Value(s.to_owned()),
                    None => RawField::Mistyped,
                }
            }
        },
    }
}

/// Looks an unsigned-integer field up in the caller's configuration object.
fn u64_field(v: &serde_json::Value, key: &str) -> (r: RawField<u64>)
    ensures
        r == spec_u64_field(*v, key@),
{
    match json_read::json_field(v, key) {
        None => RawField::Absent,
        Some(member) => {
            if json_read::json_is_null(member) {
                RawField::Null
            } else {
                match json_read::json_as_u64(member) {
                    Some(n) => RawField::Value(n),
                    None => RawField::Mistyped,
                }
            }
        },
    }
}

/// Looks a boolean field up in the caller's configuration object.
fn bool_field(v: &serde_json::Value, key: &str) -> (r: RawField<bool>)
    ensures
        r == spec_bool_field(*v, key@),
{
    match json_read::json_field(v, key) {
        None => RawField::Absent,
        Some(member) => {
            if json_read::json_is_null(member) {
                RawField::Null
            } else {
                match json_read::json_as_bool(member) {
                    Some(b) => RawField::Value(b),
                    None => RawField::Mistyped,
                }
            }
        },
    }
}

/// Looks a string-list field up in the caller's configuration object.
fn strings_field(v: &serde_json::Value, key: &str) -> (r: RawField<Vec<String>>)
    ensures
        raw_strings_view(r) == spec_strings_field(*v, key@),
{
    match json_read::json_field(v, key) {
        None => RawField::Absent,
        Some(member) => {
            if json_read::json_is_null(member) {
                RawField::Null
            } else {
                match json_read::json_string_items(member) {
                    Some(items) => RawField::Value(items),
                    None => RawField::Mistyped,
                }
            }
        },
    }
}

/// Looks a string-map field up in the caller's configuration object.
fn entries_field(v: &serde_json::Value, key: &str) -> (r: RawField<Vec<(String, String)>>)
    ensures
        raw_entries_view(r) == spec_entries_field(*v, key@),
{
    match json_read::json_field(v, key) {
        None => RawField::Absent,
        Some(member) => {
            if json_read::json_is_null(member) {
                RawField::Null
            } else {
                match json_read::json_string_entries(member) {
                    Some(entries) => RawField::Value(entries),
                    None => RawField::Mistyped,
                }
            }
        },
    }
}

/// Whether the document has the generic launch shape: every field either
/// absent (where a default exists) or of its expected JSON type.
pub open spec fn spec_shape_ok(v: serde_json::Value) -> bool {
    &&& spec_required_string(spec_string_field(v, "request"@)) is Some
    &&& spec_string_or_empty(spec_string_field(v, "host"@)) is Some
    &&& spec_optional_string(spec_string_field(v, "command"@)) is Some
    &&& spec_optional_string(spec_string_field(v, "cwd"@)) is Some
    &&& spec_strings_or_empty(spec_strings_field(v, "args"@)) is Some
    &&& spec_entries_or_empty(spec_entries_field(v, "env"@)) is Some
    &&& spec_bool_or_false(spec_bool_field(v, "stopOnEntry"@)) is Some
    &&& spec_bool_or_false(spec_bool_field(v, "stopOnBreakpoint"@)) is Some
    &&& spec_optional_bool(spec_bool_field(v, "stopOnStep"@)) is Some
    &&& spec_optional_port(spec_u64_field(v, "port"@)) is Some
}

/// The request field's decided value; empty where the shape check fails.
pub open spec fn spec_request_of(v: serde_json::Value) -> Seq<char> {
    match spec_required_string(spec_string_field(v, "request"@)) {
        Some(s) => s,
        None => Seq::empty(),
    }
}

/// The document asks for a launch session: the request member exists, is a
/// string, and is exactly "launch".
pub open spec fn spec_request_is_launch(v: serde_json::Value) -> bool {
    spec_string_field(v, "request"@) matches RawField::Value(s) && s == "launch"@
}

/// The host field's decided value; empty where the shape check fails.
pub open spec fn spec_host_of(v: serde_json::Value) -> Seq<char> {
    match spec_string_or_empty(spec_string_field(v, "host"@)) {
        Some(s) => s,
        None => Seq::empty(),
    }
}

/// The command field's decided value.
pub open spec fn spec_command_of(v: serde_json::Value) -> Option<Seq<char>> {
    match spec_optional_string(spec_string_field(v, "command"@)) {
        Some(c) => c,
        None => None,
    }
}

/// The cwd field's decided value.
pub open spec fn spec_cwd_of(v: serde_json::Value) -> Option<Seq<char>> {
    match spec_optional_string(spec_string_field(v, "cwd"@)) {
        Some(c) => c,
        None => None,
    }
}

/// The args field's decided value.
pub open spec fn spec_args_of(v: serde_json::Value) -> Seq<Seq<char>> {
    match spec_strings_or_empty(spec_strings_field(v, "args"@)) {
        Some(a) => a,
        None => Seq::empty(),
    }
}

/// The env field's decided value.
pub open spec fn spec_env_of(v: serde_json::Value) -> Seq<(Seq<char>, Seq<char>)> {
    match spec_entries_or_empty(spec_entries_field(v, "env"@)) {
        Some(e) => e,
        None => Seq::empty(),
    }
}

/// The stopOnEntry field's decided value.
pub open spec fn spec_stop_on_entry_of(v: serde_json::Value) -> bool {
    match spec_bool_or_false(spec_bool_field(v, "stopOnEntry"@)) {
        Some(b) => b,
        None => false,
    }
}

/// The port field's decided value.
pub open spec fn spec_port_of(v: serde_json::Value) -> Option<u16> {
    match spec_optional_port(spec_u64_field(v, "port"@)) {
        Some(p) => p,
        None => None,
    }
}

/// The program the wire configuration will name for the document.
pub open spec fn spec_program_of(v: serde_json::Value) -> Seq<char> {
    match spec_command_of(v) {
        Some(c) => c,
        None => ""@,
    }
}

/// Reads the caller's parsed configuration into the generic launch shape,
/// rejecting any field of the wrong JSON type and defaulting absent ones.
fn read_config(v: &serde_json::Value) -> (r: Result<GenericLaunchConfig, ToolError>)
    ensures
        r is Ok <==> spec_shape_ok(*v),
        r matches Ok(cfg) ==> (cfg.request@ == spec_request_of(*v) && cfg.host@ == spec_host_of(*v)
            && opt_view(cfg.command) == spec_command_of(*v) && opt_view(cfg.cwd) == spec_cwd_of(*v)
            && seq_views(cfg.args@) == spec_args_of(*v) && pair_views(cfg.env@) == spec_env_of(*v)
            && cfg.stop_on_entry == spec_stop_on_entry_of(*v) && cfg.port == spec_port_of(*v)),
        r matches Err(e) ==> e is ConfigParse,
{
    let request = match required_string(string_field(v, "request"), "request") {
        Ok(x) => x,
        Err(e) => return Err(e),
    };
    let host = match string_or_empty(string_field(v, "host"), "host") {
        Ok(x) => x,
        Err(e) => return Err(e),
    };
    let command = match optional_string(string_field(v, "command"), "command") {
        Ok(x) => x,
        Err(e) => return Err(e),
    };
    let cwd = match optional_string(string_field(v, "cwd"), "cwd") {
        Ok(x) => x,
        Err(e) => return Err(e),
    };
    let args = match strings_or_empty(strings_field(v, "args"), "args") {
        Ok(x) => x,
        Err(e) => return Err(e),
    };
    let env = match entries_or_empty(entries_field(v, "env"), "env") {
        Ok(x) => x,
        Err(e) => return Err(e),
    };
    let stop_on_entry = match bool_or_false(bool_field(v, "stopOnEntry"), "stopOnEntry") {
        Ok(x) => x,
        Err(e) => return Err(e),
    };
    let stop_on_breakpoint = match bool_or_false(
        bool_field(v, "stopOnBreakpoint"),
        "stopOnBreakpoint",
    ) {
        Ok(x) => x,
        Err(e) => return Err(e),
    };
    let stop_on_step = match optional_bool(bool_field(v, "stopOnStep"), "stopOnStep") {
        Ok(x) => x,
        Err(e) => return Err(e),
    };
    let port = match optional_port(u64_field(v, "port"), "port") {
        Ok(x) => x,
        Err(e) => return Err(e),
    };
    Ok(
        GenericLaunchConfig {
            request,
            host,
            command,
            cwd,
            args,
            env,
            stop_on_entry,
            stop_on_breakpoint,
            stop_on_step,
            port,
        },
    )
}

/// Classifies an already-parsed configuration value: launch exactly when
/// the request member is the string "launch", and the invalid-request-kind
/// error on every other document.
pub fn request_kind_of_value(v: &serde_json::Value) -> (r: Result<RequestKind, ToolError>)
    ensures
        r matches Ok(k) ==> k == RequestKind::Launch,
        spec_request_is_launch(*v) ==> r == Ok::<RequestKind, ToolError>(RequestKind::Launch),
        !spec_request_is_launch(*v) ==> r == Err::<RequestKind, ToolError>(
            ToolError::InvalidRequestKind,
        ),
{
    let f = string_field(v, "request");
    proof {
        match &f {
            RawField::Value(s) => {
                assert(spec_string_field(*v, "request"@) == RawField::<Seq<char>>::Value(s@));
            },
            RawField::Absent => {
                assert(spec_string_field(*v, "request"@) is Absent);
            },
            RawField::Null => {
                assert(spec_string_field(*v, "request"@) is Null);
            },
            RawField::Mistyped => {
                assert(spec_string_field(*v, "request"@) is Mistyped);
            },
        }
    }
    classify_request_field(&f)
}

/// Classifies a JSON-encoded configuration: only `"request":"launch"` is
/// accepted; text that is not JSON is a configuration-parse failure.
pub fn dap_request_kind(config_text: &str) -> (r: Result<RequestKind, ToolError>)
    ensures
        r matches Ok(k) ==> k == RequestKind::Launch,
        (match spec_parse(config_text@) {
            Some(v) => (if spec_request_is_launch(v) {
                r == Ok::<RequestKind, ToolError>(RequestKind::Launch)
            } else {
                r == Err::<RequestKind, ToolError>(ToolError::InvalidRequestKind)
            }),
            None => (r matches Err(e) && e is ConfigParse),
        }),
{
    match json_read::parse_json(config_text) {
        Err(e) => Err(ToolError::ConfigParse { detail: json_read::json_error_text(&e) }),
        Ok(v) => request_kind_of_value(&v),
    }
}

/// Plans a debug session from JSON-encoded configuration text: parse, check
/// the shape, classify, resolve the connection, and build the wire config.
/// A returned plan is always a launch with a usable connection template.
pub fn build_dap_session(config_text: &str, caller_tcp: Option<TcpTemplate>) -> (r: Result<
    SessionPlan,
    ToolError,
>)
    ensures
        r matches Ok(p) ==> p.kind == RequestKind::Launch,
        caller_tcp matches Some(t) ==> (r matches Ok(p) ==> p.connection == t),
        caller_tcp is None ==> (r matches Ok(p) ==> p.connection.port is Some
            && p.connection.host is Some && p.connection.timeout == Some(DEFAULT_TIMEOUT_MS)),
        (match spec_parse(config_text@) {
            None => (r matches Err(e) && e is ConfigParse),
            Some(v) => {
                &&& (!spec_shape_ok(v) ==> (r matches Err(e) && e is ConfigParse))
                &&& (spec_shape_ok(v) && spec_request_of(v) != "launch"@ ==> r == Err::<
                    SessionPlan,
                    ToolError,
                >(ToolError::InvalidRequestKind))
                &&& (spec_shape_ok(v) && spec_request_of(v) == "launch"@ ==> (r matches Ok(p)
                    && p.kind == RequestKind::Launch && p.connection == spec_resolved_connection(
                    caller_tcp,
                    spec_port_of(v),
                    spec_host_of(v),
                ) && p.wire_config@ == wire_config_text(
                    spec_program_of(v),
                    spec_cwd_of(v),
                    spec_args_of(v),
                    spec_env_of(v),
                    spec_stop_on_entry_of(v),
                )))
            },
        }),
{
    let v = match json_read::parse_json(config_text) {
        Err(e) => {
            return Err(ToolError::ConfigParse { detail: json_read::json_error_text(&e) });
        },
        Ok(v) => v,
    };
    let cfg = match read_config(&v) {
        Err(e) => {
            return Err(e);
        },
        Ok(cfg) => cfg,
    };
    let ghost gcfg = cfg;
    let r = session_from_config(cfg, caller_tcp);
    proof {
        match gcfg.command {
            Some(c) => {
                assert(spec_command_of(v) == Some(c@));
            },
            None => {
                assert(spec_command_of(v) is None);
            },
        }
        assert(launch_program(gcfg) == spec_program_of(v));
    }
    r
}

} // verus!
