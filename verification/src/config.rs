//! The daemon's running configuration: a snapshot type, its wire-format
//! reader, and the closed set of fields an edit may patch.
//!
//! A snapshot is immutable and only ever replaced wholesale by a fetch;
//! a patch is a value describing one field change, sent to the daemon
//! and never applied to the local snapshot directly.

use vstd::prelude::*;

use crate::json::JsonValue;
use crate::json::obj_get;
use crate::json::bool_field;
use crate::json::num_field;
use crate::json::str_field;
use crate::json::str_eq;
use crate::json::spec_bool_field;
use crate::json::spec_num_field;
use crate::json::spec_str_field;
use crate::json::spec_get;

verus! {

/// The daemon's routing mode.
#[derive(Clone, Copy, Debug, PartialEq, Eq, Structural)]
pub enum Mode {
    Rule,
    Global,
    Direct,
}

/// The daemon's log level.
#[derive(Clone, Copy, Debug, PartialEq, Eq, Structural)]
pub enum LogLevel {
    Info,
    Warning,
    Error,
    Debug,
    Silent,
}

/// TUN device state within a configuration snapshot.
#[derive(Clone, Debug, PartialEq)]
pub struct Tun {
    pub enable: bool,
    pub stack: Option<String>,
    pub device: Option<String>,
}

/// One configuration snapshot, replaced in full on each successful fetch.
#[derive(Clone, Debug, PartialEq)]
pub struct Config {
    pub mode: Mode,
    pub tun: Tun,
    pub mixed_port: u16,
    pub log_level: LogLevel,
    pub allow_lan: bool,
    pub bind_address: String,
    pub ipv6: bool,
}

/// The mode named by `s`, if it names one.
pub open spec fn spec_mode_of(s: Seq<char>) -> Option<Mode> {
    if s == "rule"@ {
        Some(Mode::Rule)
    } else if s == "global"@ {
        Some(Mode::Global)
    } else if s == "direct"@ {
        Some(Mode::Direct)
    } else {
        None
    }
}

/// The daemon's name for `m`.
pub open spec fn spec_mode_name(m: Mode) -> Seq<char> {
    match m {
        Mode::Rule => "rule"@,
        Mode::Global => "global"@,
        Mode::Direct => "direct"@,
    }
}

/// The log level named by `s`, if it names one.
pub open spec fn spec_log_level_of(s: Seq<char>) -> Option<LogLevel> {
    if s == "info"@ {
        Some(LogLevel::Info)
    } else if s == "warning"@ {
        Some(LogLevel::Warning)
    } else if s == "error"@ {
        Some(LogLevel::Error)
    } else if s == "debug"@ {
        Some(LogLevel::Debug)
    } else if s == "silent"@ {
        Some(LogLevel::Silent)
    } else {
        None
    }
}

/// The daemon's name for `l`.
pub open spec fn spec_log_level_name(l: LogLevel) -> Seq<char> {
    match l {
        LogLevel::Info => "info"@,
        LogLevel::Warning => "warning"@,
        LogLevel::Error => "error"@,
        LogLevel::Debug => "debug"@,
        LogLevel::Silent => "silent"@,
    }
}

/// Parse a mode name.
pub fn mode_of(s: &String) -> (r: Option<Mode>)
    ensures
        r == spec_mode_of(s@),
{
    if str_eq(s, "rule") {
        Some(Mode::Rule)
    } else if str_eq(s, "global") {
        Some(Mode::Global)
    } else if str_eq(s, "direct") {
        Some(Mode::Direct)
    } else {
        None
    }
}

/// The daemon's name for `m`, as a string.
pub fn mode_name(m: Mode) -> (r: String)
    ensures
        r@ == spec_mode_name(m),
{
    match m {
        Mode::Rule => String::from_str("rule"),
        Mode::Global => String::from_str("global"),
        Mode::Direct => String::from_str("direct"),
    }
}

/// Parse a log-level name.
pub fn log_level_of(s: &String) -> (r: Option<LogLevel>)
    ensures
        r == spec_log_level_of(s@),
{
    if str_eq(s, "info") {
        Some(LogLevel::Info)
    } else if str_eq(s, "warning") {
        Some(LogLevel::Warning)
    } else if str_eq(s, "error") {
        Some(LogLevel::Error)
    } else if str_eq(s, "debug") {
        Some(LogLevel::Debug)
    } else if str_eq(s, "silent") {
        Some(LogLevel::Silent)
    } else {
        None
    }
}

/// The daemon's name for `l`, as a string.
pub fn log_level_name(l: LogLevel) -> (r: String)
    ensures
        r@ == spec_log_level_name(l),
{
    match l {
        LogLevel::Info => String::from_str("info"),
        LogLevel::Warning => String::from_str("warning"),
        LogLevel::Error => String::from_str("error"),
        LogLevel::Debug => String::from_str("debug"),
        LogLevel::Silent => String::from_str("silent"),
    }
}

/// The mode after the user cycles: rule, global, direct, and back.
pub open spec fn spec_cycled_mode(m: Mode) -> Mode {
    match m {
        Mode::Rule => Mode::Global,
        Mode::Global => Mode::Direct,
        Mode::Direct => Mode::Rule,
    }
}

/// The log level after the user cycles:
/// info, warning, error, debug, silent, and back.
pub open spec fn spec_cycled_log_level(l: LogLevel) -> LogLevel {
    match l {
        LogLevel::Info => LogLevel::Warning,
        LogLevel::Warning => LogLevel::Error,
        LogLevel::Error => LogLevel::Debug,
        LogLevel::Debug => LogLevel::Silent,
        LogLevel::Silent => LogLevel::Info,
    }
}

/// The next mode when the user cycles: rule, global, direct, and back.
pub fn next_mode(m: Mode) -> (r: Mode)
    ensures
        r == spec_cycled_mode(m),
{
    match m {
        Mode::Rule => Mode::Global,
        Mode::Global => Mode::Direct,
        Mode::Direct => Mode::Rule,
    }
}

/// The next log level when the user cycles:
/// info, warning, error, debug, silent, and back.
pub fn next_log_level(l: LogLevel) -> (r: LogLevel)
    ensures
        r == spec_cycled_log_level(l),
{
    match l {
        LogLevel::Info => LogLevel::Warning,
        LogLevel::Warning => LogLevel::Error,
        LogLevel::Error => LogLevel::Debug,
        LogLevel::Debug => LogLevel::Silent,
        LogLevel::Silent => LogLevel::Info,
    }
}

/// An optional string field: missing or null is an absent value, a
/// string is a present one, any other type is a wire error (the outer
/// `None`).
pub open spec fn spec_opt_str_field(fields: Seq<(String, JsonValue)>, key: Seq<char>) -> Option<
    Option<String>,
> {
    match spec_get(fields, key) {
        None => Some(None),
        Some(JsonValue::Null) => Some(None),
        Some(JsonValue::Str(s)) => Some(Some(s)),
        Some(_) => None,
    }
}

/// Fetch an optional string field.
pub fn opt_str_field(fields: &Vec<(String, JsonValue)>, key: &str) -> (r: Option<Option<String>>)
    ensures
        r == spec_opt_str_field(fields@, key@),
{
    match obj_get(fields, key) {
        None => Some(None),
        Some(JsonValue::Null) => Some(None),
        Some(JsonValue::Str(s)) => Some(Some(s.clone())),
        Some(_) => None,
    }
}

/// The TUN object carried by `v`, if `v` is one: `enable` is required,
/// `stack` and `device` are optional strings.
pub open spec fn spec_parse_tun(v: JsonValue) -> Option<Tun> {
    match v {
        JsonValue::Obj(f) => match (
            spec_bool_field(f@, "enable"@),
            spec_opt_str_field(f@, "stack"@),
            spec_opt_str_field(f@, "device"@),
        ) {
            (Some(enable), Some(stack), Some(device)) => Some(Tun { enable, stack, device }),
            _ => None,
        },
        _ => None,
    }
}

/// Parse a TUN object.
pub fn parse_tun(v: &JsonValue) -> (r: Option<Tun>)
    ensures
        r == spec_parse_tun(*v),
{
    match v {
        JsonValue::Obj(f) => {
            let enable = bool_field(f, "enable");
            let stack = opt_str_field(f, "stack");
            let device = opt_str_field(f, "device");
            match (enable, stack, device) {
                (Some(enable), Some(stack), Some(device)) => Some(
                    Tun { enable, stack, device },
                ),
                _ => None,
            }
        },
        _ => None,
    }
}

/// The configuration snapshot carried by an object's fields, if they
/// carry one: every field is required under the daemon's native name,
/// the port must fit 16 bits, and the mode and log-level strings must
/// name known variants.
pub open spec fn spec_parse_config_fields(fs: Seq<(String, JsonValue)>) -> Option<Config> {
    match (
        spec_str_field(fs, "mode"@),
        spec_get(fs, "tun"@),
        spec_num_field(fs, "mixed-port"@),
        spec_str_field(fs, "log-level"@),
        spec_bool_field(fs, "allow-lan"@),
        spec_str_field(fs, "bind-address"@),
        spec_bool_field(fs, "ipv6"@),
    ) {
        (
            Some(mode_s),
            Some(tun_v),
            Some(port),
            Some(level_s),
            Some(allow_lan),
            Some(bind_address),
            Some(ipv6),
        ) => match (spec_mode_of(mode_s@), spec_parse_tun(tun_v), spec_log_level_of(level_s@)) {
            (Some(mode), Some(tun), Some(log_level)) => if port <= 0xffff {
                Some(
                    Config {
                        mode,
                        tun,
                        mixed_port: port as u16,
                        log_level,
                        allow_lan,
                        bind_address,
                        ipv6,
                    },
                )
            } else {
                None
            },
            _ => None,
        },
        _ => None,
    }
}

/// The configuration snapshot carried by `v`, if `v` carries one.
pub open spec fn spec_parse_config(v: JsonValue) -> Option<Config> {
    match v {
        JsonValue::Obj(f) => spec_parse_config_fields(f@),
        _ => None,
    }
}

/// Parse a configuration snapshot from the daemon's wire format.
pub fn parse_config(v: &JsonValue) -> (r: Option<Config>)
    ensures
        r == spec_parse_config(*v),
{
    match v {
        JsonValue::Obj(f) => {
            let mode_s = str_field(f, "mode");
            let tun_v = obj_get(f, "tun");
            let port = num_field(f, "mixed-port");
            let level_s = str_field(f, "log-level");
            let allow_lan = bool_field(f, "allow-lan");
            let bind_address = str_field(f, "bind-address");
            let ipv6 = bool_field(f, "ipv6");
            match (mode_s, tun_v, port, level_s, allow_lan, bind_address, ipv6) {
                (
                    Some(mode_s),
                    Some(tun_v),
                    Some(port),
                    Some(level_s),
                    Some(allow_lan),
                    Some(bind_address),
                    Some(ipv6),
                ) => {
                    let mode = mode_of(&mode_s);
                    let tun = parse_tun(tun_v);
                    let log_level = log_level_of(&level_s);
                    match (mode, tun, log_level) {
                        (Some(mode), Some(tun), Some(log_level)) => if port <= 0xffff {
                            Some(
                                Config {
                                    mode,
                                    tun,
                                    mixed_port: port as u16,
                                    log_level,
                                    allow_lan,
                                    bind_address,
                                    ipv6,
                                },
                            )
                        } else {
                            None
                        },
                        _ => None,
                    }
                },
                _ => None,
            }
        },
        _ => None,
    }
}

/// One field change to send to the daemon: the closed set of editable
/// fields, so that every edit path is checked for completeness.
#[derive(Clone, Debug, PartialEq)]
pub enum ConfigPatch {
    Mode(Mode),
    TunEnable(bool),
    MixedPort(u16),
    LogLevel(LogLevel),
    AllowLan(bool),
    BindAddress(String),
    Ipv6(bool),
}

/// Whether `body` is the wire body of `p`: a single field under the
/// daemon's native name, holding the patched value.
pub open spec fn spec_patch_body(p: ConfigPatch, body: JsonValue) -> bool {
    match body {
        JsonValue::Obj(f) => {
            let fs = f@;
            fs.len() == 1 && match p {
                ConfigPatch::Mode(m) => fs[0].0@ == "mode"@ && match fs[0].1 {
                    JsonValue::Str(s) => s@ == spec_mode_name(m),
                    _ => false,
                },
                ConfigPatch::TunEnable(b) => fs[0].0@ == "tun"@ && match fs[0].1 {
                    JsonValue::Obj(inner) => {
                        let ifs = inner@;
                        ifs.len() == 1 && ifs[0].0@ == "enable"@ && ifs[0].1 == JsonValue::Bool(b)
                    },
                    _ => false,
                },
                ConfigPatch::MixedPort(port) => fs[0].0@ == "mixed-port"@ && fs[0].1
                    == JsonValue::Num(port as u64),
                ConfigPatch::LogLevel(l) => fs[0].0@ == "log-level"@ && match fs[0].1 {
                    JsonValue::Str(s) => s@ == spec_log_level_name(l),
                    _ => false,
                },
                ConfigPatch::AllowLan(b) => fs[0].0@ == "allow-lan"@ && fs[0].1
                    == JsonValue::Bool(b),
                ConfigPatch::BindAddress(a) => fs[0].0@ == "bind-address"@ && fs[0].1
                    == JsonValue::Str(a),
                ConfigPatch::Ipv6(b) => fs[0].0@ == "ipv6"@ && fs[0].1 == JsonValue::Bool(b),
            }
        },
        _ => false,
    }
}

/// Build the wire body for one patch.
pub fn patch_body(p: ConfigPatch) -> (body: JsonValue)
    ensures
        spec_patch_body(p, body),
{
    match p {
        ConfigPatch::Mode(m) => {
            let mut fields: Vec<(String, JsonValue)> = Vec::new();
            fields.push((String::from_str("mode"), JsonValue::Str(mode_name(m))));
            JsonValue::Obj(fields)
        },
        ConfigPatch::TunEnable(b) => {
            let mut inner: Vec<(String, JsonValue)> = Vec::new();
            inner.push((String::from_str("enable"), JsonValue::Bool(b)));
            let mut fields: Vec<(String, JsonValue)> = Vec::new();
            fields.push((String::from_str("tun"), JsonValue::Obj(inner)));
            JsonValue::Obj(fields)
        },
        ConfigPatch::MixedPort(port) => {
            let mut fields: Vec<(String, JsonValue)> = Vec::new();
            fields.push((String::from_str("mixed-port"), JsonValue::Num(port as u64)));
            JsonValue::Obj(fields)
        },
        ConfigPatch::LogLevel(l) => {
            let mut fields: Vec<(String, JsonValue)> = Vec::new();
            fields.push((String::from_str("log-level"), JsonValue::Str(log_level_name(l))));
            JsonValue::Obj(fields)
        },
        ConfigPatch::AllowLan(b) => {
            let mut fields: Vec<(String, JsonValue)> = Vec::new();
            fields.push((String::from_str("allow-lan"), JsonValue::Bool(b)));
            JsonValue::Obj(fields)
        },
        ConfigPatch::BindAddress(a) => {
            let mut fields: Vec<(String, JsonValue)> = Vec::new();
            fields.push((String::from_str("bind-address"), JsonValue::Str(a)));
            JsonValue::Obj(fields)
        },
        ConfigPatch::Ipv6(b) => {
            let mut fields: Vec<(String, JsonValue)> = Vec::new();
            fields.push((String::from_str("ipv6"), JsonValue::Bool(b)));
            JsonValue::Obj(fields)
        },
    }
}

} // verus!
