use mihomot::{
    json_to_string, log_level_name, log_level_of, mode_name, mode_of, next_log_level, next_mode, parse_config,
    patch_body, ConfigPatch, JsonValue, LogLevel, Mode,
};

fn obj(fields: Vec<(&str, JsonValue)>) -> JsonValue {
    JsonValue::Obj(
        fields
            .into_iter()
            .map(|(k, v)| (k.to_string(), v))
            .collect(),
    )
}

fn s(v: &str) -> JsonValue {
    JsonValue::Str(v.to_string())
}

fn config_body() -> JsonValue {
    obj(vec![
        ("mode", s("rule")),
        (
            "tun",
            obj(vec![
                ("enable", JsonValue::Bool(true)),
                ("stack", s("gvisor")),
                ("device", JsonValue::Null),
            ]),
        ),
        ("mixed-port", JsonValue::Num(7890)),
        ("log-level", s("warning")),
        ("allow-lan", JsonValue::Bool(false)),
        ("bind-address", s("*")),
        ("ipv6", JsonValue::Bool(true)),
    ])
}

#[test]
fn full_config_parses_field_by_field() {
    let c = parse_config(&config_body()).expect("config should parse");
    assert_eq!(c.mode, Mode::Rule);
    assert!(c.tun.enable);
    assert_eq!(c.tun.stack.as_deref(), Some("gvisor"));
    assert_eq!(c.tun.device, None);
    assert_eq!(c.mixed_port, 7890);
    assert_eq!(c.log_level, LogLevel::Warning);
    assert!(!c.allow_lan);
    assert_eq!(c.bind_address, "*");
    assert!(c.ipv6);
}

#[test]
fn missing_field_rejects_config() {
    let body = obj(vec![("mode", s("rule"))]);
    assert!(parse_config(&body).is_none());
}

#[test]
fn unknown_mode_rejects_config() {
    let mut fields = match config_body() {
        JsonValue::Obj(f) => f,
        _ => unreachable!(),
    };
    fields[0].1 = s("script");
    assert!(parse_config(&JsonValue::Obj(fields)).is_none());
}

#[test]
fn oversized_port_rejects_config() {
    let mut fields = match config_body() {
        JsonValue::Obj(f) => f,
        _ => unreachable!(),
    };
    fields[2].1 = JsonValue::Num(70000);
    assert!(parse_config(&JsonValue::Obj(fields)).is_none());
}

#[test]
fn unknown_log_level_rejects_config() {
    let mut fields = match config_body() {
        JsonValue::Obj(f) => f,
        _ => unreachable!(),
    };
    fields[3].1 = s("verbose");
    assert!(parse_config(&JsonValue::Obj(fields)).is_none());
}

#[test]
fn mode_names_round_trip() {
    for m in [Mode::Rule, Mode::Global, Mode::Direct] {
        assert_eq!(mode_of(&mode_name(m)), Some(m));
    }
    assert_eq!(mode_of(&"tunnel".to_string()), None);
}

#[test]
fn log_level_names_round_trip() {
    for l in [
        LogLevel::Info,
        LogLevel::Warning,
        LogLevel::Error,
        LogLevel::Debug,
        LogLevel::Silent,
    ] {
        assert_eq!(log_level_of(&log_level_name(l)), Some(l));
    }
    assert_eq!(log_level_of(&"chatty".to_string()), None);
}

#[test]
fn mode_cycle_visits_all_modes_and_returns() {
    assert_eq!(next_mode(Mode::Rule), Mode::Global);
    assert_eq!(next_mode(Mode::Global), Mode::Direct);
    assert_eq!(next_mode(Mode::Direct), Mode::Rule);
}

#[test]
fn log_level_cycle_visits_all_levels_and_returns() {
    assert_eq!(next_log_level(LogLevel::Info), LogLevel::Warning);
    assert_eq!(next_log_level(LogLevel::Warning), LogLevel::Error);
    assert_eq!(next_log_level(LogLevel::Error), LogLevel::Debug);
    assert_eq!(next_log_level(LogLevel::Debug), LogLevel::Silent);
    assert_eq!(next_log_level(LogLevel::Silent), LogLevel::Info);
}

fn single_field(body: JsonValue) -> (String, JsonValue) {
    match body {
        JsonValue::Obj(mut fields) => {
            assert_eq!(fields.len(), 1);
            fields.pop().unwrap()
        }
        _ => panic!("patch body should be an object"),
    }
}

#[test]
fn mode_patch_uses_native_field_name() {
    let (key, value) = single_field(patch_body(ConfigPatch::Mode(Mode::Global)));
    assert_eq!(key, "mode");
    match value {
        JsonValue::Str(v) => assert_eq!(v, "global"),
        _ => panic!("mode patch should carry a string"),
    }
}

#[test]
fn tun_patch_nests_the_enable_flag() {
    let (key, value) = single_field(patch_body(ConfigPatch::TunEnable(true)));
    assert_eq!(key, "tun");
    let (inner_key, inner_value) = single_field(value);
    assert_eq!(inner_key, "enable");
    match inner_value {
        JsonValue::Bool(b) => assert!(b),
        _ => panic!("enable should be a boolean"),
    }
}

#[test]
fn port_patch_carries_the_number() {
    let (key, value) = single_field(patch_body(ConfigPatch::MixedPort(7891)));
    assert_eq!(key, "mixed-port");
    match value {
        JsonValue::Num(n) => assert_eq!(n, 7891),
        _ => panic!("port should be a number"),
    }
}

#[test]
fn bind_address_patch_carries_the_string() {
    let (key, value) = single_field(patch_body(ConfigPatch::BindAddress("127.0.0.1".to_string())));
    assert_eq!(key, "bind-address");
    match value {
        JsonValue::Str(v) => assert_eq!(v, "127.0.0.1"),
        _ => panic!("bind address should be a string"),
    }
}

#[test]
fn boolean_patches_carry_their_flags() {
    let (key, value) = single_field(patch_body(ConfigPatch::AllowLan(true)));
    assert_eq!(key, "allow-lan");
    assert!(matches!(value, JsonValue::Bool(true)));
    let (key6, value6) = single_field(patch_body(ConfigPatch::Ipv6(false)));
    assert_eq!(key6, "ipv6");
    assert!(matches!(value6, JsonValue::Bool(false)));
    let (keyl, valuel) = single_field(patch_body(ConfigPatch::LogLevel(LogLevel::Silent)));
    assert_eq!(keyl, "log-level");
    match valuel {
        JsonValue::Str(v) => assert_eq!(v, "silent"),
        _ => panic!("log level should be a string"),
    }
}

#[test]
fn json_rendering_matches_the_wire_format() {
    let body = patch_body(ConfigPatch::Mode(Mode::Global));
    assert_eq!(json_to_string(&body), "{\"mode\":\"global\"}");
    let tun = patch_body(ConfigPatch::TunEnable(true));
    assert_eq!(json_to_string(&tun), "{\"tun\":{\"enable\":true}}");
    let port = patch_body(ConfigPatch::MixedPort(7890));
    assert_eq!(json_to_string(&port), "{\"mixed-port\":7890}");
}

#[test]
fn json_rendering_escapes_strings() {
    let body = patch_body(ConfigPatch::BindAddress("a\"b\\c\nd".to_string()));
    assert_eq!(
        json_to_string(&body),
        "{\"bind-address\":\"a\\\"b\\\\c\\nd\"}"
    );
    let parsed: serde_json::Value = serde_json::from_str(&json_to_string(&body)).unwrap();
    assert_eq!(parsed["bind-address"], "a\"b\\c\nd");
}

#[test]
fn json_rendering_round_trips_through_a_parser() {
    let body = patch_body(ConfigPatch::LogLevel(LogLevel::Silent));
    let parsed: serde_json::Value = serde_json::from_str(&json_to_string(&body)).unwrap();
    let expected: serde_json::Value =
        serde_json::from_str("{ \"log-level\": \"silent\" }").unwrap();
    assert_eq!(parsed, expected);
}
