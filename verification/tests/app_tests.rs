use mihomot::{
    classify, fetch_error_message, App, AppSettings, Classification, ConfigEntry, ConfigPatch,
    EditAction, FetchError, JsonValue, LatencyStatus, Mode, ProbeError,
};

fn aobj(fields: Vec<(&str, JsonValue)>) -> JsonValue {
    JsonValue::Obj(
        fields
            .into_iter()
            .map(|(k, v)| (k.to_string(), v))
            .collect(),
    )
}

fn astr(v: &str) -> JsonValue {
    JsonValue::Str(v.to_string())
}

fn agroup(name: &str, kind: &str, now: &str, members: Vec<&str>) -> JsonValue {
    aobj(vec![
        ("name", astr(name)),
        ("type", astr(kind)),
        ("now", astr(now)),
        ("all", JsonValue::Arr(members.into_iter().map(astr).collect())),
    ])
}

fn aconfig_body(mode: &str, port: u64) -> JsonValue {
    aobj(vec![
        ("mode", astr(mode)),
        ("tun", aobj(vec![("enable", JsonValue::Bool(false))])),
        ("mixed-port", JsonValue::Num(port)),
        ("log-level", astr("info")),
        ("allow-lan", JsonValue::Bool(false)),
        ("bind-address", astr("*")),
        ("ipv6", JsonValue::Bool(false)),
    ])
}

fn app_with_groups() -> App {
    let mut app = App::new(AppSettings::default());
    let body = aobj(vec![(
        "proxies",
        aobj(vec![
            ("One", agroup("One", "Selector", "A", vec!["A", "B", "C"])),
            ("Two", agroup("Two", "Selector", "X", vec!["X", "Y"])),
            ("DIRECT", aobj(vec![("name", astr("DIRECT")), ("type", astr("Direct"))])),
        ]),
    )]);
    app.apply_proxies_outcome(Ok(body));
    app
}

#[test]
fn fresh_app_is_empty_and_pending() {
    let app = App::new(AppSettings::default());
    assert!(app.config.is_none());
    assert_eq!(app.latency.status, LatencyStatus::Pending);
    assert!(app.proxies.is_empty());
    assert!(app.group_names.is_empty());
    assert!(app.error.is_none());
    assert_eq!(app.settings_items.len(), 11);
}

#[test]
fn proxies_fetch_builds_group_list_and_clears_error() {
    let mut app = app_with_groups();
    app.error = Some("old".to_string());
    let body = aobj(vec![(
        "proxies",
        aobj(vec![("Solo", agroup("Solo", "Selector", "A", vec!["A"]))]),
    )]);
    app.apply_proxies_outcome(Ok(body));
    assert_eq!(app.group_names, vec!["Solo".to_string()]);
    assert!(app.error.is_none());
}

#[test]
fn failed_proxies_fetch_keeps_data_and_records_error() {
    let mut app = app_with_groups();
    let before = app.group_names.clone();
    app.apply_proxies_outcome(Err(FetchError::HttpStatus(502)));
    assert_eq!(app.group_names, before);
    assert_eq!(app.error.as_deref(), Some("Server returned error: 502"));

    app.apply_proxies_outcome(Ok(JsonValue::Num(3)));
    assert_eq!(app.group_names, before);
    assert_eq!(app.error.as_deref(), Some("Failed to parse JSON"));
}

#[test]
fn group_list_is_sorted_for_display() {
    let mut app = App::new(AppSettings::default());
    let body = aobj(vec![(
        "proxies",
        aobj(vec![
            ("Zebra", agroup("Zebra", "Selector", "A", vec!["A"])),
            ("Alpha", agroup("Alpha", "Selector", "B", vec!["B"])),
            ("Mid", agroup("Mid", "Selector", "C", vec!["C"])),
        ]),
    )]);
    app.apply_proxies_outcome(Ok(body));
    assert_eq!(
        app.group_names,
        vec!["Alpha".to_string(), "Mid".to_string(), "Zebra".to_string()]
    );
}

#[test]
fn fetch_error_lines_are_classified() {
    assert_eq!(fetch_error_message(&FetchError::Connect), "Failed to connect");
    assert_eq!(fetch_error_message(&FetchError::Timeout), "Request timed out");
    assert_eq!(
        fetch_error_message(&FetchError::HttpStatus(404)),
        "Server returned error: 404"
    );
    assert_eq!(
        fetch_error_message(&FetchError::Deserialize),
        "Failed to parse JSON"
    );
}

#[test]
fn group_navigation_wraps_and_resets_member_selection() {
    let mut app = app_with_groups();
    assert_eq!(app.group_names.len(), 2);
    assert_eq!(app.group_sel, 0);
    app.next_proxy();
    assert_eq!(app.proxy_sel, 1);
    app.next_group();
    assert_eq!(app.group_sel, 1);
    assert_eq!(app.proxy_sel, 0);
    app.next_group();
    assert_eq!(app.group_sel, 0);
    app.previous_group();
    assert_eq!(app.group_sel, 1);
}

#[test]
fn group_navigation_on_empty_list_stays_put() {
    let mut app = App::new(AppSettings::default());
    app.next_group();
    assert_eq!(app.group_sel, 0);
    app.previous_group();
    assert_eq!(app.group_sel, 0);
}

#[test]
fn member_navigation_wraps_within_the_selected_group() {
    let mut app = app_with_groups();
    app.next_proxy();
    app.next_proxy();
    assert_eq!(app.proxy_sel, 2);
    app.next_proxy();
    assert_eq!(app.proxy_sel, 0);
    app.previous_proxy();
    assert_eq!(app.proxy_sel, 2);
}

#[test]
fn selected_names_follow_the_selection() {
    let mut app = app_with_groups();
    assert_eq!(app.get_selected_group_name(), Some(&"One".to_string()));
    assert_eq!(app.get_selected_proxy_name(), Some("A".to_string()));
    app.next_proxy();
    assert_eq!(app.get_selected_proxy_name(), Some("B".to_string()));
    app.next_group();
    assert_eq!(app.get_selected_group_name(), Some(&"Two".to_string()));
    assert_eq!(app.get_selected_proxy_name(), Some("X".to_string()));
}

#[test]
fn select_proxy_request_names_group_and_member() {
    let mut app = app_with_groups();
    app.next_proxy();
    assert_eq!(
        app.select_proxy_request(),
        Some(("One".to_string(), "B".to_string()))
    );
    let empty = App::new(AppSettings::default());
    assert_eq!(empty.select_proxy_request(), None);
}

#[test]
fn settings_navigation_wraps_both_ways() {
    let mut app = App::new(AppSettings::default());
    app.previous_setting();
    assert_eq!(app.settings_sel, 10);
    app.next_setting();
    assert_eq!(app.settings_sel, 0);
}

#[test]
fn popup_scroll_saturates_at_zero() {
    let mut app = App::new(AppSettings::default());
    app.scroll_popup_up();
    assert_eq!(app.popup_scroll, 0);
    app.scroll_popup_down();
    app.scroll_popup_down();
    assert_eq!(app.popup_scroll, 2);
    app.scroll_popup_up();
    assert_eq!(app.popup_scroll, 1);
}

#[test]
fn latency_trigger_hands_out_test_parameters() {
    let mut app = App::new(AppSettings {
        base_url: "http://127.0.0.1:9090".to_string(),
        api_secret: String::new(),
        test_url: "https://probe.example".to_string(),
        test_timeout: 1234,
    });
    let req = app.trigger_latency_test();
    assert_eq!(req.generation, 1);
    assert_eq!(req.url, "https://probe.example");
    assert_eq!(req.timeout_ms, 1234);
    assert_eq!(app.latency.status, LatencyStatus::Testing);
}

#[test]
fn stale_app_latency_result_is_dropped() {
    let mut app = App::new(AppSettings::default());
    let first = app.trigger_latency_test();
    let second = app.trigger_latency_test();
    app.apply_latency_result(first.generation, LatencyStatus::Success(9));
    assert_eq!(app.latency.status, LatencyStatus::Testing);
    app.apply_latency_result(second.generation, LatencyStatus::Success(31));
    assert_eq!(app.latency.status, LatencyStatus::Success(31));
}

#[test]
fn fanout_marks_every_member_testing() {
    let mut app = app_with_groups();
    let req = app.trigger_group_latency_test().expect("group has members");
    assert_eq!(req.generation, 1);
    assert_eq!(
        req.members,
        vec!["A".to_string(), "B".to_string(), "C".to_string()]
    );
    assert_eq!(app.group_probe.results.len(), 3);
    for (_, status) in &app.group_probe.results {
        assert_eq!(*status, LatencyStatus::Testing);
    }
}

#[test]
fn fanout_without_a_group_does_nothing() {
    let mut app = App::new(AppSettings::default());
    assert!(app.trigger_group_latency_test().is_none());
    assert_eq!(app.group_probe.generation, 0);
}

#[test]
fn fanout_scenario_isolates_failures() {
    let mut app = App::new(AppSettings::default());
    let body = aobj(vec![(
        "proxies",
        aobj(vec![(
            "G",
            agroup("G", "Selector", "A", vec!["A", "B", "C"]),
        )]),
    )]);
    app.apply_proxies_outcome(Ok(body));
    let req = app.trigger_group_latency_test().expect("group has members");
    let g = req.generation;
    app.apply_member_result(g, &"A".to_string(), LatencyStatus::Success(50));
    app.apply_member_result(g, &"B".to_string(), LatencyStatus::Failed(ProbeError::Timeout));
    app.apply_member_result(g, &"C".to_string(), LatencyStatus::Success(600));
    assert_eq!(app.group_probe.results[0], ("A".to_string(), LatencyStatus::Success(50)));
    assert_eq!(
        app.group_probe.results[1],
        ("B".to_string(), LatencyStatus::Failed(ProbeError::Timeout))
    );
    assert_eq!(app.group_probe.results[2], ("C".to_string(), LatencyStatus::Success(600)));
    assert_eq!(classify(50), Classification::Good);
    assert_eq!(classify(600), Classification::Bad);
}

#[test]
fn stale_fanout_result_is_dropped() {
    let mut app = app_with_groups();
    let first = app.trigger_group_latency_test().expect("members");
    let second = app.trigger_group_latency_test().expect("members");
    app.apply_member_result(first.generation, &"A".to_string(), LatencyStatus::Success(1));
    assert_eq!(app.group_probe.results[0].1, LatencyStatus::Testing);
    app.apply_member_result(second.generation, &"A".to_string(), LatencyStatus::Success(2));
    assert_eq!(app.group_probe.results[0].1, LatencyStatus::Success(2));
}

#[test]
fn config_fetch_replaces_snapshot_wholesale() {
    let mut app = App::new(AppSettings::default());
    app.apply_config_outcome(Ok(aconfig_body("rule", 7890)));
    let c = app.config.clone().expect("config loaded");
    assert_eq!(c.mode, Mode::Rule);
    assert_eq!(c.mixed_port, 7890);
}

#[test]
fn failed_config_fetch_keeps_previous_snapshot() {
    let mut app = App::new(AppSettings::default());
    app.apply_config_outcome(Ok(aconfig_body("rule", 7890)));
    app.apply_config_outcome(Err(FetchError::Connect));
    assert_eq!(app.config.as_ref().unwrap().mixed_port, 7890);
    app.apply_config_outcome(Ok(JsonValue::Null));
    assert_eq!(app.config.as_ref().unwrap().mixed_port, 7890);
    let empty = {
        let mut a = App::new(AppSettings::default());
        a.apply_config_outcome(Err(FetchError::Timeout));
        a
    };
    assert!(empty.config.is_none());
}

#[test]
fn failed_config_fetch_records_classified_error() {
    let mut app = App::new(AppSettings::default());
    app.apply_config_outcome(Err(FetchError::Timeout));
    assert_eq!(app.error.as_deref(), Some("Request timed out"));
    app.apply_config_outcome(Err(FetchError::HttpStatus(503)));
    assert_eq!(app.error.as_deref(), Some("Server returned error: 503"));
    app.apply_config_outcome(Ok(JsonValue::Null));
    assert_eq!(app.error.as_deref(), Some("Failed to parse JSON"));
    // A successful fetch clears the line again.
    app.apply_config_outcome(Ok(aconfig_body("rule", 7890)));
    assert!(app.error.is_none());
}

#[test]
fn patch_never_touches_the_snapshot_only_the_refetch_does() {
    let mut app = App::new(AppSettings::default());
    app.apply_config_outcome(Ok(aconfig_body("rule", 7890)));
    let before = app.config.clone();

    // The user cycles the mode: a patch is produced, the snapshot stays.
    let patch = app.handle_setting_change(ConfigEntry::Mode);
    assert_eq!(patch, Some(ConfigPatch::Mode(Mode::Global)));
    assert_eq!(app.config, before);

    // Only the mandatory refetch replaces it, with what the daemon says
    // it accepted (here it clamped the mode to direct).
    app.apply_config_outcome(Ok(aconfig_body("direct", 7890)));
    assert_eq!(app.config.as_ref().unwrap().mode, Mode::Direct);
}

#[test]
fn setting_change_without_snapshot_does_nothing() {
    let app = App::new(AppSettings::default());
    assert_eq!(app.handle_setting_change(ConfigEntry::Mode), None);
    assert_eq!(app.handle_setting_change(ConfigEntry::Tun), None);
}

#[test]
fn toggles_flip_the_confirmed_values() {
    let mut app = App::new(AppSettings::default());
    app.apply_config_outcome(Ok(aconfig_body("rule", 7890)));
    assert_eq!(
        app.handle_setting_change(ConfigEntry::Tun),
        Some(ConfigPatch::TunEnable(true))
    );
    assert_eq!(
        app.handle_setting_change(ConfigEntry::AllowLan),
        Some(ConfigPatch::AllowLan(true))
    );
    assert_eq!(
        app.handle_setting_change(ConfigEntry::Ipv6),
        Some(ConfigPatch::Ipv6(true))
    );
    assert_eq!(app.handle_setting_change(ConfigEntry::BaseUrl), None);
}

#[test]
fn begin_edit_prefills_from_the_edited_value() {
    let mut app = App::new(AppSettings::default());
    app.apply_config_outcome(Ok(aconfig_body("rule", 7890)));
    app.settings_sel = 6; // the mixed-port row
    assert!(app.begin_edit());
    assert!(app.is_editing);
    assert_eq!(app.editing_value, "7890");

    app.settings_sel = 0; // the base-URL row
    assert!(app.begin_edit());
    assert_eq!(app.editing_value, "http://127.0.0.1:9090");

    app.settings_sel = 4; // the mode row cycles instead of editing
    assert!(!app.begin_edit());
}

#[test]
fn typing_edits_the_buffer() {
    let mut app = App::new(AppSettings::default());
    app.settings_sel = 3; // the test-timeout row
    assert!(app.begin_edit());
    assert_eq!(app.editing_value, "3000");
    app.edit_pop();
    assert_eq!(app.editing_value, "300");
    app.edit_push('5');
    assert_eq!(app.editing_value, "3005");
    app.cancel_edit();
    assert!(!app.is_editing);
}

#[test]
fn committing_a_port_edit_yields_a_patch() {
    let mut app = App::new(AppSettings::default());
    app.apply_config_outcome(Ok(aconfig_body("rule", 7890)));
    app.settings_sel = 6;
    assert!(app.begin_edit());
    app.edit_pop();
    let action = app.commit_edit();
    assert_eq!(action, EditAction::Patch(ConfigPatch::MixedPort(789)));
    assert!(!app.is_editing);
    // The snapshot still shows the confirmed value.
    assert_eq!(app.config.as_ref().unwrap().mixed_port, 7890);
}

#[test]
fn committing_an_invalid_port_does_nothing() {
    let mut app = App::new(AppSettings::default());
    app.apply_config_outcome(Ok(aconfig_body("rule", 7890)));
    app.settings_sel = 6;
    assert!(app.begin_edit());
    app.edit_push('x');
    assert_eq!(app.commit_edit(), EditAction::Nothing);
}

#[test]
fn committing_a_base_url_edit_updates_local_settings() {
    let mut app = App::new(AppSettings::default());
    app.settings_sel = 0;
    assert!(app.begin_edit());
    app.edit_push('0');
    let action = app.commit_edit();
    assert_eq!(action, EditAction::SaveSettingsAndRefetch);
    assert_eq!(app.app_settings.base_url, "http://127.0.0.1:90900");
}

#[test]
fn committing_a_timeout_edit_updates_local_settings() {
    let mut app = App::new(AppSettings::default());
    app.settings_sel = 3;
    assert!(app.begin_edit());
    app.edit_pop();
    assert_eq!(app.commit_edit(), EditAction::SaveSettings);
    assert_eq!(app.app_settings.test_timeout, 300);
}

#[test]
fn traffic_reports_update_the_monitor() {
    let mut app = App::new(AppSettings::default());
    app.on_traffic(mihomot::TrafficSample { down: 2048, up: 512 });
    assert_eq!(app.traffic.current_down, 2048);
    assert_eq!(app.traffic.current_up, 512);
    assert_eq!(app.traffic.down.len(), 1);
    assert_eq!(mihomot::format_speed(app.traffic.current_down), "2.0 KB");
}

#[test]
fn committed_timeout_feeds_the_next_probe() {
    let mut app = App::new(AppSettings::default());
    app.settings_sel = 3;
    assert!(app.begin_edit());
    app.edit_pop();
    app.edit_pop();
    assert_eq!(app.commit_edit(), EditAction::SaveSettings);
    let req = app.trigger_latency_test();
    assert_eq!(req.timeout_ms, 30);
}
