use mihomot::{parse_delay, parse_item, parse_proxies, selector_names, sort_names, JsonValue};

fn pobj(fields: Vec<(&str, JsonValue)>) -> JsonValue {
    JsonValue::Obj(
        fields
            .into_iter()
            .map(|(k, v)| (k.to_string(), v))
            .collect(),
    )
}

fn pstr(v: &str) -> JsonValue {
    JsonValue::Str(v.to_string())
}

fn group(name: &str, kind: &str, now: &str, members: Vec<&str>) -> JsonValue {
    pobj(vec![
        ("name", pstr(name)),
        ("type", pstr(kind)),
        ("now", pstr(now)),
        (
            "all",
            JsonValue::Arr(members.into_iter().map(pstr).collect()),
        ),
    ])
}

#[test]
fn item_parses_all_fields() {
    let item = parse_item(&group("Auto", "Selector", "A", vec!["A", "B"])).expect("item parses");
    assert_eq!(item.name.as_deref(), Some("Auto"));
    assert_eq!(item.proxy_type.as_deref(), Some("Selector"));
    assert_eq!(item.now.as_deref(), Some("A"));
    assert_eq!(
        item.all,
        Some(vec!["A".to_string(), "B".to_string()])
    );
}

#[test]
fn item_fields_may_be_absent() {
    let item = parse_item(&pobj(vec![])).expect("empty object parses");
    assert_eq!(item.name, None);
    assert_eq!(item.proxy_type, None);
    assert_eq!(item.now, None);
    assert_eq!(item.all, None);
}

#[test]
fn item_with_non_string_member_is_rejected() {
    let bad = pobj(vec![(
        "all",
        JsonValue::Arr(vec![pstr("A"), JsonValue::Num(3)]),
    )]);
    assert!(parse_item(&bad).is_none());
}

#[test]
fn item_with_wrongly_typed_name_is_rejected() {
    let bad = pobj(vec![("name", JsonValue::Num(1))]);
    assert!(parse_item(&bad).is_none());
}

#[test]
fn response_parses_every_entry_in_order() {
    let body = pobj(vec![(
        "proxies",
        pobj(vec![
            ("Auto", group("Auto", "Selector", "A", vec!["A", "B"])),
            ("DIRECT", pobj(vec![("name", pstr("DIRECT")), ("type", pstr("Direct"))])),
        ]),
    )]);
    let ps = parse_proxies(&body).expect("response parses").proxies;
    assert_eq!(ps.len(), 2);
    assert_eq!(ps[0].0, "Auto");
    assert_eq!(ps[0].1.proxy_type.as_deref(), Some("Selector"));
    assert_eq!(ps[1].0, "DIRECT");
    assert_eq!(ps[1].1.all, None);
}

#[test]
fn response_without_proxies_key_is_rejected() {
    assert!(parse_proxies(&pobj(vec![])).is_none());
}

#[test]
fn response_with_one_bad_entry_yields_no_partial_map() {
    let body = pobj(vec![(
        "proxies",
        pobj(vec![
            ("Good", group("Good", "Selector", "A", vec!["A"])),
            ("Bad", pobj(vec![("now", JsonValue::Num(9))])),
        ]),
    )]);
    assert!(parse_proxies(&body).is_none());
}

#[test]
fn selector_names_keep_response_order_and_skip_others() {
    let body = pobj(vec![(
        "proxies",
        pobj(vec![
            ("Zebra", group("Zebra", "Selector", "A", vec!["A"])),
            ("DIRECT", pobj(vec![("name", pstr("DIRECT")), ("type", pstr("Direct"))])),
            ("Alpha", group("Alpha", "Selector", "B", vec!["B"])),
            ("NoName", pobj(vec![("type", pstr("Selector"))])),
        ]),
    )]);
    let ps = parse_proxies(&body).expect("response parses").proxies;
    let names = selector_names(&ps);
    assert_eq!(names, vec!["Zebra".to_string(), "Alpha".to_string()]);
}

#[test]
fn sorting_orders_names_and_keeps_them_all() {
    let mut names = vec![
        "pear".to_string(),
        "apple".to_string(),
        "apple".to_string(),
        "Banana".to_string(),
        "".to_string(),
    ];
    sort_names(&mut names);
    assert_eq!(
        names,
        vec![
            "".to_string(),
            "Banana".to_string(),
            "apple".to_string(),
            "apple".to_string(),
            "pear".to_string(),
        ]
    );
}

#[test]
fn delay_response_yields_the_measured_delay() {
    let body = pobj(vec![
        ("delay", JsonValue::Num(87)),
        ("meanDelay", JsonValue::Num(90)),
    ]);
    assert_eq!(parse_delay(&body), Some(87));
}

#[test]
fn malformed_delay_response_is_rejected() {
    assert_eq!(parse_delay(&pobj(vec![])), None);
    assert_eq!(parse_delay(&pobj(vec![("delay", pstr("fast"))])), None);
    assert_eq!(parse_delay(&JsonValue::Num(87)), None);
}
