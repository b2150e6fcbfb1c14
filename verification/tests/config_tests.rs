use geodns_proxy::config::{parse_config, zone_from_fields, zone_of, ConfigError};
use geodns_proxy::json::JsonVal;
use geodns_proxy::net::{Cidr, IpAddress};

const GOOD: &str = r#"{
  "geo_zones": [
    { "name": "emea", "cidr": "10.0.0.0/8", "nameserver": "1.2.3.4" },
    { "name": "lab6", "cidr": "2001:db8::/32", "nameserver": "::1" }
  ]
}"#;

#[test]
fn parses_a_valid_config() {
    let table = parse_config(GOOD).expect("valid config must parse");
    assert_eq!(table.zones.len(), 2);

    assert_eq!(table.zones[0].name, "emea");
    assert_eq!(table.zones[0].cidr, Cidr::V4 { base: 0x0a000000, prefix: 8 });
    assert_eq!(table.zones[0].nameserver, IpAddress::V4(0x01020304));

    assert_eq!(table.zones[1].name, "lab6");
    assert_eq!(
        table.zones[1].cidr,
        Cidr::V6 { base: 0x2001_0db8_u128 << 96, prefix: 32 }
    );
    assert_eq!(table.zones[1].nameserver, IpAddress::V6(1));
}

#[test]
fn parsed_config_routes() {
    let table = parse_config(GOOD).expect("valid config must parse");
    // 10.9.9.9 is inside 10.0.0.0/8.
    assert_eq!(
        table.get_ns_addr(&IpAddress::V4(0x0a090909)),
        Some(IpAddress::V4(0x01020304))
    );
    // 2001:db8::17 is inside 2001:db8::/32.
    assert_eq!(
        table.get_ns_addr(&IpAddress::V6((0x2001_0db8_u128 << 96) | 0x17)),
        Some(IpAddress::V6(1))
    );
    assert_eq!(table.get_ns_addr(&IpAddress::V4(0x0b000001)), None);
}

#[test]
fn empty_zone_list_is_accepted() {
    let table = parse_config(r#"{ "geo_zones": [] }"#).expect("empty list is a valid config");
    assert_eq!(table.zones.len(), 0);
}

#[test]
fn rejects_unparseable_text() {
    assert!(matches!(parse_config("not json at all"), Err(ConfigError::NotJson)));
    assert!(matches!(parse_config(""), Err(ConfigError::NotJson)));
}

#[test]
fn rejects_missing_zone_list() {
    assert!(matches!(parse_config("{}"), Err(ConfigError::Malformed)));
    assert!(matches!(
        parse_config(r#"{ "geo_zones": "nope" }"#),
        Err(ConfigError::Malformed)
    ));
}

#[test]
fn rejects_zone_missing_a_field() {
    let text = r#"{ "geo_zones": [ { "cidr": "10.0.0.0/8", "nameserver": "1.2.3.4" } ] }"#;
    assert!(matches!(parse_config(text), Err(ConfigError::Malformed)));
    let text = r#"{ "geo_zones": [ { "name": "x", "nameserver": "1.2.3.4" } ] }"#;
    assert!(matches!(parse_config(text), Err(ConfigError::Malformed)));
    let text = r#"{ "geo_zones": [ { "name": "x", "cidr": "10.0.0.0/8" } ] }"#;
    assert!(matches!(parse_config(text), Err(ConfigError::Malformed)));
    let text = r#"{ "geo_zones": [ { "name": 3, "cidr": "10.0.0.0/8", "nameserver": "1.2.3.4" } ] }"#;
    assert!(matches!(parse_config(text), Err(ConfigError::Malformed)));
}

#[test]
fn rejects_bad_cidr_naming_the_zone() {
    let text = r#"{ "geo_zones": [ { "name": "broken", "cidr": "10.0.0.0/99", "nameserver": "1.2.3.4" } ] }"#;
    match parse_config(text) {
        Err(ConfigError::BadCidr { zone }) => assert_eq!(zone, "broken"),
        _ => panic!("an out-of-range prefix length must be rejected"),
    }
}

#[test]
fn rejects_bad_nameserver_naming_the_zone() {
    let text = r#"{ "geo_zones": [ { "name": "broken", "cidr": "10.0.0.0/8", "nameserver": "not-an-ip" } ] }"#;
    match parse_config(text) {
        Err(ConfigError::BadNameserver { zone }) => assert_eq!(zone, "broken"),
        _ => panic!("a malformed nameserver address must be rejected"),
    }
}

#[test]
fn first_fault_wins() {
    let text = r#"{ "geo_zones": [
        { "name": "ok", "cidr": "10.0.0.0/8", "nameserver": "1.2.3.4" },
        { "name": "bad", "cidr": "zzz", "nameserver": "1.2.3.4" }
    ] }"#;
    match parse_config(text) {
        Err(ConfigError::BadCidr { zone }) => assert_eq!(zone, "bad"),
        _ => panic!("the malformed second zone must be rejected"),
    }
}

#[test]
fn zone_from_fields_builds_a_zone() {
    let z = zone_from_fields(
        Some("emea".to_string()),
        Some("10.0.0.0/8".to_string()),
        Some("1.2.3.4".to_string()),
    )
    .expect("all fields present and valid");
    assert_eq!(z.name, "emea");
    assert_eq!(z.cidr, Cidr::V4 { base: 0x0a000000, prefix: 8 });
    assert_eq!(z.nameserver, IpAddress::V4(0x01020304));
}

#[test]
fn zone_from_fields_faults_in_field_order() {
    assert!(matches!(
        zone_from_fields(None, Some("10.0.0.0/8".to_string()), Some("1.2.3.4".to_string())),
        Err(ConfigError::Malformed)
    ));
    assert!(matches!(
        zone_from_fields(Some("x".to_string()), None, Some("1.2.3.4".to_string())),
        Err(ConfigError::Malformed)
    ));
    // A bad CIDR is reported before the missing nameserver is noticed.
    assert!(matches!(
        zone_from_fields(Some("x".to_string()), Some("zzz".to_string()), None),
        Err(ConfigError::BadCidr { .. })
    ));
    assert!(matches!(
        zone_from_fields(Some("x".to_string()), Some("10.0.0.0/8".to_string()), None),
        Err(ConfigError::Malformed)
    ));
}

#[test]
fn json_model_field_lookup() {
    let entry = JsonVal::Object(vec![
        ("name".to_string(), JsonVal::Text("emea".to_string())),
        ("cidr".to_string(), JsonVal::Text("10.0.0.0/8".to_string())),
        ("nameserver".to_string(), JsonVal::Text("1.2.3.4".to_string())),
    ]);
    match entry.field(&"cidr".to_string()) {
        Some(JsonVal::Text(s)) => assert_eq!(s, "10.0.0.0/8"),
        _ => panic!("the cidr member is a string"),
    }
    assert!(entry.field(&"missing".to_string()).is_none());
    assert_eq!(entry.text_field(&"name".to_string()), Some("emea".to_string()));
    assert_eq!(entry.text_field(&"missing".to_string()), None);
    // A non-object has no members.
    assert!(JsonVal::Text("x".to_string()).field(&"name".to_string()).is_none());
}

#[test]
fn zone_of_builds_from_a_model_entry() {
    let entry = JsonVal::Object(vec![
        ("name".to_string(), JsonVal::Text("emea".to_string())),
        ("cidr".to_string(), JsonVal::Text("10.0.0.0/8".to_string())),
        ("nameserver".to_string(), JsonVal::Text("1.2.3.4".to_string())),
    ]);
    let z = zone_of(&entry).expect("a complete entry parses");
    assert_eq!(z.cidr, Cidr::V4 { base: 0x0a000000, prefix: 8 });
    assert_eq!(z.nameserver, IpAddress::V4(0x01020304));
    // An entry that is no object has no members: malformed.
    assert!(matches!(zone_of(&JsonVal::Scalar), Err(ConfigError::Malformed)));
}

#[test]
fn rejects_non_object_zone_entry() {
    let text = r#"{ "geo_zones": [ 17 ] }"#;
    assert!(matches!(parse_config(text), Err(ConfigError::Malformed)));
}

#[test]
fn repeated_key_keeps_the_last_value() {
    // serde_json's object map keeps the last value of a repeated key.
    let text = r#"{ "geo_zones": [
        { "name": "first", "name": "second",
          "cidr": "10.0.0.0/8", "nameserver": "1.2.3.4" }
    ] }"#;
    let table = parse_config(text).expect("repeated keys are still valid JSON");
    assert_eq!(table.zones[0].name, "second");
}
