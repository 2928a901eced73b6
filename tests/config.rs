use keba_home_api::config::{
    check_debug_source, keba_source_label, optional_setting, parse_keba_source, parse_or_default,
    parse_status_stations, required_keba_ip, KebaSource, StatusStationConfig,
};

#[test]
fn keba_source_defaults_to_udp_and_ignores_case() {
    assert_eq!(parse_keba_source(None), Ok(KebaSource::Udp));
    assert_eq!(parse_keba_source(Some("  ")), Ok(KebaSource::Udp));
    assert_eq!(parse_keba_source(Some(" Modbus ")), Ok(KebaSource::Modbus));
    assert_eq!(parse_keba_source(Some("DEBUG_FILE")), Ok(KebaSource::DebugFile));
    assert_eq!(keba_source_label(KebaSource::DebugFile), "debug_file");
}

#[test]
fn rejects_invalid_keba_source() {
    let result = parse_keba_source(Some("serial"));
    assert_eq!(
        result.unwrap_err().to_string(),
        "invalid configuration: KEBA_SOURCE must be one of: udp, modbus, debug_file"
    );
}

#[test]
fn rejects_invalid_numeric_values() {
    let result = parse_or_default(Some("abc"), "POLL_INTERVAL_MS", 1000, u64::MAX);
    assert!(result.is_err());
    assert_eq!(
        result.unwrap_err().to_string(),
        "invalid configuration: POLL_INTERVAL_MS must be a valid number"
    );
}

#[test]
fn rejects_invalid_status_stations_format() {
    let result = parse_status_stations(Some("invalid-format"));
    assert!(result.is_err());
    assert_eq!(
        result.unwrap_err().to_string(),
        "invalid configuration: STATUS_STATIONS entry must look like Name@IP:Port: invalid-format"
    );
}

#[test]
fn numeric_settings_use_defaults_and_reject_text() {
    assert_eq!(parse_or_default(None, "POLL_INTERVAL_MS", 1000, u64::MAX), Ok(1000));
    assert_eq!(parse_or_default(Some(" 250 "), "POLL_INTERVAL_MS", 1000, u64::MAX), Ok(250));
    assert_eq!(parse_or_default(Some("+7"), "DEBOUNCE_SAMPLES", 2, u64::MAX), Ok(7));
    assert_eq!(
        parse_or_default(Some("abc"), "POLL_INTERVAL_MS", 1000, u64::MAX)
            .unwrap_err()
            .to_string(),
        "invalid configuration: POLL_INTERVAL_MS must be a valid number"
    );
    assert!(parse_or_default(Some("70000"), "KEBA_UDP_PORT", 7090, 65535).is_err());
    assert!(parse_or_default(Some("-1"), "KEBA_UDP_PORT", 7090, 65535).is_err());
    assert_eq!(
        parse_or_default(Some("18446744073709551615"), "POLL_INTERVAL_MS", 0, u64::MAX),
        Ok(u64::MAX)
    );
    assert!(parse_or_default(Some("18446744073709551616"), "POLL_INTERVAL_MS", 0, u64::MAX).is_err());
}

#[test]
fn default_status_stations_are_the_two_wallboxes() {
    let stations = parse_status_stations(None).expect("config should be valid");
    assert_eq!(
        stations,
        vec![
            StatusStationConfig {
                name: "KEBA Carport".to_string(),
                ip: "192.168.233.98".to_string(),
                port: 7090,
            },
            StatusStationConfig {
                name: "KEBA Eingang".to_string(),
                ip: "192.168.233.91".to_string(),
                port: 7090,
            },
        ]
    );
}

#[test]
fn parses_custom_status_stations() {
    let stations = parse_status_stations(Some(
        "Carport@192.168.1.101:7090;Eingang@192.168.1.102:7091",
    ))
    .expect("config should be valid");
    assert_eq!(parse_or_default(Some("10"), "STATUS_LOG_INTERVAL_SECONDS", 5, u64::MAX), Ok(10));
    assert_eq!(stations.len(), 2);
    assert_eq!(stations[0].name, "Carport");
    assert_eq!(stations[0].ip, "192.168.1.101");
    assert_eq!(stations[0].port, 7090);
    assert_eq!(stations[1].name, "Eingang");
    assert_eq!(stations[1].ip, "192.168.1.102");
    assert_eq!(stations[1].port, 7091);
}

#[test]
fn status_station_errors_name_the_entry() {
    assert_eq!(
        parse_status_stations(Some("invalid-format")).unwrap_err().to_string(),
        "invalid configuration: STATUS_STATIONS entry must look like Name@IP:Port: invalid-format"
    );
    assert_eq!(
        parse_status_stations(Some("A@hostonly")).unwrap_err().to_string(),
        "invalid configuration: STATUS_STATIONS endpoint must look like IP:Port: hostonly"
    );
    assert_eq!(
        parse_status_stations(Some("A@h:port")).unwrap_err().to_string(),
        "invalid configuration: STATUS_STATIONS has invalid port: port"
    );
    assert_eq!(
        parse_status_stations(Some(" @h:1")).unwrap_err().to_string(),
        "invalid configuration: STATUS_STATIONS entry has empty station name"
    );
    assert_eq!(
        parse_status_stations(Some("A@ :1")).unwrap_err().to_string(),
        "invalid configuration: STATUS_STATIONS entry has empty station ip"
    );
    assert_eq!(
        parse_status_stations(Some(" ; ")).unwrap_err().to_string(),
        "invalid configuration: STATUS_STATIONS must contain at least one station"
    );
}

#[test]
fn ipv6_endpoints_split_at_the_last_colon() {
    let stations = parse_status_stations(Some("Lab@::1:7090; ")).expect("config should be valid");
    assert_eq!(stations[0].ip, "::1");
    assert_eq!(stations[0].port, 7090);
}

#[test]
fn rejects_missing_keba_ip() {
    use_required_ip();
}

fn use_required_ip() {
    let result = required_keba_ip(None);
    assert!(result.is_err());
    assert_eq!(
        result.unwrap_err().to_string(),
        "invalid configuration: KEBA_IP is required"
    );
    assert!(required_keba_ip(Some("   ")).is_err());
    assert_eq!(required_keba_ip(Some(" 192.168.1.10 ")), Ok("192.168.1.10".to_string()));
}

#[test]
fn requires_debug_data_file_for_debug_source() {
    let result = check_debug_source(KebaSource::DebugFile, &None);
    assert!(result.is_err());
    assert_eq!(
        result.unwrap_err().to_string(),
        "invalid configuration: KEBA_DEBUG_DATA_FILE is required when KEBA_SOURCE=debug_file"
    );
    assert_eq!(check_debug_source(KebaSource::DebugFile, &Some("x.json".to_string())), Ok(()));
    assert_eq!(check_debug_source(KebaSource::Udp, &None), Ok(()));
    assert_eq!(optional_setting(Some("  ")), None);
    assert_eq!(optional_setting(Some(" a b ")), Some("a b".to_string()));
    assert_eq!(optional_setting(None), None);
}
