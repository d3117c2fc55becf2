use siege_tower_backend::config::{
    bool_or, parse_bool, parse_u16, text_or, u16_or, ClickHouseConfig, MqttConfig, ServerConfig,
};

#[test]
fn parse_u16_reads_plain_decimal() {
    assert_eq!(parse_u16("8080"), Some(8080));
    assert_eq!(parse_u16("0"), Some(0));
    assert_eq!(parse_u16("65535"), Some(65535));
}

#[test]
fn parse_u16_accepts_plus_and_leading_zeros() {
    assert_eq!(parse_u16("+1883"), Some(1883));
    assert_eq!(parse_u16("000080"), Some(80));
}

#[test]
fn parse_u16_rejects_malformed_text() {
    assert_eq!(parse_u16(""), None);
    assert_eq!(parse_u16("+"), None);
    assert_eq!(parse_u16("-1"), None);
    assert_eq!(parse_u16("-0"), None);
    assert_eq!(parse_u16(" 80"), None);
    assert_eq!(parse_u16("80 "), None);
    assert_eq!(parse_u16("8a"), None);
    assert_eq!(parse_u16("++1"), None);
    assert_eq!(parse_u16("８０"), None);
}

#[test]
fn parse_u16_rejects_overflow() {
    assert_eq!(parse_u16("65536"), None);
    assert_eq!(parse_u16("99999999999999999999"), None);
    assert_eq!(parse_u16("70000x"), None);
}

#[test]
fn parse_u16_agrees_with_std_parse() {
    let samples = [
        "", "0", "1", "+0", "+", "-", "-5", "42", "00042", "65535", "65536", "123456", "1_000",
        " 1", "1 ", "abc", "+65535", "+65536", "0x10", "9",
    ];
    for s in samples.iter() {
        assert_eq!(parse_u16(s), s.parse::<u16>().ok(), "text {:?}", s);
    }
    for n in (0u32..=70000).step_by(97) {
        let text = n.to_string();
        assert_eq!(parse_u16(&text), text.parse::<u16>().ok());
    }
}

#[test]
fn parse_bool_reads_exact_words() {
    assert_eq!(parse_bool("true"), Some(true));
    assert_eq!(parse_bool("false"), Some(false));
    assert_eq!(parse_bool("True"), None);
    assert_eq!(parse_bool("1"), None);
    assert_eq!(parse_bool(""), None);
    assert_eq!(parse_bool(" true"), None);
}

#[test]
fn settings_fall_back_to_defaults() {
    assert_eq!(text_or(None, "localhost"), "localhost");
    assert_eq!(text_or(Some("broker.example".to_string()), "localhost"), "broker.example");
    assert_eq!(text_or(Some(String::new()), "localhost"), "");
    assert_eq!(u16_or(None, 8080), 8080);
    assert_eq!(u16_or(Some("9090".to_string()), 8080), 9090);
    assert_eq!(u16_or(Some("not a port".to_string()), 8080), 8080);
    assert_eq!(u16_or(Some("70000".to_string()), 8080), 8080);
    assert!(bool_or(None, true));
    assert!(!bool_or(Some("false".to_string()), true));
    assert!(bool_or(Some("no".to_string()), true));
    assert!(bool_or(Some("true".to_string()), false));
}

#[test]
fn server_config_defaults() {
    let c = ServerConfig::from_env_values(None, None);
    assert_eq!(c.host, "0.0.0.0");
    assert_eq!(c.port, 8080);
}

#[test]
fn server_config_overrides() {
    let c = ServerConfig::from_env_values(Some("127.0.0.1".to_string()), Some("3000".to_string()));
    assert_eq!(c.host, "127.0.0.1");
    assert_eq!(c.port, 3000);
    let bad = ServerConfig::from_env_values(None, Some("port".to_string()));
    assert_eq!(bad.port, 8080);
}

#[test]
fn clickhouse_config_defaults_and_overrides() {
    let c = ClickHouseConfig::from_env_values(None, None, None, None);
    assert_eq!(c.url, "http://localhost:8123");
    assert_eq!(c.user, "default");
    assert_eq!(c.password, "");
    assert_eq!(c.database, "siege_tower");
    let d = ClickHouseConfig::from_env_values(
        Some("http://db:8123".to_string()),
        Some("admin".to_string()),
        Some("SECRET-REDACTED".to_string()),
        Some("towers".to_string()),
    );
    assert_eq!(d.url, "http://db:8123");
    assert_eq!(d.user, "admin");
    assert_eq!(d.password, "SECRET-REDACTED");
    assert_eq!(d.database, "towers");
}

#[test]
fn mqtt_config_defaults_and_overrides() {
    let c = MqttConfig::from_env_values(None, None, None, None, None, None, None);
    assert_eq!(c.broker, "localhost");
    assert_eq!(c.port, 1883);
    assert_eq!(c.client_id, "siege-tower-server");
    assert_eq!(c.username, None);
    assert_eq!(c.password, None);
    assert_eq!(c.alert_topic, "siege/tower/alert");
    assert_eq!(c.sensor_topic, "siege/tower/sensor");
    let d = MqttConfig::from_env_values(
        Some("mq".to_string()),
        Some("8883".to_string()),
        Some("client-7".to_string()),
        Some("operator".to_string()),
        Some("pw".to_string()),
        Some("a/t".to_string()),
        Some("s/t".to_string()),
    );
    assert_eq!(d.broker, "mq");
    assert_eq!(d.port, 8883);
    assert_eq!(d.client_id, "client-7");
    assert_eq!(d.username.as_deref(), Some("operator"));
    assert_eq!(d.password.as_deref(), Some("pw"));
    assert_eq!(d.alert_topic, "a/t");
    assert_eq!(d.sensor_topic, "s/t");
}

#[test]
fn every_port_written_in_decimal_reads_back() {
    for n in 0u32..=65535 {
        let text = n.to_string();
        assert_eq!(parse_u16(&text), Some(n as u16));
        assert_eq!(parse_u16(&format!("+{}", text)), Some(n as u16));
    }
    for n in [65536u32, 70000, 100000, u32::MAX] {
        assert_eq!(parse_u16(&n.to_string()), None);
    }
}
