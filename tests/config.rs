use ddns_sync::config::{parse_config, ConfigError, Field};

const VALID: &str = "public_ip_service = \"http://echo.test\"\ncloudflare_api_key = \"k\"\nzone_id = \"z1\"\ndns_name = \"home.example.com\"\n";

#[test]
fn loads_the_four_settings() {
    let c = parse_config(VALID).unwrap();
    assert_eq!(c.public_ip_service, "http://echo.test");
    assert_eq!(c.cloudflare_api_key, "k");
    assert_eq!(c.zone_id, "z1");
    assert_eq!(c.dns_name, "home.example.com");
}

#[test]
fn ignores_extra_settings() {
    let text = format!("{}ttl = 300\nnote = \"x\"\n", VALID);
    let c = parse_config(&text).unwrap();
    assert_eq!(c.zone_id, "z1");
}

#[test]
fn each_missing_key_fails() {
    let keys = [
        ("public_ip_service", Field::PublicIpService),
        ("cloudflare_api_key", Field::ApiKey),
        ("zone_id", Field::ZoneId),
        ("dns_name", Field::DnsName),
    ];
    for (key, field) in keys {
        let text: String = VALID
            .lines()
            .filter(|l| !l.starts_with(&format!("{} ", key)))
            .map(|l| format!("{}\n", l))
            .collect();
        assert_eq!(parse_config(&text).unwrap_err(), ConfigError::Missing(field));
    }
}

#[test]
fn first_missing_key_is_named() {
    let r = parse_config("dns_name = \"a\"\n");
    assert_eq!(r.unwrap_err(), ConfigError::Missing(Field::PublicIpService));
}

#[test]
fn non_string_setting_fails() {
    let text = VALID.replace("zone_id = \"z1\"", "zone_id = 7");
    assert_eq!(parse_config(&text).unwrap_err(), ConfigError::Missing(Field::ZoneId));
}

#[test]
fn malformed_document_fails() {
    assert_eq!(parse_config("public_ip_service = ").unwrap_err(), ConfigError::Malformed);
}

#[test]
fn settings_errors_describe_themselves() {
    assert_eq!(ConfigError::Missing(Field::DnsName).describe(), "missing or non-string setting: dns_name");
    assert_eq!(ConfigError::Malformed.describe(), "the settings file is not valid TOML");
    assert_eq!(ConfigError::Unreadable.describe(), "cannot read the settings file");
    assert_eq!(Field::ApiKey.key(), "cloudflare_api_key");
}
