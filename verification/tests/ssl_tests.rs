use fastmssql::ssl::{has_valid_cert_ext, CaFileReport, EncryptionLevel, SslConfig, TrustMode};

fn absent() -> CaFileReport {
    CaFileReport { exists: false, readable: false }
}

fn present() -> CaFileReport {
    CaFileReport { exists: true, readable: true }
}

#[test]
fn test_ssl_config_creation() {
    let ssl_config = SslConfig::new(None, false, None, true, None, absent()).unwrap();
    assert_eq!(ssl_config.encryption_level, EncryptionLevel::Required);
    assert!(!ssl_config.trust_server_certificate);
    assert!(ssl_config.ca_certificate_path.is_none());
    assert!(ssl_config.enable_sni);
    assert!(ssl_config.server_name.is_none());
}

#[test]
fn test_development_config() {
    let ssl_config = SslConfig::development();
    assert_eq!(ssl_config.encryption_level, EncryptionLevel::Required);
    assert!(ssl_config.trust_server_certificate);
    assert!(!ssl_config.enable_sni);
}

#[test]
fn test_mutual_exclusion_validation() {
    let result = SslConfig::new(
        None,
        true, // trust_server_certificate
        Some("test.pem".to_string()), // ca_certificate_path
        true,
        None,
        present(),
    );
    assert!(result.is_err());
}

#[test]
fn a_missing_ca_file_is_refused() {
    let result = SslConfig::new(
        None,
        false,
        Some("non_existent.pem".to_string()),
        true,
        None,
        absent(),
    );
    assert!(result.is_err());
}

#[test]
fn an_unreadable_ca_file_is_refused() {
    let report = CaFileReport { exists: true, readable: false };
    let result = SslConfig::new(None, false, Some("locked.pem".to_string()), true, None, report);
    assert!(result.is_err());
}

#[test]
fn a_present_readable_pem_is_accepted() {
    let c = SslConfig::new(None, false, Some("certs/ca.pem".to_string()), true, None, present())
        .unwrap();
    assert_eq!(c.ca_certificate_path.as_deref(), Some("certs/ca.pem"));
    assert!(!c.trust_server_certificate);
}

#[test]
fn extension_rule_accepts_the_three_forms_in_any_case() {
    assert!(has_valid_cert_ext("ca.pem"));
    assert!(has_valid_cert_ext("ca.CRT"));
    assert!(has_valid_cert_ext("certs/root.Der"));
}

#[test]
fn extension_rule_rejects_everything_else() {
    assert!(!has_valid_cert_ext("ca.txt"));
    assert!(!has_valid_cert_ext("ca"));
    assert!(!has_valid_cert_ext(".pem"));
    assert!(!has_valid_cert_ext("dir.d/cert"));
    assert!(!has_valid_cert_ext("ca.pem/"));
}

#[test]
fn login_only_and_disabled_presets() {
    let l = SslConfig::login_only();
    assert_eq!(l.encryption_level, EncryptionLevel::LoginOnly);
    assert!(l.enable_sni);
    let d = SslConfig::disabled();
    assert_eq!(d.encryption_level, EncryptionLevel::Off);
    assert!(!d.trust_server_certificate);
}

#[test]
fn with_ca_certificate_builds_the_production_shape() {
    let c = SslConfig::with_ca_certificate("root.crt".to_string(), present()).unwrap();
    assert_eq!(c.encryption_level, EncryptionLevel::Required);
    assert!(c.enable_sni);
    assert_eq!(c.ca_certificate_path.as_deref(), Some("root.crt"));
}

#[test]
fn the_tls_plan_mirrors_the_configuration() {
    let dev = SslConfig::development().tls_plan();
    assert!(matches!(dev.trust, TrustMode::TrustAll));
    assert_eq!(dev.encryption, EncryptionLevel::Required);

    let pinned = SslConfig::with_ca_certificate("root.crt".to_string(), present())
        .unwrap()
        .tls_plan();
    match pinned.trust {
        TrustMode::CaFile(p) => assert_eq!(p, "root.crt"),
        _ => panic!("a pinned CA must appear in the plan"),
    }

    let plain = SslConfig::disabled().tls_plan();
    assert!(matches!(plain.trust, TrustMode::Default));
    assert_eq!(plain.encryption, EncryptionLevel::Off);
}

#[test]
fn encryption_level_names() {
    assert_eq!(EncryptionLevel::Required.text(), "Required");
    assert_eq!(EncryptionLevel::LoginOnly.text(), "LoginOnly");
    assert_eq!(EncryptionLevel::Off.text(), "Off");
}
