use kaze_backend::config::EUSignConfig;
use kaze_backend::eusign::{compatibility_from_text, flag_from_text};
use kaze_backend::text::ParseIntError;
use kaze_backend::server::token_refresh_delay_secs;

fn s(x: &str) -> String {
    x.to_string()
}

#[test]
fn certificate_paths_are_under_the_key_storage() {
    let config = EUSignConfig {
        private_key_path: s("./libs/eusign/pkey/Key-6.dat"),
        private_key_password: s("secret"),
        cas_json_path: s("./libs/eusign/CAs.json"),
        ca_certificates_path: s("./libs/eusign/CACertificates.p7b"),
        sz_path: s("./libs/eusign/certificates/"),
        proxy_use: 0,
        proxy_address: s(""),
        proxy_port: s("3128"),
        proxy_user: s(""),
        proxy_password: s(""),
        default_ocsp_server: s("czo.gov.ua"),
        default_tsp_server: s("ca.diia.gov.ua"),
        encryption_cert_file_name: s("enc.cer"),
        signature_cert_file_name: s("sig.cer"),
    };
    let (encryption, signature) = config.certificate_paths();
    assert_eq!(encryption, "./libs/eusign/certificates/enc.cer");
    assert_eq!(signature, "./libs/eusign/certificates/sig.cer");
}

#[test]
fn token_refresh_waits_two_hours_or_retries_at_once() {
    assert_eq!(token_refresh_delay_secs(true), 7080);
    assert_eq!(token_refresh_delay_secs(false), 1);
}

#[test]
fn authority_flags_are_read_from_text() {
    assert!(flag_from_text("true"));
    assert!(flag_from_text(" true "));
    assert!(flag_from_text("untrue"));
    assert!(!flag_from_text("false"));
    assert!(!flag_from_text(""));
    assert!(!flag_from_text("tru"));
    assert!(!flag_from_text("TRUE"));
}

#[test]
fn authority_compatibility_is_read_from_digits() {
    assert_eq!(compatibility_from_text("3"), Ok(3));
    assert_eq!(compatibility_from_text("2147483647"), Ok(i32::MAX));
    assert_eq!(compatibility_from_text("2147483648"), Err(ParseIntError::PosOverflow));
    assert_eq!(compatibility_from_text("x"), Err(ParseIntError::InvalidDigit));
    assert_eq!(compatibility_from_text(""), Err(ParseIntError::Empty));
}
