use osp::node::config::{verify_password, Config, ConfigError, Settings};
use osp::text::{parse_u16, same_text, trims_to_empty};

fn settings() -> Settings {
    Settings {
        admin_password: None,
        host: None,
        port: None,
        database_url: None,
        public_url: None,
        default_database_url: "sqlite:/srv/osp.db".into(),
    }
}

#[test]
fn defaults() {
    let c = Config::from_settings(settings()).unwrap();
    assert_eq!(c.host, "127.0.0.1");
    assert_eq!(c.port, 3000);
    assert_eq!(c.database_url, "sqlite:/srv/osp.db");
    assert_eq!(c.public_url, "http://localhost:3000");
    assert!(verify_password("admin", &c.admin_password_hash));
    assert_eq!(c.public_base_url().unwrap().as_str(), "http://localhost:3000/");
}

#[test]
fn explicit_settings() {
    let mut s = settings();
    s.admin_password = Some("pw".into());
    s.host = Some("0.0.0.0".into());
    s.port = Some("+8080".into());
    s.database_url = Some("sqlite::memory:".into());
    s.public_url = Some("https://shop.example".into());
    let c = Config::from_settings(s).unwrap();
    assert_eq!(c.port, 8080);
    assert_eq!(c.host, "0.0.0.0");
    assert_eq!(c.database_url, "sqlite::memory:");
    assert!(verify_password("pw", &c.admin_password_hash));
    assert!(!verify_password("admin", &c.admin_password_hash));
}

#[test]
fn bad_port() {
    let mut s = settings();
    s.port = Some("70000".into());
    match Config::from_settings(s) {
        Err(ConfigError::InvalidPort(t)) => assert_eq!(t, "70000"),
        other => panic!("unexpected {:?}", other),
    }
}

#[test]
fn port_parsing_follows_std() {
    for text in ["0", "65535", "+1", "007", "3000", "65536", "", "+", "-1", " 1", "1 ", "1_0", "x", "99999999999999999999", "+-1"] {
        assert_eq!(parse_u16(text), text.parse::<u16>().ok(), "{text:?}");
    }
}

#[test]
fn text_helpers() {
    assert!(same_text("abc", "abc"));
    assert!(!same_text("abc", "abd"));
    assert!(!same_text("abc", "ab"));
    assert!(trims_to_empty(""));
    assert!(trims_to_empty(" \u{2028}\u{85}\r"));
    assert!(!trims_to_empty(" a "));
    for c in ['\u{9}', '\u{b}', ' ', '\u{1680}', '\u{2000}', '\u{200a}', '\u{202f}', '\u{205f}', '\u{3000}', '\u{200b}', 'a', '\u{feff}'] {
        let s = c.to_string();
        assert_eq!(trims_to_empty(&s), s.trim().is_empty(), "{c:?}");
    }
}
