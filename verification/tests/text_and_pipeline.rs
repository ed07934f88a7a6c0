use deploykit::pipeline::Pipeline;
use deploykit::profile::{AiAgent, Database, DeploymentTarget, Profile, ReverseProxy};
use deploykit::text::{
    contains, decimal_string, is_whitespace, parse_unsigned, push_signed_decimal, split_whitespace,
    trim, trim_end,
};

#[test]
fn trim_removes_unicode_white_space_at_both_ends() {
    assert_eq!(trim("  /help \t\n"), "/help");
    assert_eq!(trim("\u{3000}a b\u{a0}"), "a b");
    assert_eq!(trim("   "), "");
    assert_eq!(trim(""), "");
    assert_eq!(trim("x"), "x");
}

#[test]
fn trim_end_keeps_leading_space() {
    assert_eq!(trim_end("  line\r\n"), "  line");
    assert_eq!(trim_end("\n"), "");
}

#[test]
fn whitespace_matches_std() {
    for c in ['\t', '\n', '\u{b}', '\u{c}', '\r', ' ', '\u{85}', '\u{a0}', '\u{1680}', '\u{2000}',
        '\u{200a}', '\u{2028}', '\u{2029}', '\u{202f}', '\u{205f}', '\u{3000}', 'a', '0', '\u{200b}',
        '\u{180e}', '_'] {
        assert_eq!(is_whitespace(c), c.is_whitespace(), "char {:?}", c);
    }
}

#[test]
fn split_whitespace_drops_empty_words() {
    assert_eq!(split_whitespace("  connect   3 "), vec!["connect".to_string(), "3".to_string()]);
    assert_eq!(split_whitespace(""), Vec::<String>::new());
    assert_eq!(split_whitespace(" \t "), Vec::<String>::new());
    assert_eq!(split_whitespace("a\u{3000}b"), vec!["a".to_string(), "b".to_string()]);
}

#[test]
fn parse_unsigned_follows_str_parse() {
    assert_eq!(parse_unsigned("22", 65535), Some(22));
    assert_eq!(parse_unsigned("+5", 65535), Some(5));
    assert_eq!(parse_unsigned("007", 65535), Some(7));
    assert_eq!(parse_unsigned("65535", 65535), Some(65535));
    assert_eq!(parse_unsigned("65536", 65535), None);
    assert_eq!(parse_unsigned("+", 65535), None);
    assert_eq!(parse_unsigned("", 65535), None);
    assert_eq!(parse_unsigned("-1", 65535), None);
    assert_eq!(parse_unsigned("1 ", 65535), None);
    assert_eq!(parse_unsigned("99999999999999999999999", u64::MAX), None);
    assert_eq!(parse_unsigned("18446744073709551615", u64::MAX), Some(u64::MAX));
    for s in ["0", "12", "+9", "x", "", "+", "70000", "-0"] {
        assert_eq!(parse_unsigned(s, 65535), s.parse::<u16>().ok().map(|v| v as u64), "{:?}", s);
    }
}

#[test]
fn decimal_formatting_matches_display() {
    assert_eq!(decimal_string(0), "0");
    assert_eq!(decimal_string(1234567890), "1234567890");
    assert_eq!(decimal_string(u64::MAX), u64::MAX.to_string());
    for n in [0i64, 7, -7, 120, -4096, i64::MIN, i64::MAX] {
        let mut s = String::from("x");
        push_signed_decimal(&mut s, n);
        assert_eq!(s, format!("x{n}"));
    }
}

#[test]
fn contains_finds_runs() {
    assert!(contains("postgres", "gres"));
    assert!(contains("postgres", ""));
    assert!(!contains("postgres", "postgresql"));
    assert!(!contains("redis", "rd"));
    assert!(contains("a", "a"));
}

#[test]
fn labels_of_every_target() {
    let expected = [
        (DeploymentTarget::Hardening, "System Hardening"),
        (DeploymentTarget::Database(Database::Postgres), "Postgres"),
        (DeploymentTarget::Database(Database::Redis), "Redis"),
        (DeploymentTarget::Database(Database::MongoDB), "MongoDB"),
        (DeploymentTarget::ReverseProxy(ReverseProxy::Caddy), "Caddy"),
        (DeploymentTarget::ReverseProxy(ReverseProxy::Nginx), "Nginx"),
        (DeploymentTarget::AiAgent(AiAgent::Hermes), "Hermes Agent"),
        (DeploymentTarget::AiAgent(AiAgent::OpenClaw), "OpenClaw Agent"),
        (DeploymentTarget::DockerCompose, "Docker Compose"),
        (DeploymentTarget::Binary, "Binary Deployment"),
    ];
    for (t, l) in expected {
        assert_eq!(Pipeline::target_label(&t), l);
        let script = Pipeline::script_for(&t);
        assert!(script.starts_with("set -e\n"));
        assert!(script.ends_with("\"\n"));
    }
    assert!(Pipeline::script_for(&DeploymentTarget::Database(Database::Redis))
        .contains("apt-get install -y -qq redis-server"));
    assert!(Pipeline::script_for(&DeploymentTarget::Hardening).contains("ufw --force enable"));
}

#[test]
fn blank_profile_uses_home() {
    let p = Profile::blank("/home/ann");
    assert_eq!(p.port, 22);
    assert_eq!(p.username, "root");
    assert_eq!(p.key_path, "/home/ann/.ssh/id_rsa");
    assert_eq!(p.name, "");
    assert_eq!(Profile::blank("").key_path, "/.ssh/id_rsa");
    assert_eq!(p.duplicate(), p);
}
