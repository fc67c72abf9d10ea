//! Parsers of the external tool's output, identifiers, and small helpers.

use polymny::error::{Error, ErrorKind};
use polymny::hls::Resolution;
use polymny::ids::Uuid;
use polymny::worker::{WorkerAction, WorkerSignal};

#[test]
fn duration_probe_parsing() {
    assert_eq!(polymny::text::parse_decimal_milli("42.3"), Some(42300));
    assert_eq!(polymny::text::parse_decimal_milli("0.0"), Some(0));
    assert_eq!(polymny::text::parse_decimal_milli("7"), Some(7000));
    assert_eq!(polymny::text::parse_decimal_milli("1.2344"), Some(1234));
    assert_eq!(polymny::text::parse_decimal_milli("1.2345"), Some(1235));
    assert_eq!(polymny::text::parse_decimal_milli("3."), Some(3000));
    assert_eq!(polymny::text::parse_decimal_milli(""), None);
    assert_eq!(polymny::text::parse_decimal_milli(".5"), None);
    assert_eq!(polymny::text::parse_decimal_milli("abc"), None);
    assert_eq!(polymny::text::parse_decimal_milli("1.2.3"), None);
}

#[test]
fn record_size_parsing() {
    assert_eq!(polymny::text::parse_record_size("1920x1080"), Some((1920, 1080)));
    assert_eq!(polymny::text::parse_record_size("640x360"), Some((640, 360)));
    assert_eq!(polymny::text::parse_record_size(""), None);
    assert_eq!(polymny::text::parse_record_size("x360"), None);
    assert_eq!(polymny::text::parse_record_size("640x"), None);
    assert_eq!(polymny::text::parse_record_size("640"), None);
    assert_eq!(polymny::text::parse_record_size("1x2x3"), None);
}

#[test]
fn number_formatting_and_parsing() {
    assert_eq!(polymny::text::fmt_u64(0), "0");
    assert_eq!(polymny::text::fmt_u64(90210), "90210");
    assert_eq!(polymny::text::fmt_i32(-42), "-42");
    assert_eq!(polymny::text::fmt_i32(-2147483648), "-2147483648");
    assert_eq!(polymny::text::fmt_milli(800), "0.800");
    assert_eq!(polymny::text::fmt_milli(1000), "1.000");
    assert_eq!(polymny::text::parse_u64("18446744073709551615"), Some(u64::MAX));
    assert_eq!(polymny::text::parse_u64("18446744073709551616"), None);
    assert_eq!(polymny::text::parse_i32("-2147483648"), Some(-2147483648));
    assert_eq!(polymny::text::parse_i32("2147483647"), Some(2147483647));
}

#[test]
fn uuid_formatting() {
    let u = Uuid::new(0x0123456789abcdef, 0xfedcba9876543210);
    assert_eq!(u.format(), "01234567-89ab-cdef-fedc-ba9876543210");
    let zero = Uuid::new(0, 0);
    assert_eq!(zero.format(), "00000000-0000-0000-0000-000000000000");
}

#[test]
fn accept_language_header() {
    let lang = polymny::config::Lang::from_header("fr-FR,fr;q=0.9,en;q=0.8");
    assert_eq!(lang.0, "fr-FR");
    let lang = polymny::config::Lang::from_header("en-US");
    assert_eq!(lang.0, "en-US");
    let lang = polymny::config::Lang::from_header("de;q=0.5");
    assert_eq!(lang.0, "de");
}

#[test]
fn disk_usage_accounting() {
    assert_eq!(polymny::config::disk_usage_mb(0), 0);
    assert_eq!(polymny::config::disk_usage_mb(123_456_789), 123);
    assert_eq!(polymny::config::disk_usage_mb(u64::MAX), i32::MAX);
    assert_eq!(polymny::config::total_bytes(&vec![]), 0);
    assert_eq!(polymny::config::total_bytes(&vec![1_000_000, 234_567, 1]), 1_234_568);
    assert_eq!(polymny::config::total_bytes(&vec![u64::MAX, 1]), u64::MAX);
    assert_eq!(
        polymny::config::disk_usage_mb(polymny::config::total_bytes(&vec![2_500_000, 2_500_000])),
        5
    );
}

#[test]
fn obfuscated_ids_agree_with_the_encoder() {
    let obf = polymny::hashid::Obfuscator::new(b"SECRET-REDACTED".to_vec(), 8).unwrap();
    let encoded = polymny::hashid::HashId(42).hash(&obf);

    // The same salt and length through the encoder crate itself give the
    // same text.
    let direct = harsh::Harsh::builder()
        .salt(b"SECRET-REDACTED".to_vec())
        .length(8)
        .build()
        .unwrap()
        .encode(&[42]);
    assert_eq!(encoded, direct);
    assert!(encoded.len() >= 8);

    // Decoding is the inverse.
    assert_eq!(obf.decode(&encoded).unwrap(), 42);
    assert!(obf.decode("!!!not-an-id!!!").is_err());
}

#[test]
fn hash_with_explicit_secret() {
    let a = polymny::hashid::HashId(7).hash_with_secret("s1", 12).unwrap();
    let b = polymny::hashid::HashId(7).hash_with_secret("s1", 12).unwrap();
    let c = polymny::hashid::HashId(7).hash_with_secret("s2", 12).unwrap();
    assert_eq!(a, b);
    assert_ne!(a, c);
    assert!(a.len() >= 12);
}

#[test]
fn worker_priority_formula() {
    let node = polymny::worker::NodeState::new(4, String::from("tag"));
    assert_eq!(node.priority(), 8192 * 4 - 0);
    let mut node = polymny::worker::NodeState::new(4, String::from("tag"));
    node.increase_tasks();
    assert_eq!(node.priority(), 8192 * 4 / 2 - 1);
    node.increase_tasks();
    assert_eq!(node.priority(), 8192 * 4 / 4 - 2);
    node.decrease_tasks();
    assert_eq!(node.priority(), 8192 * 4 / 2 - 1);
}

#[test]
fn worker_drain_on_terminate() {
    let mut node = polymny::worker::NodeState::new(2, String::from("tag"));
    node.increase_tasks();
    assert_eq!(node.on_signal(WorkerSignal::Hangup), WorkerAction::Continue);
    assert!(node.accept_tasks);
    assert_eq!(node.on_signal(WorkerSignal::Terminate), WorkerAction::CancelConsumer);
    assert!(!node.accept_tasks);
    assert!(node.consumer_priority().is_none());
    assert!(!node.is_finished());
    node.decrease_tasks();
    assert!(node.is_finished());
}

#[test]
fn resolutions() {
    assert!(matches!(Resolution::from_m3u8_name("360p.m3u8"), Some(Resolution::R360p)));
    assert!(matches!(Resolution::from_m3u8_name("480p.m3u8"), Some(Resolution::R480p)));
    assert!(matches!(Resolution::from_m3u8_name("720p.m3u8"), Some(Resolution::R720p)));
    assert!(Resolution::from_m3u8_name("1080p.m3u8").is_none());
    assert_eq!(Resolution::R360p.size(), (640, 360));
    assert_eq!(Resolution::R480p.size(), (842, 480));
    assert_eq!(Resolution::R720p.size(), (1280, 720));
    assert_eq!(Resolution::R360p.bitrate(), 800000);
    assert_eq!(Resolution::R480p.bitrate(), 1400000);
    assert_eq!(Resolution::R720p.bitrate(), 2800000);
    assert_eq!(Resolution::all().len(), 3);
}

#[test]
fn miniature_sprite_keys() {
    let keys = polymny::hls::miniature_keys(42);
    assert_eq!(keys.len(), 101);
    assert_eq!(keys[0], "42/published/miniature-000.png");
    assert_eq!(keys[7], "42/published/miniature-007.png");
    assert_eq!(keys[100], "42/published/miniature-100.png");
}

#[test]
fn tool_argv() {
    assert_eq!(polymny::tool::tool_program(), "../scripts/popy.py");
    assert_eq!(polymny::tool::produce_gos_args(42, 3), vec!["produce", "gos", "-c", "42", "-g", "3"]);
    assert_eq!(polymny::tool::produce_capsule_args(42), vec!["produce", "capsule", "-c", "42"]);
    assert_eq!(
        polymny::tool::publish_args("in.mp4", "out", 42, true),
        vec!["publish", "-i", "in.mp4", "-o", "out", "-c", "42", "-p"]
    );
    assert_eq!(
        polymny::tool::publish_args("in.mp4", "out", 42, false),
        vec!["publish", "-i", "in.mp4", "-o", "out", "-c", "42"]
    );
    assert_eq!(polymny::tool::duration_args("a.mp4"), vec!["duration", "-f", "a.mp4"]);
    assert_eq!(
        polymny::tool::convert_video_args("raw", "cooked.mp4"),
        vec!["convert", "video", "-i", "raw", "-o", "cooked.mp4"]
    );
}

#[test]
fn error_status_codes() {
    assert_eq!(Error(ErrorKind::ClientInput).status_code(), 400);
    assert_eq!(Error(ErrorKind::Conflict).status_code(), 409);
    assert_eq!(Error(ErrorKind::NotAuthorized).status_code(), 401);
    assert_eq!(Error(ErrorKind::NotFound).status_code(), 404);
    assert_eq!(Error(ErrorKind::ExternalTool).status_code(), 500);
    assert_eq!(Error(ErrorKind::Storage).status_code(), 500);
    assert_eq!(Error(ErrorKind::Persistence).status_code(), 500);
    assert_eq!(Error(ErrorKind::BrokerTransient).status_code(), 500);
}
