//! The task envelope and the broker notification envelope.

use polymny::runner::Task;

#[test]
fn task_encode_shapes() {
    assert_eq!(Task::ProduceGos(42, 0).encode(), "{\"ProduceGos\":[42,0]}");
    assert_eq!(Task::ProduceCapsule(42).encode(), "{\"ProduceCapsule\":42}");
    assert_eq!(Task::PublishCapsule(-7).encode(), "{\"PublishCapsule\":-7}");
}

#[test]
fn task_round_trip() {
    let tasks = [
        Task::ProduceGos(42, 0),
        Task::ProduceGos(-3, 17),
        Task::ProduceCapsule(0),
        Task::ProduceCapsule(2147483647),
        Task::PublishCapsule(-2147483648),
    ];
    for t in tasks {
        let s = t.encode();
        assert_eq!(Task::decode(&s), Some(t));
    }
}

#[test]
fn task_decode_rejects_noise() {
    assert_eq!(Task::decode(""), None);
    assert_eq!(Task::decode("{\"ProduceCapsule\":}"), None);
    assert_eq!(Task::decode("{\"ProduceCapsule\":007}"), None);
    assert_eq!(Task::decode("{\"ProduceGos\":[1]}"), None);
    assert_eq!(Task::decode("{\"Unknown\":42}"), None);
    assert_eq!(Task::decode("{\"ProduceCapsule\":42} "), None);
}

#[test]
fn envelope_round_trip() {
    let payload = "{\"type\":\"capsule_production_progress\",\"id\":\"x42\",\"msg\":12.500}";
    let wrapped = polymny::notify::enrich_payload(payload, 31).unwrap();
    assert_eq!(
        wrapped,
        "{\"rabbitmq_user_id\":31,\"type\":\"capsule_production_progress\",\"id\":\"x42\",\"msg\":12.500}"
    );
    let (user, unwrapped) = polymny::notify::strip_payload(&wrapped).unwrap();
    assert_eq!(user, 31);
    assert_eq!(unwrapped, payload);
}

#[test]
fn envelope_round_trip_empty_object() {
    let wrapped = polymny::notify::enrich_payload("{}", -5).unwrap();
    assert_eq!(wrapped, "{\"rabbitmq_user_id\":-5}");
    let (user, unwrapped) = polymny::notify::strip_payload(&wrapped).unwrap();
    assert_eq!(user, -5);
    assert_eq!(unwrapped, "{}");
}

#[test]
fn envelope_rejects_malformed_payloads() {
    assert!(polymny::notify::enrich_payload("not json", 1).is_none());
    assert!(polymny::notify::enrich_payload("", 1).is_none());
    assert!(polymny::notify::strip_payload("{\"other\":1}").is_none());
}

#[test]
fn progress_messages() {
    assert_eq!(
        polymny::notify::capsule_production_progress_of("x42", 12_500),
        "{\"type\":\"capsule_production_progress\",\"id\":\"x42\",\"msg\":12.500}"
    );
    assert_eq!(
        polymny::notify::gos_production_progress_of("x42", 1, 99_999),
        "{\"type\":\"gos_production_progress\",\"id\":\"x42\",\"gos_id\":1,\"msg\":99.999}"
    );
    assert_eq!(
        polymny::notify::capsule_publication_progress_of("x42", 0),
        "{\"type\":\"capsule_publication_progress\",\"id\":\"x42\",\"msg\":0.000}"
    );
    assert_eq!(
        polymny::notify::video_upload_progress_of("x42", "s1", 50_000),
        "{\"type\":\"video_upload_progress\",\"id\":\"x42\",\"slide_id\":\"s1\",\"msg\":50.000}"
    );
    assert_eq!(
        polymny::notify::video_upload_finished_of("x42", "s1"),
        "{\"type\":\"video_upload_finished\",\"id\":\"x42\",\"slide_id\":\"s1\"}"
    );
    assert_eq!(
        polymny::notify::notification_of("title", "body"),
        "{\"type\":\"notification\",\"title\":\"title\",\"message\":\"body\",\"read\":false}"
    );
}

#[test]
fn json_strings_are_escaped() {
    assert_eq!(polymny::json::json_string_of("plain"), "\"plain\"");
    assert_eq!(polymny::json::json_string_of("a\"b\\c"), "\"a\\\"b\\\\c\"");
    assert_eq!(polymny::json::json_string_of("tab\there"), "\"tab\\there\"");
    assert_eq!(polymny::json::json_string_of("nl\n"), "\"nl\\n\"");
    assert_eq!(polymny::json::json_string_of("\u{1}"), "\"\\u0001\"");
    assert_eq!(polymny::json::json_string_of("\u{1f}"), "\"\\u001f\"");
}
