//! Content addressing: hashes agree with an independent digest of the
//! canonical JSON, and refreshing is idempotent.

use polymny::capsule::{Capsule, Event, EventType, Gos, Slide};
use polymny::error::{Error, ErrorKind};
use polymny::ids::Uuid;
use polymny::task_status::TaskStatus;

fn capsule_with_one_gos() -> Capsule {
    let mut capsule = Capsule::new(42, String::from("p"), String::from("c"), 1, 0);
    let mut g = Gos::new();
    g.slides.push(Slide { uuid: Uuid::new(5, 6), extra: None, prompt: String::from("hello") });
    capsule.structure.push(g);
    capsule
}

#[test]
fn gos_hash_is_digest_of_canonical_json() {
    let capsule = capsule_with_one_gos();
    let mut popy = capsule.popy();
    let h = popy.refresh_gos_hash(0).unwrap();

    // Recompute the digest independently: the canonical JSON of the
    // folded grain with its hash elided, through the digest crate itself.
    let mut seed = capsule.structure[0].clone();
    seed.webcam_settings = Some(capsule.webcam_settings.clone());
    seed.produced = TaskStatus::Idle;
    seed.produced_hash = None;
    let expected = sha256::digest(seed.to_json());
    assert_eq!(h, expected);
    assert_eq!(h.len(), 64);
}

#[test]
fn capsule_hash_is_digest_of_descriptor() {
    let capsule = capsule_with_one_gos();
    let mut popy = capsule.popy();
    popy.refresh_gos_hash(0).unwrap();
    let descriptor_with_null_hash = {
        // The capsule-level hash is elided from the hashed text.
        let before = popy.to_string();
        assert!(before.ends_with(",\"produced_hash\":null}"));
        before
    };
    let h = popy.refresh_hash();
    assert_eq!(h, sha256::digest(descriptor_with_null_hash));
    let after = popy.to_string();
    assert!(after.ends_with(&format!(",\"produced_hash\":\"{}\"}}", h)));
}

#[test]
fn refresh_gos_hash_twice_is_stable() {
    let capsule = capsule_with_one_gos();
    let mut popy = capsule.popy();
    let h1 = popy.refresh_gos_hash(0).unwrap();
    let h2 = popy.refresh_gos_hash(0).unwrap();
    assert_eq!(h1, h2);
}

#[test]
fn event_order_changes_the_hash() {
    let mut capsule = capsule_with_one_gos();
    let e1 = Event { ty: EventType::Start, time: 0, extra_time: None };
    let e2 = Event { ty: EventType::NextSlide, time: 100, extra_time: None };
    capsule.structure[0].events.push(e1);
    capsule.structure[0].events.push(e2);
    let mut popy = capsule.popy();
    let h_ordered = popy.refresh_gos_hash(0).unwrap();

    // Two capsules differing only in event order hash differently: events
    // are not reordered by time.
    capsule.structure[0].events.clear();
    capsule.structure[0].events.push(e2);
    capsule.structure[0].events.push(e1);
    let mut popy = capsule.popy();
    let h_swapped = popy.refresh_gos_hash(0).unwrap();
    assert_ne!(h_ordered, h_swapped);
}

#[test]
fn gos_production_actions_skip_unchanged_hash() {
    let fresh = String::from("aaaa");
    let a = polymny::artifact::gos_production_actions(42, &Some(String::from("aaaa")), &fresh);
    assert!(a.upload.is_none());
    assert!(a.remove.is_none());

    let b = polymny::artifact::gos_production_actions(42, &Some(String::from("bbbb")), &fresh);
    assert_eq!(b.upload.unwrap(), "42/produced/aaaa.mp4");
    assert_eq!(b.remove.unwrap(), "42/produced/bbbb.mp4");

    let c = polymny::artifact::gos_production_actions(42, &None, &fresh);
    assert_eq!(c.upload.unwrap(), "42/produced/aaaa.mp4");
    assert!(c.remove.is_none());
}

#[test]
fn capsule_production_always_overwrites_the_key() {
    let fresh = String::from("aaaa");
    let a = polymny::artifact::capsule_gos_production_actions(
        42,
        &Some(String::from("aaaa")),
        &fresh,
    );
    assert_eq!(a.upload.unwrap(), "42/produced/aaaa.mp4");
    assert!(a.remove.is_none());

    let b = polymny::artifact::capsule_gos_production_actions(
        42,
        &Some(String::from("bbbb")),
        &fresh,
    );
    assert_eq!(b.upload.unwrap(), "42/produced/aaaa.mp4");
    assert_eq!(b.remove.unwrap(), "42/produced/bbbb.mp4");
}

#[test]
fn zero_gos_capsule_produces_cleanly() {
    let mut capsule = Capsule::new(42, String::from("p"), String::from("c"), 1, 0);
    assert!(capsule.start_production().is_ok());
    let mut popy = capsule.popy();
    let actions = capsule.finish_capsule_production(&mut popy, true).unwrap();
    assert!(actions.is_empty());
    assert_eq!(capsule.produced, TaskStatus::Done);
    assert!(capsule.produced_hash.is_some());

    // And a clean failure leaves no partial state behind.
    let mut capsule = Capsule::new(43, String::from("p"), String::from("c"), 1, 0);
    assert!(capsule.start_production().is_ok());
    let mut popy = capsule.popy();
    let actions = capsule.finish_capsule_production(&mut popy, false).unwrap();
    assert!(actions.is_empty());
    assert_eq!(capsule.produced, TaskStatus::Idle);
    assert!(capsule.produced_hash.is_none());
}

#[test]
fn record_without_slides_is_permitted() {
    let mut capsule = Capsule::new(42, String::from("p"), String::from("c"), 1, 0);
    let mut g = Gos::new();
    g.record = Some(polymny::capsule::Record {
        uuid: Uuid::new(9, 9),
        pointer_uuid: None,
        size: Some((640, 480)),
    });
    capsule.structure.push(g);
    let mut popy = capsule.popy();

    // The encoder receives an empty slide list.
    assert!(popy.to_string().contains("\"slides\":[]"));
    assert!(popy.refresh_gos_hash(0).is_some());
}

#[test]
fn bad_probe_output_is_a_tool_error() {
    let mut capsule = Capsule::new(42, String::from("p"), String::from("c"), 1, 0);
    assert_eq!(
        capsule.set_duration_from_probe("garbage"),
        Err(Error(ErrorKind::ExternalTool))
    );
    assert_eq!(capsule.duration_ms, 0);
}

#[test]
fn rebase_keys_for_directory_copies() {
    let r = polymny::artifact::rebase_key("7/assets/a.webp", "7/", "9/");
    assert_eq!(r.unwrap(), "9/assets/a.webp");
    assert!(polymny::artifact::rebase_key("8/assets/a.webp", "7/", "9/").is_none());
    assert!(polymny::artifact::rebase_key("7", "7/", "9/").is_none());
}

#[test]
fn gos_production_failure_leaves_grain_idle() {
    let mut capsule = capsule_with_one_gos();
    assert!(capsule.start_gos_production(0).is_ok());
    assert_eq!(capsule.structure[0].produced, TaskStatus::Running);
    let mut popy = capsule.popy();
    let actions = capsule.finish_gos_production(&mut popy, 0, false).unwrap();
    assert!(actions.upload.is_none());
    assert!(actions.remove.is_none());
    assert_eq!(capsule.structure[0].produced, TaskStatus::Idle);
}

#[test]
fn gos_production_success_stores_hash_and_uploads() {
    let mut capsule = capsule_with_one_gos();
    assert!(capsule.start_gos_production(0).is_ok());
    let mut popy = capsule.popy();
    let actions = capsule.finish_gos_production(&mut popy, 0, true).unwrap();
    let h = capsule.structure[0].produced_hash.clone().unwrap();
    assert_eq!(actions.upload.unwrap(), format!("42/produced/{}.mp4", h));
    assert!(actions.remove.is_none());
    assert_eq!(capsule.structure[0].produced, TaskStatus::Done);
    let done = polymny::notify::gos_production_finished_of("x42", 0);
    assert_eq!(done, "{\"type\":\"gos_production_finished\",\"id\":\"x42\",\"gos_id\":0}");
}
