//! Participants, roles, state transitions, and capsule edits.

use polymny::capsule::{Capsule, Gos, Privacy, Role, Slide};
use polymny::error::{Error, ErrorKind};
use polymny::ids::Uuid;
use polymny::task_status::TaskStatus;

fn capsule() -> Capsule {
    Capsule::new(1, String::from("p"), String::from("c"), 10, 0)
}

#[test]
fn exactly_one_owner() {
    let mut c = capsule();
    assert_eq!(c.owner().unwrap(), 10);

    // A second owner can never appear.
    assert_eq!(c.add_user(11, Role::Owner), Err(Error(ErrorKind::ClientInput)));
    assert!(c.add_user(11, Role::Write).is_ok());
    assert!(c.add_user(12, Role::Read).is_ok());
    assert_eq!(c.add_user(11, Role::Read), Err(Error(ErrorKind::ClientInput)));
    assert_eq!(c.update_role(11, Role::Owner), Err(Error(ErrorKind::ClientInput)));
    assert!(c.update_role(11, Role::Read).is_ok());

    // The only owner can never be removed or demoted.
    assert_eq!(c.remove_user(10), Err(Error(ErrorKind::ClientInput)));
    assert_eq!(c.update_role(10, Role::Read), Err(Error(ErrorKind::ClientInput)));
    assert!(c.remove_user(12).is_ok());
    assert_eq!(c.owner().unwrap(), 10);
}

#[test]
fn role_ranks() {
    assert!(Role::Owner.grants(Role::Write));
    assert!(Role::Owner.grants(Role::Read));
    assert!(Role::Write.grants(Role::Read));
    assert!(!Role::Read.grants(Role::Write));
    assert!(!Role::Write.grants(Role::Owner));
}

#[test]
fn publication_needs_a_produced_capsule() {
    let mut c = capsule();
    assert_eq!(c.start_publication(), Err(Error(ErrorKind::Conflict)));
    c.produced = TaskStatus::Done;
    assert!(c.start_publication().is_ok());
    assert_eq!(c.published, TaskStatus::Running);

    // Never published while not produced: restarting a production resets
    // the publication.
    c.published = TaskStatus::Done;
    assert!(c.start_production().is_ok());
    assert_eq!(c.produced, TaskStatus::Running);
    assert_eq!(c.published, TaskStatus::Idle);
}

#[test]
fn no_concurrent_productions() {
    let mut c = capsule();
    assert!(c.start_production().is_ok());
    assert_eq!(c.start_production(), Err(Error(ErrorKind::Conflict)));

    let mut c = capsule();
    c.structure.push(Gos::new());
    assert!(c.start_gos_production(0).is_ok());
    assert_eq!(c.start_gos_production(0), Err(Error(ErrorKind::Conflict)));
    assert_eq!(c.start_production(), Err(Error(ErrorKind::Conflict)));
    assert_eq!(c.start_gos_production(5), Err(Error(ErrorKind::ClientInput)));
}

#[test]
fn cancel_requires_a_running_task_with_a_pid() {
    let mut c = capsule();
    assert_eq!(c.cancel_production(), Err(Error(ErrorKind::Conflict)));
    assert!(c.start_production().is_ok());
    assert_eq!(c.cancel_production(), Err(Error(ErrorKind::Conflict)));
    c.set_production_pid(Some(5));
    assert_eq!(c.cancel_production(), Ok(5));
    assert_eq!(c.cancel_publication(), Err(Error(ErrorKind::Conflict)));
    assert_eq!(c.cancel_video_upload(), Err(Error(ErrorKind::Conflict)));
}

#[test]
fn unpublish_requires_published() {
    let mut c = capsule();
    assert_eq!(c.unpublish(), Err(Error(ErrorKind::ClientInput)));
    c.produced = TaskStatus::Done;
    c.published = TaskStatus::Done;
    assert!(c.unpublish().is_ok());
    assert_eq!(c.published, TaskStatus::Idle);
}

#[test]
fn structure_edits() {
    let mut c = capsule();
    assert!(c.add_gos_at(0).is_ok());
    assert!(c.add_gos_at(1).is_ok());
    assert_eq!(c.add_gos_at(5), Err(Error(ErrorKind::ClientInput)));
    assert_eq!(c.structure.len(), 2);

    let uuids = vec![Uuid::new(1, 1), Uuid::new(2, 2)];
    assert!(c.add_slides_to_gos(0, &uuids).is_ok());
    assert_eq!(c.structure[0].slides.len(), 2);
    assert_eq!(c.structure[0].slides[0].uuid, Uuid::new(1, 1));
    assert!(c.structure[0].record.is_none());

    assert!(c.set_record(0, Uuid::new(3, 3), Some((640, 480))).is_ok());
    assert!(c.structure[0].record.is_some());
    assert!(c.set_pointer(0, Uuid::new(4, 4)).is_ok());
    assert_eq!(c.structure[0].record.as_ref().unwrap().pointer_uuid, Some(Uuid::new(4, 4)));
    assert!(c.delete_record(0).is_ok());
    assert!(c.structure[0].record.is_none());
    assert_eq!(c.set_pointer(0, Uuid::new(4, 4)), Err(Error(ErrorKind::ClientInput)));

    // A record without video disables the webcam.
    assert!(c.set_record(1, Uuid::new(6, 6), None).is_ok());
    assert!(matches!(
        c.structure[1].webcam_settings,
        Some(polymny::capsule::WebcamSettings::Disabled)
    ));
}

#[test]
fn sound_track_keeps_volume() {
    let mut c = capsule();
    c.set_sound_track(Uuid::new(1, 1), String::from("first.m4a"));
    assert_eq!(c.sound_track.as_ref().unwrap().volume, 800);
    c.sound_track.as_mut().unwrap().volume = 500;
    c.set_sound_track(Uuid::new(2, 2), String::from("second.m4a"));
    let t = c.sound_track.as_ref().unwrap();
    assert_eq!(t.volume, 500);
    assert_eq!(t.uuid, Uuid::new(2, 2));
    assert_eq!(t.name, "second.m4a");
}

#[test]
fn duplicate_copies_content_not_participants() {
    let mut c = capsule();
    c.privacy = Privacy::Private;
    c.produced = TaskStatus::Done;
    c.duration_ms = 5000;
    let mut g = Gos::new();
    g.slides.push(Slide { uuid: Uuid::new(1, 1), extra: None, prompt: String::from("p") });
    c.structure.push(g);
    assert!(c.add_user(11, Role::Write).is_ok());

    let copy = c.duplicate(2, 99, 123);
    assert_eq!(copy.id, 2);
    assert_eq!(copy.name, "c (copie)");
    assert_eq!(copy.privacy, Privacy::Private);
    assert_eq!(copy.produced, TaskStatus::Done);
    assert_eq!(copy.duration_ms, 5000);
    assert_eq!(copy.structure.len(), 1);
    assert_eq!(copy.structure[0].slides[0].prompt, "p");
    assert_eq!(copy.users, vec![(99, Role::Owner)]);
    assert!(copy.produced_hash.is_none());
    assert_eq!(copy.disk_usage, 0);
}

#[test]
fn permission_and_watch_access() {
    let mut c = capsule();
    assert!(c.add_user(11, Role::Read).is_ok());
    assert_eq!(c.permission(10, Role::Owner), Ok(Role::Owner));
    assert_eq!(c.permission(11, Role::Read), Ok(Role::Read));
    assert_eq!(c.permission(11, Role::Write), Err(Error(ErrorKind::NotAuthorized)));
    assert_eq!(c.permission(99, Role::Read), Err(Error(ErrorKind::NotAuthorized)));

    // An unpublished capsule cannot be watched at all.
    assert_eq!(c.watch_access(Some(10)), Err(Error(ErrorKind::NotFound)));
    c.published = TaskStatus::Done;
    assert_eq!(c.watch_access(None), Ok(Role::Read));
    c.privacy = Privacy::Private;
    assert_eq!(c.watch_access(None), Err(Error(ErrorKind::NotAuthorized)));
    assert_eq!(c.watch_access(Some(99)), Err(Error(ErrorKind::NotAuthorized)));
    assert_eq!(c.watch_access(Some(11)), Ok(Role::Read));
    assert_eq!(c.watch_access(Some(10)), Ok(Role::Owner));
}

#[test]
fn openid_surface() {
    let o = polymny::openid::OpenId {
        only: true,
        root: String::from("https://idp.internal"),
        public_root: String::from("https://idp.example.com"),
        client: String::from("polymny"),
        secret: String::from("SECRET-REDACTED"),
        validation: String::from("KEY"),
        http_proxy: None,
        https_proxy: None,
    };
    assert_eq!(o.token_route(), "https://idp.internal/protocol/openid-connect/token");
    assert_eq!(
        o.to_json(),
        "{\"only\":true,\"root\":\"https://idp.example.com\",\"client\":\"polymny\"}"
    );
    let req = o.token_request(String::from("https://app/cb"), String::from("CODE"));
    assert_eq!(req.grant_type, "authorization_code");
    assert_eq!(req.client_id, "polymny");
    assert_eq!(req.redirect_uri, "https://app/cb");
    assert_eq!(req.code, "CODE");
}
