//! End-to-end scenarios over the capsule pipeline.

use polymny::capsule::{Capsule, Gos, Privacy, Role, Slide, WebcamSettings};
use polymny::edit::CapsuleEdit;
use polymny::ids::Uuid;
use polymny::task_status::TaskStatus;

fn slide(uuid: Uuid) -> Slide {
    Slide { uuid, extra: None, prompt: String::new() }
}

fn one_slide_gos(uuid: Uuid) -> Gos {
    let mut g = Gos::new();
    g.slides.push(slide(uuid));
    g
}

#[test]
fn empty_capsule_edit_and_save() {
    let alice = 7;
    let mut capsule = Capsule::new(1, String::from("demo"), String::from("lesson1"), alice, 1000);
    assert_eq!(capsule.produced, TaskStatus::Idle);
    assert_eq!(capsule.published, TaskStatus::Idle);
    assert_eq!(capsule.video_uploaded, TaskStatus::Idle);

    let a = Uuid::new(0xa, 0xa);
    let edit = CapsuleEdit {
        project: String::from("demo"),
        name: String::from("lesson1"),
        privacy: Privacy::Public,
        prompt_subtitles: true,
        structure: vec![one_slide_gos(a)],
        webcam_settings: WebcamSettings::pip_default(),
        sound_track: None,
    };
    capsule.apply_edit(edit, 1001);
    assert_eq!(capsule.structure.len(), 1);
    assert_eq!(capsule.structure[0].slides.len(), 1);
    assert_eq!(capsule.last_modified, 1001);

    // The capsule change fans out to alice alone, with her role.
    let targets = capsule.fanout_targets();
    assert_eq!(targets, vec![alice]);
    assert!(matches!(capsule.role_of(alice), Some(Role::Owner)));

    let deliveries = capsule.capsule_changed_messages(
        "x7",
        &vec![String::from("alice")],
        &vec![None],
        &None,
        &None,
    );
    assert_eq!(deliveries.len(), 1);
    assert_eq!(deliveries[0].0, alice);
    let msg = &deliveries[0].1;
    assert!(msg.starts_with("{\"type\":\"capsule_changed\",\"id\":\"x7\""));
    assert!(msg.contains("\"role\":\"owner\""));
    assert!(msg.contains("\"produced\":\"idle\""));
    assert!(msg.contains("\"produced_presign\":null"));
    assert!(msg.ends_with("\"output_presign\":null,\"sound_track_presign\":null}"));
    assert!(msg.contains(
        "\"slides\":[{\"uuid\":\"00000000-0000-000a-0000-00000000000a\",\"extra\":null,\"prompt\":\"\"}]"
    ));
    assert!(msg.contains("\"users\":[{\"username\":\"alice\",\"role\":\"owner\"}]"));
}

fn two_gos_capsule() -> Capsule {
    let mut capsule = Capsule::new(42, String::from("p"), String::from("c"), 1, 0);
    capsule.structure.push(one_slide_gos(Uuid::new(1, 1)));
    capsule.structure.push(one_slide_gos(Uuid::new(2, 2)));
    capsule
}

#[test]
fn produce_two_gos_capsule() {
    let mut capsule = two_gos_capsule();
    assert!(capsule.start_production().is_ok());
    assert_eq!(capsule.produced, TaskStatus::Running);
    assert_eq!(capsule.published, TaskStatus::Idle);

    capsule.set_production_pid(Some(1234));
    let mut popy = capsule.popy();

    // The encoder reports a monotone progress stream.
    let lines = ["0.0", "12.5", "54.321", "100.0"];
    let mut last = 0u64;
    for line in lines {
        let v = polymny::text::parse_decimal_milli(line).unwrap();
        assert!(v >= last);
        last = v;
    }
    assert_eq!(last, 100_000);

    let actions = capsule.finish_capsule_production(&mut popy, true).unwrap();
    assert_eq!(actions.len(), 2);

    // Every grain is uploaded under its content hash.
    let h0 = capsule.structure[0].produced_hash.clone().unwrap();
    let h1 = capsule.structure[1].produced_hash.clone().unwrap();
    assert_eq!(actions[0].upload.clone().unwrap(), format!("42/produced/{}.mp4", h0));
    assert_eq!(actions[1].upload.clone().unwrap(), format!("42/produced/{}.mp4", h1));
    assert!(actions[0].remove.is_none());
    assert!(actions[1].remove.is_none());
    assert_eq!(polymny::artifact::capsule_artifact_key_of(42), "42/produced/capsule.mp4");

    // The duration probe sets the measured duration.
    assert!(capsule.set_duration_from_probe("42.3").is_ok());
    assert_eq!(capsule.duration_ms, 42300);

    assert_eq!(capsule.produced, TaskStatus::Done);
    assert_eq!(capsule.structure[0].produced, TaskStatus::Done);
    assert_eq!(capsule.structure[1].produced, TaskStatus::Done);
    assert!(capsule.production_pid.is_none());
    assert!(capsule.produced_hash.is_some());

    let done = polymny::notify::capsule_production_finished_of("x42");
    assert_eq!(done, "{\"type\":\"capsule_production_finished\",\"id\":\"x42\"}");
}

#[test]
fn edit_then_reproduce_stable_gos() {
    let mut capsule = two_gos_capsule();
    assert!(capsule.start_production().is_ok());
    let mut popy = capsule.popy();
    capsule.finish_capsule_production(&mut popy, true).unwrap();
    let h0 = capsule.structure[0].produced_hash.clone().unwrap();
    let h1 = capsule.structure[1].produced_hash.clone().unwrap();

    // Edit only the second grain.
    capsule.structure[1].slides[0].prompt = String::from("changed");

    assert!(capsule.start_production().is_ok());
    let mut popy = capsule.popy();
    let actions = capsule.finish_capsule_production(&mut popy, true).unwrap();

    // The untouched grain keeps its hash: same key overwritten, nothing
    // removed.
    let h0b = capsule.structure[0].produced_hash.clone().unwrap();
    assert_eq!(h0, h0b);
    assert_eq!(actions[0].upload.clone().unwrap(), format!("42/produced/{}.mp4", h0));
    assert!(actions[0].remove.is_none());

    // The edited grain moves to a new hash: upload the new, delete the old.
    let h1b = capsule.structure[1].produced_hash.clone().unwrap();
    assert_ne!(h1, h1b);
    assert_eq!(actions[1].upload.clone().unwrap(), format!("42/produced/{}.mp4", h1b));
    assert_eq!(actions[1].remove.clone().unwrap(), format!("42/produced/{}.mp4", h1));
}

#[test]
fn publish_after_produce() {
    let mut capsule = two_gos_capsule();
    assert!(capsule.start_production().is_ok());
    let mut popy = capsule.popy();
    capsule.finish_capsule_production(&mut popy, true).unwrap();
    assert_eq!(capsule.produced, TaskStatus::Done);

    assert!(capsule.start_publication().is_ok());
    assert_eq!(capsule.published, TaskStatus::Running);
    capsule.set_publication_pid(Some(99));
    capsule.finish_publication(true);
    assert_eq!(capsule.published, TaskStatus::Done);
    assert!(capsule.publication_pid.is_none());
    assert_eq!(polymny::artifact::published_prefix_of(42), "42/published");

    let done = polymny::notify::capsule_publication_finished_of("x42");
    assert_eq!(done, "{\"type\":\"capsule_publication_finished\",\"id\":\"x42\"}");

    // The master manifest is the fixed three-rung literal.
    let master = polymny::hls::master_manifest();
    assert!(master.starts_with("#EXTM3U\n#EXT-X-VERSION:3\n"));
    assert!(master.contains("BANDWIDTH=800000,RESOLUTION=640x360\n360p.m3u8"));
    assert!(master.contains("BANDWIDTH=1400000,RESOLUTION=842x480\n480p.m3u8"));
    assert!(master.contains("BANDWIDTH=2800000,RESOLUTION=1280x720\n720p.m3u8"));

    // A rung manifest is rewritten line by line: comments pass through,
    // segment lines become presigned URLs.
    let lines = polymny::hls::split_lines_of("#EXTM3U\n#EXTINF:4.0,\nseg-000.ts\n#EXT-X-ENDLIST");
    let keys = polymny::hls::manifest_segment_keys(42, &lines);
    assert_eq!(keys, vec![String::from("42/published/seg-000.ts")]);
    let rewritten = polymny::hls::rewrite_manifest(
        &lines,
        &vec![String::from("https://bucket/seg-000.ts?sig=SECRET-REDACTED")],
    );
    assert_eq!(
        rewritten,
        "#EXTM3U\n#EXTINF:4.0,\nhttps://bucket/seg-000.ts?sig=SECRET-REDACTED\n#EXT-X-ENDLIST\n"
    );
}

#[test]
fn cancellation_mid_production() {
    let mut capsule = two_gos_capsule();
    assert!(capsule.start_production().is_ok());
    capsule.set_production_pid(Some(4242));

    // The client cancels: the recorded pid is the one to signal.
    let pid = capsule.cancel_production().unwrap();
    assert_eq!(pid, 4242);

    // The killed encoder exits with an error; the production finalizes as
    // a failure.
    let mut popy = capsule.popy();
    let actions = capsule.finish_capsule_production(&mut popy, false).unwrap();
    assert!(actions.is_empty());
    assert_eq!(capsule.produced, TaskStatus::Idle);
    assert!(capsule.production_pid.is_none());

    // A partial artifact left behind is unreachable and collected at the
    // next sweep.
    let existing = vec![String::from("42/produced/0123abcd.mp4")];
    let plan = polymny::gc::gc_plan(&capsule, &existing);
    assert_eq!(plan, existing);
}

#[test]
fn gc_with_concurrent_video_upload() {
    let mut capsule = two_gos_capsule();
    capsule.start_video_upload(Some(777));
    assert_eq!(capsule.video_uploaded, TaskStatus::Running);

    // While the transcode runs, the extension-less temporary file is kept.
    let existing = vec![String::from("42/assets/partial")];
    let plan = polymny::gc::gc_plan(&capsule, &existing);
    assert!(plan.is_empty());

    // The transcode finishes and attaches the output to the slide.
    let slide_uuid = Uuid::new(1, 1);
    let output = Uuid::new(0xee, 0xee);
    let found = capsule.finish_video_upload(&slide_uuid, &output, true);
    assert!(found);
    assert_eq!(capsule.video_uploaded, TaskStatus::Done);
    assert_eq!(capsule.structure[0].slides[0].extra, Some(output));

    // The finished file has an extension now: it stays while referenced by
    // the slide, and goes once the reference is dropped.
    let referenced = vec![polymny::artifact::asset_mp4_key_of(42, &output)];
    let plan = polymny::gc::gc_plan(&capsule, &referenced);
    assert!(plan.is_empty());

    capsule.structure[0].slides[0].extra = None;
    let plan = polymny::gc::gc_plan(&capsule, &referenced);
    assert_eq!(plan, referenced);
}

#[test]
fn gc_keeps_exactly_the_reachable_set() {
    let mut capsule = Capsule::new(7, String::from("p"), String::from("c"), 1, 0);
    let slide_id = Uuid::new(0xa, 1);
    let extra = Uuid::new(0xb, 2);
    let record = Uuid::new(0xc, 3);
    let pointer = Uuid::new(0xd, 4);
    let track = Uuid::new(0xe, 5);
    let mut g = one_slide_gos(slide_id);
    g.slides[0].extra = Some(extra);
    g.record = Some(polymny::capsule::Record {
        uuid: record,
        pointer_uuid: Some(pointer),
        size: Some((640, 480)),
    });
    capsule.structure.push(g);
    capsule.set_sound_track(track, String::from("track.m4a"));

    let orphan = String::from("7/assets/zzz.webp");
    let existing = vec![
        polymny::artifact::asset_m4a_key_of(7, &track),
        polymny::artifact::asset_webm_key_of(7, &record),
        polymny::artifact::asset_webp_key_of(7, &record),
        polymny::artifact::asset_webm_key_of(7, &pointer),
        polymny::artifact::asset_webp_key_of(7, &slide_id),
        polymny::artifact::asset_mp4_key_of(7, &extra),
        orphan.clone(),
    ];

    // Exactly the unreachable key leaves; the reachable set survives.
    let plan = polymny::gc::gc_plan(&capsule, &existing);
    assert_eq!(plan, vec![orphan]);
}

#[test]
fn served_capsule_carries_presigned_urls() {
    let mut capsule = two_gos_capsule();
    assert!(capsule.start_production().is_ok());
    let mut popy = capsule.popy();
    capsule.finish_capsule_production(&mut popy, true).unwrap();

    // The object-storage edge issues one URL per produced grain, one for
    // the capsule output and one for the sound track; the view embeds
    // them verbatim.
    let served = capsule.to_json(
        Role::Read,
        "x42",
        &vec![String::from("alice")],
        &vec![Some(String::from("https://bucket/g0.mp4?sig=SECRET-REDACTED")), None],
        &Some(String::from("https://bucket/capsule.mp4?sig=SECRET-REDACTED")),
        &None,
    );
    assert!(served.contains(
        "\"produced_presign\":\"https://bucket/g0.mp4?sig=SECRET-REDACTED\""
    ));
    assert!(served.contains("\"produced_presign\":null"));
    assert!(served.ends_with(
        "\"output_presign\":\"https://bucket/capsule.mp4?sig=SECRET-REDACTED\",\"sound_track_presign\":null}"
    ));
}

#[test]
fn gc_keeps_live_artifacts_and_removes_stale_ones() {
    let mut capsule = two_gos_capsule();
    assert!(capsule.start_production().is_ok());
    let mut popy = capsule.popy();
    capsule.finish_capsule_production(&mut popy, true).unwrap();
    let h0 = capsule.structure[0].produced_hash.clone().unwrap();

    // The artifacts named by the current hashes and the capsule output are
    // reachable; an artifact under a stale hash is swept, even while an
    // extra video is being transcoded, because it carries an extension.
    capsule.start_video_upload(Some(7));
    let live = format!("42/produced/{}.mp4", h0);
    let stale = String::from("42/produced/00ff00ff.mp4");
    let existing = vec![
        live.clone(),
        String::from("42/produced/capsule.mp4"),
        stale.clone(),
    ];
    let plan = polymny::gc::gc_plan(&capsule, &existing);
    assert_eq!(plan, vec![stale]);
}
