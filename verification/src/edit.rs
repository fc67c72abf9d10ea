//! Editing a capsule: applying a client edit, growing the structure,
//! attaching records, pointers and sound tracks, and duplicating a
//! capsule.

use vstd::prelude::*;

use crate::capsule::{
    gos_like, Capsule, Gos, Privacy, Record, Role, Slide, SoundTrack, WebcamSettings,
};
use crate::error::{Error, ErrorKind};
use crate::ids::Uuid;
use crate::task_status::TaskStatus;

verus! {

/// The content of a capsule edit: everything a writer can change at once.
#[derive(Debug)]
pub struct CapsuleEdit {
    /// The new name of the project.
    pub project: String,

    /// The new name of the capsule.
    pub name: String,

    /// The privacy of the capsule.
    pub privacy: Privacy,

    /// Whether the subtitles should be generated from the prompt.
    pub prompt_subtitles: bool,

    /// The new structure of the capsule.
    pub structure: Vec<Gos>,

    /// The new default webcam settings.
    pub webcam_settings: WebcamSettings,

    /// The new sound track.
    pub sound_track: Option<SoundTrack>,
}

/// One grain per slide: the structure of a capsule freshly created from a
/// deck of slides.
pub fn gos_from_slide_uuids(uuids: &Vec<Uuid>) -> (r: Vec<Gos>)
    ensures
        r@.len() == uuids@.len(),
        forall|i: int|
            0 <= i < uuids@.len() ==> {
                let g = #[trigger] r@[i];
                {
                    &&& g.record == None::<Record>
                    &&& g.slides@.len() == 1
                    &&& g.slides@[0].uuid == uuids@[i]
                    &&& g.slides@[0].extra == None::<Uuid>
                    &&& g.slides@[0].prompt@ == Seq::<char>::empty()
                    &&& g.events@.len() == 0
                    &&& g.webcam_settings == None::<WebcamSettings>
                    &&& g.produced_hash == None::<String>
                    &&& g.produced == TaskStatus::Idle
                }
            },
{
    let mut r: Vec<Gos> = Vec::new();
    let n = uuids.len();
    let mut i: usize = 0;
    while i < n
        invariant
            0 <= i <= n,
            n == uuids@.len(),
            r@.len() == i,
            forall|k: int|
                0 <= k < i ==> {
                    let g = #[trigger] r@[k];
                    {
                        &&& g.record == None::<Record>
                        &&& g.slides@.len() == 1
                        &&& g.slides@[0].uuid == uuids@[k]
                        &&& g.slides@[0].extra == None::<Uuid>
                        &&& g.slides@[0].prompt@ == Seq::<char>::empty()
                        &&& g.events@.len() == 0
                        &&& g.webcam_settings == None::<WebcamSettings>
                        &&& g.produced_hash == None::<String>
                        &&& g.produced == TaskStatus::Idle
                    }
                },
        decreases n - i,
    {
        let mut g = Gos::new();
        g.slides.push(Slide { uuid: uuids[i], extra: None, prompt: String::new() });
        r.push(g);
        i += 1;
    }
    r
}

impl Capsule {
    /// Applies an edit: the edited fields are replaced, the modification
    /// time is set, and nothing else changes.  The produced hash is left
    /// alone: it goes stale and a future production recomputes it.
    pub fn apply_edit(&mut self, edit: CapsuleEdit, now: i64)
        ensures
            *final(self) == (Capsule {
                project: edit.project,
                name: edit.name,
                privacy: edit.privacy,
                prompt_subtitles: edit.prompt_subtitles,
                structure: edit.structure,
                webcam_settings: edit.webcam_settings,
                sound_track: edit.sound_track,
                last_modified: now,
                ..*old(self)
            }),
    {
        let CapsuleEdit {
            project,
            name,
            privacy,
            prompt_subtitles,
            structure,
            webcam_settings,
            sound_track,
        } = edit;
        self.project = project;
        self.name = name;
        self.privacy = privacy;
        self.prompt_subtitles = prompt_subtitles;
        self.structure = structure;
        self.webcam_settings = webcam_settings;
        self.sound_track = sound_track;
        self.last_modified = now;
    }

    /// Inserts a fresh empty grain at the index.  Rejected when the index
    /// is past the end.
    pub fn add_gos_at(&mut self, index: usize) -> (r: Result<(), Error>)
        ensures
            match r {
                Ok(()) => index <= old(self).structure@.len() && final(self).structure@.len()
                    == old(self).structure@.len() + 1 && (Capsule {
                    structure: final(self).structure,
                    ..*old(self)
                }) == *final(self) && gos_like(final(self).structure@[index as int], Gos {
                    record: None,
                    slides: final(self).structure@[index as int].slides,
                    events: final(self).structure@[index as int].events,
                    webcam_settings: None,
                    fade: crate::capsule::Fade {
                        vfadein: None,
                        vfadeout: None,
                        afadein: None,
                        afadeout: None,
                    },
                    produced_hash: None,
                    produced: TaskStatus::Idle,
                }) && final(self).structure@[index as int].slides@.len() == 0 && final(self).structure@[index as int].events@.len() == 0 && forall|j: int|
                    0 <= j < old(self).structure@.len() ==> final(self).structure@.remove(
                        index as int,
                    )[j] == old(self).structure@[j],
                Err(e) => e == Error(ErrorKind::ClientInput) && *final(self) == *old(self) && index
                    > old(self).structure@.len(),
            },
    {
        if index > self.structure.len() {
            return Err(Error(ErrorKind::ClientInput));
        }
        let g = Gos::new();
        self.structure.insert(index, g);
        proof {
            assert(self.structure@.remove(index as int) =~= old(self).structure@);
        }
        Ok(())
    }

    /// Appends slides to a grain and drops its recording, which the new
    /// slides invalidate.  Rejected when the grain index is out of range.
    pub fn add_slides_to_gos(&mut self, gos: usize, uuids: &Vec<Uuid>) -> (r: Result<(), Error>)
        ensures
            match r {
                Ok(()) => {
                    &&& gos < old(self).structure@.len()
                    &&& (Capsule { structure: final(self).structure, ..*old(self) }) == *final(self)
                    &&& final(self).structure@ == old(self).structure@.update(
                        gos as int,
                        (Gos {
                            record: None,
                            slides: final(self).structure@[gos as int].slides,
                            ..old(self).structure@[gos as int]
                        }),
                    )
                    &&& final(self).structure@[gos as int].slides@.len() == old(self).structure@[gos as int].slides@.len() + uuids@.len()
                    &&& forall|j: int|
                        0 <= j < old(self).structure@[gos as int].slides@.len() ==> final(self).structure@[gos as int].slides@[j] == old(self).structure@[gos as int].slides@[j]
                    &&& forall|j: int|
                        0 <= j < uuids@.len() ==> {
                            let s = #[trigger] final(self).structure@[gos as int].slides@[old(self).structure@[gos as int].slides@.len() + j];
                            s.uuid == uuids@[j] && s.extra == None::<Uuid> && s.prompt@ == Seq::<
                                char,
                            >::empty()
                        }
                },
                Err(e) => e == Error(ErrorKind::ClientInput) && *final(self) == *old(self) && gos
                    >= old(self).structure@.len(),
            },
    {
        if gos >= self.structure.len() {
            return Err(Error(ErrorKind::ClientInput));
        }
        let n = uuids.len();
        let mut j: usize = 0;
        while j < n
            invariant
                0 <= j <= n,
                n == uuids@.len(),
                gos < old(self).structure@.len(),
                gos < self.structure@.len(),
                self.structure@.len() == old(self).structure@.len(),
                (Capsule { structure: self.structure, ..*old(self) }) == *self,
                self.structure@ == old(self).structure@.update(
                    gos as int,
                    (Gos {
                        slides: self.structure@[gos as int].slides,
                        ..old(self).structure@[gos as int]
                    }),
                ),
                self.structure@[gos as int].slides@.len() == old(self).structure@[gos as int].slides@.len() + j,
                forall|k: int|
                    0 <= k < old(self).structure@[gos as int].slides@.len() ==> self.structure@[gos
                        as int].slides@[k] == old(self).structure@[gos as int].slides@[k],
                forall|k: int|
                    0 <= k < j ==> {
                        let s = #[trigger] self.structure@[gos as int].slides@[old(self).structure@[gos as int].slides@.len() + k];
                        s.uuid == uuids@[k] && s.extra == None::<Uuid> && s.prompt@ == Seq::<
                            char,
                        >::empty()
                    },
            decreases n - j,
        {
            let slide = Slide { uuid: uuids[j], extra: None, prompt: String::new() };
            self.structure[gos].slides.push(slide);
            j += 1;
        }
        self.structure[gos].record = None;
        Ok(())
    }

    /// Attaches a recording to a grain.  A record without video disables
    /// the webcam of the grain.  Rejected when the grain index is out of
    /// range.
    pub fn set_record(&mut self, gos: usize, uuid: Uuid, size: Option<(u32, u32)>) -> (r: Result<
        (),
        Error,
    >)
        ensures
            match r {
                Ok(()) => gos < old(self).structure@.len() && (Capsule {
                    structure: final(self).structure,
                    ..*old(self)
                }) == *final(self) && final(self).structure@ == old(self).structure@.update(
                    gos as int,
                    (Gos {
                        record: Some(Record { uuid, pointer_uuid: None, size }),
                        webcam_settings: if size is None {
                            Some(WebcamSettings::Disabled)
                        } else {
                            old(self).structure@[gos as int].webcam_settings
                        },
                        ..old(self).structure@[gos as int]
                    }),
                ),
                Err(e) => e == Error(ErrorKind::ClientInput) && *final(self) == *old(self) && gos
                    >= old(self).structure@.len(),
            },
    {
        if gos >= self.structure.len() {
            return Err(Error(ErrorKind::ClientInput));
        }
        self.structure[gos].record = Some(Record { uuid, pointer_uuid: None, size });
        if size.is_none() {
            self.structure[gos].webcam_settings = Some(WebcamSettings::Disabled);
        }
        Ok(())
    }

    /// Attaches a pointer overlay to the recording of a grain.  Rejected
    /// when the grain index is out of range or the grain has no recording.
    pub fn set_pointer(&mut self, gos: usize, pointer_uuid: Uuid) -> (r: Result<(), Error>)
        ensures
            match r {
                Ok(()) => {
                    &&& gos < old(self).structure@.len()
                    &&& old(self).structure@[gos as int].record matches Some(rec)
                        && final(self).structure@ == old(self).structure@.update(
                        gos as int,
                        (Gos {
                            record: Some(Record { pointer_uuid: Some(pointer_uuid), ..rec }),
                            ..old(self).structure@[gos as int]
                        }),
                    )
                    &&& (Capsule { structure: final(self).structure, ..*old(self) }) == *final(self)
                },
                Err(e) => e == Error(ErrorKind::ClientInput) && *final(self) == *old(self) && (gos
                    >= old(self).structure@.len() || old(self).structure@[gos as int].record
                    is None),
            },
    {
        if gos >= self.structure.len() {
            return Err(Error(ErrorKind::ClientInput));
        }
        let rec = match &self.structure[gos].record {
            Some(rec) => Record { uuid: rec.uuid, pointer_uuid: Some(pointer_uuid), size: rec.size },
            None => {
                return Err(Error(ErrorKind::ClientInput));
            },
        };
        self.structure[gos].record = Some(rec);
        Ok(())
    }

    /// Drops the recording of a grain.  Rejected when the grain index is
    /// out of range.
    pub fn delete_record(&mut self, gos: usize) -> (r: Result<(), Error>)
        ensures
            match r {
                Ok(()) => gos < old(self).structure@.len() && (Capsule {
                    structure: final(self).structure,
                    ..*old(self)
                }) == *final(self) && final(self).structure@ == old(self).structure@.update(
                    gos as int,
                    (Gos { record: None, ..old(self).structure@[gos as int] }),
                ),
                Err(e) => e == Error(ErrorKind::ClientInput) && *final(self) == *old(self) && gos
                    >= old(self).structure@.len(),
            },
    {
        if gos >= self.structure.len() {
            return Err(Error(ErrorKind::ClientInput));
        }
        self.structure[gos].record = None;
        Ok(())
    }

    /// Replaces the sound track.  The volume of the previous track is
    /// kept; a first track starts at eight tenths.
    pub fn set_sound_track(&mut self, uuid: Uuid, name: String)
        ensures
            final(self).sound_track matches Some(t) && t.uuid == uuid && t.name == name && t.volume
                == (match old(self).sound_track {
                Some(o) => o.volume,
                None => 800u16,
            }),
            (Capsule { sound_track: final(self).sound_track, ..*old(self) }) == *final(self),
    {
        let volume: u16 = match &self.sound_track {
            Some(o) => o.volume,
            None => 800,
        };
        self.sound_track = Some(SoundTrack { uuid, name, volume });
    }

    /// Duplicates the capsule for `owner` under a fresh id: the content
    /// and task results are copied, the name is suffixed, the participants
    /// are not carried over, and the copy has no upload in flight.
    pub fn duplicate(&self, new_id: i32, owner: i32, now: i64) -> (r: Capsule)
        ensures
            r.id == new_id,
            r.project == self.project,
            r.name@ == self.name@ + " (copie)"@,
            r.privacy == self.privacy,
            r.produced == self.produced,
            r.published == self.published,
            r.video_uploaded == TaskStatus::Idle,
            r.production_pid == None::<i32>,
            r.publication_pid == None::<i32>,
            r.video_uploaded_pid == None::<i32>,
            r.structure@.len() == self.structure@.len(),
            forall|i: int|
                0 <= i < self.structure@.len() ==> gos_like(
                    #[trigger] r.structure@[i],
                    self.structure@[i],
                ),
            r.webcam_settings == self.webcam_settings,
            r.sound_track == self.sound_track,
            r.duration_ms == self.duration_ms,
            r.disk_usage == 0,
            r.prompt_subtitles,
            r.users@ =~= seq![(owner, Role::Owner)],
            r.produced_hash == None::<String>,
            r.last_modified == now,
            crate::capsule::owners_ok(r.users@),
    {
        let mut name = self.name.clone();
        name.append(" (copie)");
        let mut fresh = Capsule::new(new_id, self.project.clone(), name, owner, now);
        fresh.privacy = self.privacy;
        fresh.produced = self.produced;
        fresh.published = self.published;
        let mut structure: Vec<Gos> = Vec::new();
        let n = self.structure.len();
        let mut i: usize = 0;
        while i < n
            invariant
                0 <= i <= n,
                n == self.structure@.len(),
                structure@.len() == i,
                forall|k: int|
                    0 <= k < i ==> gos_like(#[trigger] structure@[k], self.structure@[k]),
            decreases n - i,
        {
            structure.push(self.structure[i].clone());
            i += 1;
        }
        fresh.structure = structure;
        fresh.webcam_settings = self.webcam_settings.clone();
        fresh.sound_track = match &self.sound_track {
            Some(t) => Some(t.clone()),
            None => None,
        };
        fresh.duration_ms = self.duration_ms;
        fresh
    }
}

} // verus!
