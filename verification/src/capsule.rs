//! The capsule data model: grains of story, slides, records, events, webcam
//! compositing settings, participants and their roles, and the per-capsule
//! task state machine.
//!
//! Opacities and volumes lie in `[0, 1]` and are held in thousandths, so
//! that the model stays in integers.

use vstd::prelude::*;

use crate::error::{Error, ErrorKind};
use crate::ids::Uuid;
use crate::task_status::TaskStatus;

verus! {

/// The different roles a user can have for a capsule.
#[derive(Debug, Clone, Copy, PartialEq, Eq, Structural)]
pub enum Role {
    /// The user has read access to the capsule.
    Read,

    /// The user has write access to the capsule.
    Write,

    /// The user owns the capsule.
    Owner,
}

impl Role {
    /// The rank of the role: owning implies writing implies reading.
    pub open spec fn spec_rank(self) -> nat {
        match self {
            Role::Read => 0,
            Role::Write => 1,
            Role::Owner => 2,
        }
    }

    /// The rank of the role, executable form.
    pub fn rank(self) -> (r: u8)
        ensures
            r as nat == self.spec_rank(),
    {
        match self {
            Role::Read => 0,
            Role::Write => 1,
            Role::Owner => 2,
        }
    }

    /// True when this role grants at least the rights of `other`.
    pub fn grants(self, other: Role) -> (r: bool)
        ensures
            r == (self.spec_rank() >= other.spec_rank()),
    {
        self.rank() >= other.rank()
    }
}

/// Privacy settings for a published video.
#[derive(Debug, Clone, Copy, PartialEq, Eq, Structural)]
pub enum Privacy {
    /// Public video.
    Public,

    /// Unlisted video.
    Unlisted,

    /// Private video.
    Private,
}

/// A slide with its prompt.
#[derive(Debug)]
pub struct Slide {
    /// The identifier of the slide image.
    pub uuid: Uuid,

    /// The identifier of the extra resource, if any.
    pub extra: Option<Uuid>,

    /// The prompt associated to the slide.
    pub prompt: String,
}

/// The anchor of the webcam.
#[derive(Debug, Clone, Copy, PartialEq, Eq, Structural)]
pub enum Anchor {
    /// The top left corner.
    TopLeft,

    /// The top right corner.
    TopRight,

    /// The bottom left corner.
    BottomLeft,

    /// The bottom right corner.
    BottomRight,
}

impl Anchor {
    /// True when the anchor is at the top.
    pub fn is_top(self) -> (r: bool)
        ensures
            r == (self == Anchor::TopLeft || self == Anchor::TopRight),
    {
        match self {
            Anchor::TopLeft | Anchor::TopRight => true,
            _ => false,
        }
    }

    /// True when the anchor is on the left.
    pub fn is_left(self) -> (r: bool)
        ensures
            r == (self == Anchor::TopLeft || self == Anchor::BottomLeft),
    {
        match self {
            Anchor::TopLeft | Anchor::BottomLeft => true,
            _ => false,
        }
    }
}

impl Clone for Slide {
    /// A clone of a slide equals the slide.
    fn clone(&self) -> (res: Slide)
        ensures
            res == *self,
    {
        Slide { uuid: self.uuid, extra: self.extra, prompt: self.prompt.clone() }
    }
}

/// The webcam compositing settings for a grain of story.
#[derive(Debug)]
pub enum WebcamSettings {
    /// The webcam is disabled.
    Disabled,

    /// The webcam fills the screen.
    Fullscreen {
        /// The opacity of the webcam, in thousandths.
        opacity: u16,

        /// Keying color.
        keycolor: Option<String>,
    },

    /// The webcam sits at a corner of the screen.
    Pip {
        /// The corner to which the webcam is attached.
        anchor: Anchor,

        /// The opacity of the webcam, in thousandths.
        opacity: u16,

        /// The offset from the corner in pixels.
        position: (i32, i32),

        /// The size of the webcam in pixels.
        size: (i32, i32),

        /// Keying color.
        keycolor: Option<String>,
    },
}

impl Clone for WebcamSettings {
    /// A clone of webcam settings equals the settings.
    fn clone(&self) -> (res: WebcamSettings)
        ensures
            res == *self,
    {
        match self {
            WebcamSettings::Disabled => WebcamSettings::Disabled,
            WebcamSettings::Fullscreen { opacity, keycolor } => WebcamSettings::Fullscreen {
                opacity: *opacity,
                keycolor: match keycolor {
                    Some(k) => Some(k.clone()),
                    None => None,
                },
            },
            WebcamSettings::Pip { anchor, opacity, position, size, keycolor } => (
            WebcamSettings::Pip {
                anchor: *anchor,
                opacity: *opacity,
                position: (position.0, position.1),
                size: (size.0, size.1),
                keycolor: match keycolor {
                    Some(k) => Some(k.clone()),
                    None => None,
                },
            }),
        }
    }
}

/// An opacity is a proportion: at most one thousand thousandths.
pub open spec fn webcam_settings_wf(w: WebcamSettings) -> bool {
    match w {
        WebcamSettings::Disabled => true,
        WebcamSettings::Fullscreen { opacity, .. } => opacity <= 1000,
        WebcamSettings::Pip { opacity, .. } => opacity <= 1000,
    }
}

/// The settings used where a capsule does not choose any: picture in
/// picture at the bottom left corner, full opacity.
pub open spec fn spec_pip_default() -> WebcamSettings {
    WebcamSettings::Pip {
        anchor: Anchor::BottomLeft,
        opacity: 1000u16,
        position: (4i32, 4i32),
        size: (533i32, 400i32),
        keycolor: None::<String>,
    }
}

impl WebcamSettings {
    /// The settings used where a capsule does not choose any: picture in
    /// picture at the bottom left corner, full opacity.
    pub fn pip_default() -> (r: WebcamSettings)
        ensures
            r == spec_pip_default(),
            webcam_settings_wf(r),
    {
        WebcamSettings::Pip {
            anchor: Anchor::BottomLeft,
            opacity: 1000,
            position: (4, 4),
            size: (533, 400),
            keycolor: None,
        }
    }
}

impl Default for WebcamSettings {
    /// The default settings are the picture-in-picture settings.
    fn default() -> (r: WebcamSettings)
        ensures
            r == spec_pip_default(),
    {
        WebcamSettings::pip_default()
    }
}

/// The sound track of a capsule.
#[derive(Debug)]
pub struct SoundTrack {
    /// The identifier of the audio file.
    pub uuid: Uuid,

    /// The name of the file.
    pub name: String,

    /// The volume of the sound track, in thousandths.
    pub volume: u16,
}

impl Clone for SoundTrack {
    /// A clone of a sound track equals the sound track.
    fn clone(&self) -> (res: SoundTrack)
        ensures
            res == *self,
    {
        SoundTrack { uuid: self.uuid, name: self.name.clone(), volume: self.volume }
    }
}

/// A record: a webcam recording, its optional pointer overlay, and its
/// video size when it carries video.
#[derive(Debug, Clone, Copy)]
pub struct Record {
    /// The identifier of the record.
    pub uuid: Uuid,

    /// The identifier of the pointer overlay of the record, if any.
    pub pointer_uuid: Option<Uuid>,

    /// The size of the record, if it contains video.
    pub size: Option<(u32, u32)>,
}

/// The type of a record event.
#[derive(Debug, Clone, Copy, PartialEq, Eq, Structural)]
pub enum EventType {
    /// The record started.
    Start,

    /// Go to the next slide.
    NextSlide,

    /// Go to the previous slide.
    PreviousSlide,

    /// Go to the next sentence.
    NextSentence,

    /// Start to play extra media.
    Play,

    /// Pause the extra media.
    Pause,

    /// Seek at a certain position in the extra media.
    Seek,

    /// Stop the extra media.
    Stop,

    /// The record ended.
    End,
}

/// A record event.
#[derive(Debug, Clone, Copy)]
pub struct Event {
    /// The type of the event.
    pub ty: EventType,

    /// The time of the event in milliseconds.
    pub time: i32,

    /// The extra time of the event, if there is such a time.
    pub extra_time: Option<i32>,
}

/// Durations of the audio and video fade-ins and fade-outs.
#[derive(Debug, Clone, Copy)]
pub struct Fade {
    /// Duration of the video fade-in.
    pub vfadein: Option<i32>,

    /// Duration of the video fade-out.
    pub vfadeout: Option<i32>,

    /// Duration of the audio fade-in.
    pub afadein: Option<i32>,

    /// Duration of the audio fade-out.
    pub afadeout: Option<i32>,
}

impl Fade {
    /// The default fade, which is no fade at all.
    pub fn none() -> (r: Fade)
        ensures
            r == (Fade {
                vfadein: None::<i32>,
                vfadeout: None::<i32>,
                afadein: None::<i32>,
                afadeout: None::<i32>,
            }),
    {
        Fade { vfadein: None, vfadeout: None, afadein: None, afadeout: None }
    }
}

/// A grain of story: slides, an optional recording with its events, webcam
/// settings, and the production state of its rendered artifact.
#[derive(Debug)]
pub struct Gos {
    /// The recording of the grain, if any.
    pub record: Option<Record>,

    /// The slides of the grain.
    pub slides: Vec<Slide>,

    /// The events of the recording.
    pub events: Vec<Event>,

    /// The webcam settings of the grain; the capsule default applies where
    /// missing.
    pub webcam_settings: Option<WebcamSettings>,

    /// Fade options.
    pub fade: Fade,

    /// The content hash of the last successful production of this grain.
    pub produced_hash: Option<String>,

    /// The production status of this grain.
    pub produced: TaskStatus,
}

impl Gos {
    /// Creates a new empty grain of story.
    pub fn new() -> (r: Gos)
        ensures
            r.record == None::<Record>,
            r.slides@ =~= Seq::<Slide>::empty(),
            r.events@ =~= Seq::<Event>::empty(),
            r.webcam_settings == None::<WebcamSettings>,
            r.fade == (Fade {
                vfadein: None::<i32>,
                vfadeout: None::<i32>,
                afadein: None::<i32>,
                afadeout: None::<i32>,
            }),
            r.produced_hash == None::<String>,
            r.produced == TaskStatus::Idle,
    {
        Gos {
            record: None,
            slides: Vec::new(),
            events: Vec::new(),
            webcam_settings: None,
            fade: Fade::none(),
            produced_hash: None,
            produced: TaskStatus::Idle,
        }
    }
}

/// Two grains hold the same data.  A rebuilt vector is a fresh value, so
/// sameness of grains is stated over the views of their vectors.
pub open spec fn gos_like(a: Gos, b: Gos) -> bool {
    &&& a.record == b.record
    &&& a.slides@ == b.slides@
    &&& a.events@ == b.events@
    &&& a.webcam_settings == b.webcam_settings
    &&& a.fade == b.fade
    &&& a.produced_hash == b.produced_hash
    &&& a.produced == b.produced
}

impl Clone for Gos {
    /// A clone of a grain holds the same data as the grain.
    fn clone(&self) -> (res: Gos)
        ensures
            gos_like(res, *self),
    {
        let mut slides: Vec<Slide> = Vec::new();
        let mut i: usize = 0;
        let n = self.slides.len();
        while i < n
            invariant
                0 <= i <= n,
                n == self.slides@.len(),
                slides@ =~= self.slides@.subrange(0, i as int),
            decreases n - i,
        {
            slides.push(self.slides[i].clone());
            proof {
                assert(slides@ =~= self.slides@.subrange(0, i + 1));
            }
            i += 1;
        }
        let mut events: Vec<Event> = Vec::new();
        let mut j: usize = 0;
        let m = self.events.len();
        while j < m
            invariant
                0 <= j <= m,
                m == self.events@.len(),
                events@ =~= self.events@.subrange(0, j as int),
            decreases m - j,
        {
            events.push(self.events[j]);
            proof {
                assert(events@ =~= self.events@.subrange(0, j + 1));
            }
            j += 1;
        }
        proof {
            assert(slides@ =~= self.slides@);
            assert(events@ =~= self.events@);
        }
        Gos {
            record: self.record,
            slides,
            events,
            webcam_settings: match &self.webcam_settings {
                Some(w) => Some(w.clone()),
                None => None,
            },
            fade: self.fade,
            produced_hash: match &self.produced_hash {
                Some(h) => Some(h.clone()),
                None => None,
            },
            produced: self.produced,
        }
    }
}

/// The number of owners among the participants.
pub open spec fn count_owners(s: Seq<(i32, Role)>) -> nat
    decreases s.len(),
{
    if s.len() == 0 {
        0
    } else {
        count_owners(s.drop_last()) + if s.last().1 == Role::Owner {
            1nat
        } else {
            0nat
        }
    }
}

/// True when the participant list holds the user.
pub open spec fn has_user(s: Seq<(i32, Role)>, uid: i32) -> bool {
    exists|i: int| 0 <= i < s.len() && (#[trigger] s[i]).0 == uid
}

/// True when no user appears twice in the participant list.
pub open spec fn users_unique(s: Seq<(i32, Role)>) -> bool {
    forall|i: int, j: int|
        0 <= i < j < s.len() ==> (#[trigger] s[i]).0 != (#[trigger] s[j]).0
}

/// The participant invariant of a capsule: every user appears once and
/// exactly one of them owns the capsule.
pub open spec fn owners_ok(s: Seq<(i32, Role)>) -> bool {
    users_unique(s) && count_owners(s) == 1
}

/// The state-machine invariant of a capsule: a publication may run or be
/// done only once the capsule is produced.
pub open spec fn state_ok(c: Capsule) -> bool {
    c.published == TaskStatus::Running ==> c.produced == TaskStatus::Done
}

/// A video capsule.
#[derive(Debug)]
pub struct Capsule {
    /// The id of the capsule.
    pub id: i32,

    /// The project name.
    pub project: String,

    /// The name of the capsule.
    pub name: String,

    /// The task status of the extra-video upload step.
    pub video_uploaded: TaskStatus,

    /// The pid of the video upload transcode, if any.
    pub video_uploaded_pid: Option<i32>,

    /// The task status of the production step.
    pub produced: TaskStatus,

    /// The pid of the production task, if any.
    pub production_pid: Option<i32>,

    /// The task status of the publication step.
    pub published: TaskStatus,

    /// The pid of the publication task, if any.
    pub publication_pid: Option<i32>,

    /// Whether the video is public, unlisted, or private.
    pub privacy: Privacy,

    /// Whether the prompt should be used as subtitles.
    pub prompt_subtitles: bool,

    /// The structure of the capsule: its ordered grains of story.
    pub structure: Vec<Gos>,

    /// The default webcam settings.
    pub webcam_settings: WebcamSettings,

    /// The last time the capsule was modified, in seconds since the epoch.
    pub last_modified: i64,

    /// Capsule disk usage, in megabytes.
    pub disk_usage: i32,

    /// Duration of the produced video, in milliseconds.
    pub duration_ms: i32,

    /// The sound track of the capsule, if any.
    pub sound_track: Option<SoundTrack>,

    /// The participants of the capsule and their roles.
    pub users: Vec<(i32, Role)>,

    /// The content hash of the last successful capsule production.
    pub produced_hash: Option<String>,
}

/// Two capsules hold the same data, with grains compared by `gos_like`.
pub open spec fn capsule_like(a: Capsule, b: Capsule) -> bool {
    &&& a.id == b.id
    &&& a.project == b.project
    &&& a.name == b.name
    &&& a.video_uploaded == b.video_uploaded
    &&& a.video_uploaded_pid == b.video_uploaded_pid
    &&& a.produced == b.produced
    &&& a.production_pid == b.production_pid
    &&& a.published == b.published
    &&& a.publication_pid == b.publication_pid
    &&& a.privacy == b.privacy
    &&& a.prompt_subtitles == b.prompt_subtitles
    &&& a.structure@.len() == b.structure@.len()
    &&& forall|i: int|
        0 <= i < a.structure@.len() ==> gos_like(
            #[trigger] a.structure@[i],
            b.structure@[i],
        )
    &&& a.webcam_settings == b.webcam_settings
    &&& a.last_modified == b.last_modified
    &&& a.disk_usage == b.disk_usage
    &&& a.duration_ms == b.duration_ms
    &&& a.sound_track == b.sound_track
    &&& a.users@ == b.users@
    &&& a.produced_hash == b.produced_hash
}

impl Clone for Capsule {
    /// A clone of a capsule holds the same data as the capsule.
    fn clone(&self) -> (res: Capsule)
        ensures
            capsule_like(res, *self),
    {
        let mut structure: Vec<Gos> = Vec::new();
        let mut i: usize = 0;
        let n = self.structure.len();
        while i < n
            invariant
                0 <= i <= n,
                n == self.structure@.len(),
                structure@.len() == i,
                forall|k: int|
                    0 <= k < i ==> gos_like(#[trigger] structure@[k], self.structure@[k]),
            decreases n - i,
        {
            structure.push(self.structure[i].clone());
            i += 1;
        }
        let mut users: Vec<(i32, Role)> = Vec::new();
        let mut j: usize = 0;
        let m = self.users.len();
        while j < m
            invariant
                0 <= j <= m,
                m == self.users@.len(),
                users@ =~= self.users@.subrange(0, j as int),
            decreases m - j,
        {
            users.push(self.users[j]);
            proof {
                assert(users@ =~= self.users@.subrange(0, j + 1));
            }
            j += 1;
        }
        proof {
            assert(users@ =~= self.users@);
        }
        Capsule {
            id: self.id,
            project: self.project.clone(),
            name: self.name.clone(),
            video_uploaded: self.video_uploaded,
            video_uploaded_pid: self.video_uploaded_pid,
            produced: self.produced,
            production_pid: self.production_pid,
            published: self.published,
            publication_pid: self.publication_pid,
            privacy: self.privacy,
            prompt_subtitles: self.prompt_subtitles,
            structure,
            webcam_settings: self.webcam_settings.clone(),
            last_modified: self.last_modified,
            disk_usage: self.disk_usage,
            duration_ms: self.duration_ms,
            sound_track: match &self.sound_track {
                Some(t) => Some(t.clone()),
                None => None,
            },
            users,
            produced_hash: match &self.produced_hash {
                Some(h) => Some(h.clone()),
                None => None,
            },
        }
    }
}

/// True when some grain of the capsule is being produced.
pub open spec fn any_gos_running(s: Seq<Gos>) -> bool {
    exists|i: int| 0 <= i < s.len() && (#[trigger] s[i]).produced == TaskStatus::Running
}

impl Capsule {
    /// Creates a new capsule owned by `owner`: empty structure, everything
    /// idle, public, prompts used as subtitles, default webcam settings.
    pub fn new(id: i32, project: String, name: String, owner: i32, now: i64) -> (r: Capsule)
        ensures
            r.id == id,
            r.project == project,
            r.name == name,
            r.video_uploaded == TaskStatus::Idle,
            r.video_uploaded_pid == None::<i32>,
            r.produced == TaskStatus::Idle,
            r.production_pid == None::<i32>,
            r.published == TaskStatus::Idle,
            r.publication_pid == None::<i32>,
            r.privacy == Privacy::Public,
            r.prompt_subtitles,
            r.structure@ =~= Seq::<Gos>::empty(),
            r.webcam_settings == spec_pip_default(),
            r.last_modified == now,
            r.disk_usage == 0,
            r.duration_ms == 0,
            r.sound_track == None::<SoundTrack>,
            r.users@ =~= seq![(owner, Role::Owner)],
            r.produced_hash == None::<String>,
            owners_ok(r.users@),
            state_ok(r),
            webcam_settings_wf(r.webcam_settings),
    {
        let mut users: Vec<(i32, Role)> = Vec::new();
        users.push((owner, Role::Owner));
        proof {
            lemma_count_owners_push(Seq::<(i32, Role)>::empty(), (owner, Role::Owner));
            assert(users@ =~= Seq::<(i32, Role)>::empty().push((owner, Role::Owner)));
            assert(count_owners(users@) == 1);
            assert(users_unique(users@));
        }
        Capsule {
            id,
            project,
            name,
            video_uploaded: TaskStatus::Idle,
            video_uploaded_pid: None,
            produced: TaskStatus::Idle,
            production_pid: None,
            published: TaskStatus::Idle,
            publication_pid: None,
            privacy: Privacy::Public,
            prompt_subtitles: true,
            structure: Vec::new(),
            webcam_settings: WebcamSettings::pip_default(),
            last_modified: now,
            disk_usage: 0,
            duration_ms: 0,
            sound_track: None,
            users,
            produced_hash: None,
        }
    }

    /// Sets the last modification time.
    pub fn set_changed(&mut self, now: i64)
        ensures
            *final(self) == (Capsule { last_modified: now, ..*old(self) }),
    {
        self.last_modified = now;
    }

    /// The role of a user on this capsule, if the user participates.
    pub fn role_of(&self, uid: i32) -> (r: Option<Role>)
        requires
            users_unique(self.users@),
        ensures
            match r {
                Some(role) => exists|i: int|
                    0 <= i < self.users@.len() && #[trigger] self.users@[i] == (uid, role),
                None => !has_user(self.users@, uid),
            },
    {
        let len = self.users.len();
        let mut i: usize = 0;
        while i < len
            invariant
                0 <= i <= len,
                len == self.users@.len(),
                forall|j: int| 0 <= j < i ==> (#[trigger] self.users@[j]).0 != uid,
            decreases len - i,
        {
            if self.users[i].0 == uid {
                return Some(self.users[i].1);
            }
            i += 1;
        }
        None
    }

    /// The owner of the capsule.  Under the participant invariant there is
    /// exactly one.
    pub fn owner(&self) -> (r: Result<i32, Error>)
        ensures
            match r {
                Ok(uid) => exists|i: int|
                    0 <= i < self.users@.len() && #[trigger] self.users@[i] == (uid, Role::Owner),
                Err(e) => e == Error(ErrorKind::NotFound) && count_owners(self.users@) == 0,
            },
    {
        let len = self.users.len();
        let mut i: usize = 0;
        while i < len
            invariant
                0 <= i <= len,
                len == self.users@.len(),
                forall|j: int| 0 <= j < i ==> (#[trigger] self.users@[j]).1 != Role::Owner,
            decreases len - i,
        {
            if self.users[i].1 == Role::Owner {
                return Ok(self.users[i].0);
            }
            i += 1;
        }
        proof {
            lemma_count_owners_zero(self.users@);
        }
        Err(Error(ErrorKind::NotFound))
    }

    /// Adds a participant.  Rejected when the user already participates or
    /// would be a second owner, so the participant invariant is preserved.
    pub fn add_user(&mut self, uid: i32, role: Role) -> (r: Result<(), Error>)
        requires
            users_unique(old(self).users@),
        ensures
            match r {
                Ok(()) => !has_user(old(self).users@, uid) && role != Role::Owner
                    && final(self).users@ =~= old(self).users@.push((uid, role)) && *final(self)
                    == (Capsule { users: final(self).users, ..*old(self) }),
                Err(e) => (has_user(old(self).users@, uid) || role == Role::Owner) && *final(self)
                    == *old(self) && e == Error(ErrorKind::ClientInput),
            },
            owners_ok(old(self).users@) ==> owners_ok(final(self).users@),
    {
        if role == Role::Owner {
            return Err(Error(ErrorKind::ClientInput));
        }
        if self.role_of(uid).is_some() {
            proof {
                assert(has_user(self.users@, uid));
            }
            return Err(Error(ErrorKind::ClientInput));
        }
        proof {
            lemma_count_owners_push(self.users@, (uid, role));
        }
        self.users.push((uid, role));
        Ok(())
    }

    /// Changes the role of a participant.  Rejected when the user does not
    /// participate, owns the capsule, or would become a second owner.
    pub fn update_role(&mut self, uid: i32, role: Role) -> (r: Result<(), Error>)
        requires
            users_unique(old(self).users@),
        ensures
            match r {
                Ok(()) => {
                    &&& role != Role::Owner
                    &&& exists|i: int|
                        #![auto]
                        {
                            &&& 0 <= i < old(self).users@.len()
                            &&& old(self).users@[i].0 == uid
                            &&& old(self).users@[i].1 != Role::Owner
                            &&& final(self).users@ == old(self).users@.update(i, (uid, role))
                        }
                    &&& *final(self) == (Capsule { users: final(self).users, ..*old(self) })
                },
                Err(e) => {
                    &&& *final(self) == *old(self)
                    &&& e == Error(ErrorKind::ClientInput)
                    &&& (role == Role::Owner || !exists|i: int|
                        0 <= i < old(self).users@.len() && (#[trigger] old(self).users@[i]).0
                            == uid && old(self).users@[i].1 != Role::Owner)
                },
            },
            owners_ok(old(self).users@) ==> owners_ok(final(self).users@),
    {
        if role == Role::Owner {
            return Err(Error(ErrorKind::ClientInput));
        }
        assert(role != Role::Owner);
        let len = self.users.len();
        let mut i: usize = 0;
        while i < len
            invariant
                0 <= i <= len,
                *self == *old(self),
                users_unique(self.users@),
                role != Role::Owner,
                len == self.users@.len(),
                forall|j: int| 0 <= j < i ==> (#[trigger] self.users@[j]).0 != uid,
            decreases len - i,
        {
            if self.users[i].0 == uid {
                if self.users[i].1 == Role::Owner {
                    proof {
                        assert forall|j: int|
                            0 <= j < self.users@.len() && (#[trigger] self.users@[j]).0
                                == uid implies self.users@[j].1 == Role::Owner by {
                            assert(self.users@[i as int].0 == uid);
                            assert(j == i as int);
                        }
                    }
                    return Err(Error(ErrorKind::ClientInput));
                }
                proof {
                    let ghost e = (uid, role);
                    assert(e.1 == role);
                    lemma_count_owners_update(self.users@, i as int, e);
                }
                self.users[i] = (uid, role);
                proof {
                    assert(exists|k: int|
                        #![auto]
                        {
                            &&& 0 <= k < old(self).users@.len()
                            &&& old(self).users@[k].0 == uid
                            &&& old(self).users@[k].1 != Role::Owner
                            &&& self.users@ == old(self).users@.update(k, (uid, role))
                        }) by {
                        assert(old(self).users@[i as int].0 == uid);
                        assert(old(self).users@[i as int].1 != Role::Owner);
                        assert(self.users@ == old(self).users@.update(i as int, (uid, role)));
                    }
                }
                return Ok(());
            }
            i += 1;
        }
        Err(Error(ErrorKind::ClientInput))
    }

    /// Removes a participant.  Rejected when the user does not participate
    /// or owns the capsule: the only owner can never be removed.
    pub fn remove_user(&mut self, uid: i32) -> (r: Result<(), Error>)
        requires
            users_unique(old(self).users@),
        ensures
            match r {
                Ok(()) => {
                    &&& exists|i: int|
                        #![auto]
                        {
                            &&& 0 <= i < old(self).users@.len()
                            &&& old(self).users@[i].0 == uid
                            &&& old(self).users@[i].1 != Role::Owner
                            &&& final(self).users@ == old(self).users@.remove(i)
                        }
                    &&& *final(self) == (Capsule { users: final(self).users, ..*old(self) })
                },
                Err(e) => {
                    &&& *final(self) == *old(self)
                    &&& e == Error(ErrorKind::ClientInput)
                    &&& !exists|i: int|
                        0 <= i < old(self).users@.len() && (#[trigger] old(self).users@[i]).0
                            == uid && old(self).users@[i].1 != Role::Owner
                },
            },
            owners_ok(old(self).users@) ==> owners_ok(final(self).users@),
    {
        let len = self.users.len();
        let mut i: usize = 0;
        while i < len
            invariant
                0 <= i <= len,
                *self == *old(self),
                users_unique(self.users@),
                len == self.users@.len(),
                forall|j: int| 0 <= j < i ==> (#[trigger] self.users@[j]).0 != uid,
            decreases len - i,
        {
            if self.users[i].0 == uid {
                if self.users[i].1 == Role::Owner {
                    proof {
                        assert forall|j: int|
                            0 <= j < self.users@.len() && (#[trigger] self.users@[j]).0
                                == uid implies self.users@[j].1 == Role::Owner by {
                            assert(self.users@[i as int].0 == uid);
                            assert(j == i as int);
                        }
                    }
                    return Err(Error(ErrorKind::ClientInput));
                }
                proof {
                    lemma_count_owners_remove(self.users@, i as int);
                }
                self.users.remove(i);
                proof {
                    assert(exists|k: int|
                        #![auto]
                        {
                            &&& 0 <= k < old(self).users@.len()
                            &&& old(self).users@[k].0 == uid
                            &&& old(self).users@[k].1 != Role::Owner
                            &&& self.users@ == old(self).users@.remove(k)
                        }) by {
                        assert(old(self).users@[i as int].0 == uid);
                        assert(old(self).users@[i as int].1 != Role::Owner);
                        assert(self.users@ == old(self).users@.remove(i as int));
                    }
                }
                return Ok(());
            }
            i += 1;
        }
        Err(Error(ErrorKind::ClientInput))
    }

    /// The role under which a user may act on the capsule, when that role
    /// grants at least `needed`.  A stranger and an insufficient role are
    /// told apart from a missing capsule upstream: here they are simply
    /// not authorized.
    pub fn permission(&self, uid: i32, needed: Role) -> (r: Result<Role, Error>)
        requires
            users_unique(self.users@),
        ensures
            match r {
                Ok(role) => role.spec_rank() >= needed.spec_rank() && exists|i: int|
                    0 <= i < self.users@.len() && #[trigger] self.users@[i] == (uid, role),
                Err(e) => e == Error(ErrorKind::NotAuthorized) && !exists|i: int|
                    0 <= i < self.users@.len() && (#[trigger] self.users@[i]).0 == uid
                        && self.users@[i].1.spec_rank() >= needed.spec_rank(),
            },
    {
        match self.role_of(uid) {
            Some(role) => {
                if role.grants(needed) {
                    Ok(role)
                } else {
                    proof {
                        let w = choose|w: int|
                            0 <= w < self.users@.len() && #[trigger] self.users@[w] == (
                            uid,
                            role,
                            );
                        assert forall|j: int|
                            0 <= j < self.users@.len() && (#[trigger] self.users@[j]).0
                                == uid implies self.users@[j].1.spec_rank()
                            < needed.spec_rank() by {
                            assert(self.users@[w].0 == uid);
                            assert(j == w);
                        }
                    }
                    Err(Error(ErrorKind::NotAuthorized))
                }
            },
            None => Err(Error(ErrorKind::NotAuthorized)),
        }
    }

    /// The role under which a viewer may watch the published capsule: the
    /// capsule must be published, and a private capsule is only watchable
    /// by its participants.
    pub fn watch_access(&self, viewer: Option<i32>) -> (r: Result<Role, Error>)
        requires
            users_unique(self.users@),
        ensures
            match r {
                Ok(role) => {
                    &&& self.published == TaskStatus::Done
                    &&& (self.privacy != Privacy::Private ==> role == Role::Read)
                    &&& (self.privacy == Privacy::Private ==> (viewer matches Some(uid) && exists|
                        i: int,
                    | 0 <= i < self.users@.len() && #[trigger] self.users@[i] == (uid, role)))
                },
                Err(e) => {
                    if self.published != TaskStatus::Done {
                        e == Error(ErrorKind::NotFound)
                    } else {
                        e == Error(ErrorKind::NotAuthorized) && self.privacy == Privacy::Private
                    }
                },
            },
    {
        if self.published != TaskStatus::Done {
            return Err(Error(ErrorKind::NotFound));
        }
        if self.privacy == Privacy::Private {
            match viewer {
                Some(uid) => {
                    match self.role_of(uid) {
                        Some(role) => Ok(role),
                        None => Err(Error(ErrorKind::NotAuthorized)),
                    }
                },
                None => Err(Error(ErrorKind::NotAuthorized)),
            }
        } else {
            Ok(Role::Read)
        }
    }

    /// Starts a capsule production.  Rejected with a conflict while the
    /// capsule or one of its grains is already being produced.  Starting a
    /// production resets the publication, so the publication can never be
    /// running or done for a stale production.
    pub fn start_production(&mut self) -> (r: Result<(), Error>)
        ensures
            match r {
                Ok(()) => old(self).produced != TaskStatus::Running && !any_gos_running(
                    old(self).structure@,
                ) && *final(self) == (Capsule {
                    produced: TaskStatus::Running,
                    published: TaskStatus::Idle,
                    ..*old(self)
                }),
                Err(e) => (old(self).produced == TaskStatus::Running || any_gos_running(
                    old(self).structure@,
                )) && *final(self) == *old(self) && e == Error(ErrorKind::Conflict),
            },
            r is Ok ==> state_ok(*final(self)),
            state_ok(*old(self)) ==> state_ok(*final(self)),
    {
        if self.produced == TaskStatus::Running {
            return Err(Error(ErrorKind::Conflict));
        }
        let len = self.structure.len();
        let mut i: usize = 0;
        while i < len
            invariant
                0 <= i <= len,
                *self == *old(self),
                len == self.structure@.len(),
                forall|j: int|
                    0 <= j < i ==> (#[trigger] self.structure@[j]).produced
                        != TaskStatus::Running,
            decreases len - i,
        {
            if self.structure[i].produced == TaskStatus::Running {
                return Err(Error(ErrorKind::Conflict));
            }
            i += 1;
        }
        self.produced = TaskStatus::Running;
        self.published = TaskStatus::Idle;
        Ok(())
    }

    /// Starts the production of one grain.  Rejected when the index is out
    /// of range or that grain is already being produced.
    pub fn start_gos_production(&mut self, gos: usize) -> (r: Result<(), Error>)
        ensures
            match r {
                Ok(()) => gos < old(self).structure@.len() && old(self).structure@[gos as int].produced
                    != TaskStatus::Running && final(self).structure@ =~= old(self).structure@.update(
                    gos as int,
                    (Gos {
                        produced: TaskStatus::Running,
                        ..old(self).structure@[gos as int]
                    }),
                ) && *final(self) == (Capsule { structure: final(self).structure, ..*old(self) }),
                Err(e) => *final(self) == *old(self) && (if gos >= old(self).structure@.len() {
                    e == Error(ErrorKind::ClientInput)
                } else {
                    e == Error(ErrorKind::Conflict)
                }),
            },
            state_ok(*old(self)) ==> state_ok(*final(self)),
    {
        if gos >= self.structure.len() {
            return Err(Error(ErrorKind::ClientInput));
        }
        if self.structure[gos].produced == TaskStatus::Running {
            return Err(Error(ErrorKind::Conflict));
        }
        self.structure[gos].produced = TaskStatus::Running;
        Ok(())
    }

    /// Starts a publication.  Allowed exactly when the capsule is produced
    /// and not yet published, which keeps the state-machine invariant.
    pub fn start_publication(&mut self) -> (r: Result<(), Error>)
        ensures
            match r {
                Ok(()) => old(self).produced == TaskStatus::Done && old(self).published
                    == TaskStatus::Idle && *final(self) == (Capsule {
                    published: TaskStatus::Running,
                    ..*old(self)
                }),
                Err(e) => (old(self).produced != TaskStatus::Done || old(self).published
                    != TaskStatus::Idle) && *final(self) == *old(self) && e == Error(
                    ErrorKind::Conflict,
                ),
            },
            state_ok(*old(self)) ==> state_ok(*final(self)),
    {
        if self.produced != TaskStatus::Done || self.published != TaskStatus::Idle {
            return Err(Error(ErrorKind::Conflict));
        }
        self.published = TaskStatus::Running;
        Ok(())
    }

    /// Unpublishes the capsule.  Allowed exactly when it is published.
    pub fn unpublish(&mut self) -> (r: Result<(), Error>)
        ensures
            match r {
                Ok(()) => old(self).published == TaskStatus::Done && *final(self) == (Capsule {
                    published: TaskStatus::Idle,
                    ..*old(self)
                }),
                Err(e) => old(self).published != TaskStatus::Done && *final(self) == *old(self)
                    && e == Error(ErrorKind::ClientInput),
            },
            state_ok(*old(self)) ==> state_ok(*final(self)),
    {
        if self.published != TaskStatus::Done {
            return Err(Error(ErrorKind::ClientInput));
        }
        self.published = TaskStatus::Idle;
        Ok(())
    }

    /// The pid to signal to cancel the running production.  Cancellation is
    /// valid only while the production runs and its pid is recorded; the
    /// state itself changes when the killed encoder fails.
    pub fn cancel_production(&self) -> (r: Result<i32, Error>)
        ensures
            match r {
                Ok(pid) => self.produced == TaskStatus::Running && self.production_pid == Some(
                    pid,
                ),
                Err(e) => (self.produced != TaskStatus::Running || self.production_pid
                    == None::<i32>) && e == Error(ErrorKind::Conflict),
            },
    {
        if self.produced != TaskStatus::Running {
            return Err(Error(ErrorKind::Conflict));
        }
        match self.production_pid {
            Some(pid) => Ok(pid),
            None => Err(Error(ErrorKind::Conflict)),
        }
    }

    /// The pid to signal to cancel the running publication.
    pub fn cancel_publication(&self) -> (r: Result<i32, Error>)
        ensures
            match r {
                Ok(pid) => self.published == TaskStatus::Running && self.publication_pid == Some(
                    pid,
                ),
                Err(e) => (self.published != TaskStatus::Running || self.publication_pid
                    == None::<i32>) && e == Error(ErrorKind::Conflict),
            },
    {
        if self.published != TaskStatus::Running {
            return Err(Error(ErrorKind::Conflict));
        }
        match self.publication_pid {
            Some(pid) => Ok(pid),
            None => Err(Error(ErrorKind::Conflict)),
        }
    }

    /// The pid to signal to cancel the running extra-video transcode.
    pub fn cancel_video_upload(&self) -> (r: Result<i32, Error>)
        ensures
            match r {
                Ok(pid) => self.video_uploaded == TaskStatus::Running && self.video_uploaded_pid
                    == Some(pid),
                Err(e) => (self.video_uploaded != TaskStatus::Running || self.video_uploaded_pid
                    == None::<i32>) && e == Error(ErrorKind::Conflict),
            },
    {
        if self.video_uploaded != TaskStatus::Running {
            return Err(Error(ErrorKind::Conflict));
        }
        match self.video_uploaded_pid {
            Some(pid) => Ok(pid),
            None => Err(Error(ErrorKind::Conflict)),
        }
    }
}

/// A list without owners counts zero owners.
proof fn lemma_count_owners_zero(s: Seq<(i32, Role)>)
    requires
        forall|j: int| 0 <= j < s.len() ==> (#[trigger] s[j]).1 != Role::Owner,
    ensures
        count_owners(s) == 0,
    decreases s.len(),
{
    if s.len() > 0 {
        lemma_count_owners_zero(s.drop_last());
    }
}

/// Appending a participant adds its owner count.
proof fn lemma_count_owners_push(s: Seq<(i32, Role)>, e: (i32, Role))
    ensures
        count_owners(s.push(e)) == count_owners(s) + if e.1 == Role::Owner {
            1nat
        } else {
            0nat
        },
{
    assert(s.push(e).drop_last() =~= s);
}

/// Replacing a non-owner entry by a non-owner entry keeps the owner count.
proof fn lemma_count_owners_update(s: Seq<(i32, Role)>, i: int, e: (i32, Role))
    requires
        0 <= i < s.len(),
        s[i].1 != Role::Owner,
        e.1 != Role::Owner,
    ensures
        count_owners(s.update(i, e)) == count_owners(s),
    decreases s.len(),
{
    if i == s.len() - 1 {
        assert(s.update(i, e).drop_last() =~= s.drop_last());
        assert(s.update(i, e).last() == e);
    } else {
        lemma_count_owners_update(s.drop_last(), i, e);
        assert(s.update(i, e).drop_last() =~= s.drop_last().update(i, e));
        assert(s.update(i, e).last() == s.last());
    }
}

/// Removing a non-owner entry keeps the owner count.
proof fn lemma_count_owners_remove(s: Seq<(i32, Role)>, i: int)
    requires
        0 <= i < s.len(),
        s[i].1 != Role::Owner,
    ensures
        count_owners(s.remove(i)) == count_owners(s),
    decreases s.len(),
{
    if i == s.len() - 1 {
        assert(s.remove(i) =~= s.drop_last());
    } else {
        lemma_count_owners_remove(s.drop_last(), i);
        assert(s.remove(i).drop_last() =~= s.drop_last().remove(i));
        assert(s.remove(i).last() == s.last());
    }
}

} // verus!
