//! Finalization of pipeline runs.
//!
//! The unverified driver spawns the external encoder, streams its
//! progress, and reports the outcome here.  These functions make every
//! decision that follows: which hashes to refresh, which artifacts to
//! upload or delete, which statuses to set, and that the recorded pid is
//! cleared on every path.

use vstd::prelude::*;

use crate::artifact::{
    capsule_gos_production_actions, gos_artifact_key, gos_production_actions, ArtifactActions,
};
use crate::capsule::{Capsule, Gos};
use crate::error::{Error, ErrorKind};
use crate::hash::{capsule_content_hash, gos_content_hash, PopyCapsule};
use crate::task_status::TaskStatus;
use crate::text::{decimal_milli, is_decimal, parse_decimal_milli};

verus! {

impl Capsule {
    /// Records the pid of a running production.
    pub fn set_production_pid(&mut self, pid: Option<i32>)
        ensures
            *final(self) == (Capsule { production_pid: pid, ..*old(self) }),
    {
        self.production_pid = pid;
    }

    /// Records the pid of a running publication.
    pub fn set_publication_pid(&mut self, pid: Option<i32>)
        ensures
            *final(self) == (Capsule { publication_pid: pid, ..*old(self) }),
    {
        self.publication_pid = pid;
    }

    /// Starts an extra-video transcode: the upload status runs and its pid
    /// is recorded.
    pub fn start_video_upload(&mut self, pid: Option<i32>)
        ensures
            *final(self) == (Capsule {
                video_uploaded: TaskStatus::Running,
                video_uploaded_pid: pid,
                ..*old(self)
            }),
    {
        self.video_uploaded = TaskStatus::Running;
        self.video_uploaded_pid = pid;
    }

    /// Finalizes the production of one grain.  On success the grain's hash
    /// is refreshed from the descriptor; the fresh artifact is uploaded and
    /// the stale one removed exactly when the hash changed; the grain is
    /// `Done`.  On failure the grain falls back to `Idle` and no storage is
    /// touched.  The production pid is cleared on every path.
    pub fn finish_gos_production(
        &mut self,
        popy: &mut PopyCapsule,
        gos_id: usize,
        success: bool,
    ) -> (r: Result<ArtifactActions, Error>)
        ensures
            match r {
                Ok(a) => {
                    &&& gos_id < old(self).structure@.len()
                    &&& gos_id < old(popy).structure@.len()
                    &&& final(self).production_pid == None::<i32>
                    &&& (Capsule {
                        structure: final(self).structure,
                        production_pid: None::<i32>,
                        ..*old(self)
                    }) == *final(self)
                    &&& final(self).structure@.len() == old(self).structure@.len()
                    &&& forall|j: int|
                        0 <= j < old(self).structure@.len() && j != gos_id
                            ==> final(self).structure@[j] == old(self).structure@[j]
                    &&& if success {
                        let h = gos_content_hash(old(popy).structure@[gos_id as int]);
                        {
                            &&& final(self).structure@[gos_id as int].produced == TaskStatus::Done
                            &&& final(self).structure@[gos_id as int].produced_hash matches Some(
                                hs,
                            ) && hs@ == h
                            &&& {
                                let fh = final(self).structure@[gos_id as int].produced_hash;
                                (Gos {
                                    produced: TaskStatus::Done,
                                    produced_hash: fh,
                                    ..old(self).structure@[gos_id as int]
                                }) == final(self).structure@[gos_id as int]
                            }
                            &&& (match old(self).structure@[gos_id as int].produced_hash {
                                Some(o) => {
                                    if o@ == h {
                                        a.upload is None && a.remove is None
                                    } else {
                                        (a.upload matches Some(up) && up@ == gos_artifact_key(
                                            old(self).id as int,
                                            h,
                                        )) && (a.remove matches Some(rm) && rm@
                                            == gos_artifact_key(old(self).id as int, o@))
                                    }
                                },
                                None => (a.upload matches Some(up) && up@ == gos_artifact_key(
                                    old(self).id as int,
                                    h,
                                )) && a.remove is None,
                            })
                        }
                    } else {
                        {
                            &&& final(self).structure@[gos_id as int] == (Gos {
                                produced: TaskStatus::Idle,
                                ..old(self).structure@[gos_id as int]
                            })
                            &&& a.upload is None
                            &&& a.remove is None
                            &&& *final(popy) == *old(popy)
                        }
                    }
                },
                Err(e) => e == Error(ErrorKind::ClientInput) && *final(self) == *old(self)
                    && *final(popy) == *old(popy) && (gos_id >= old(self).structure@.len() || gos_id
                    >= old(popy).structure@.len()),
            },
    {
        if gos_id >= self.structure.len() || gos_id >= popy.structure.len() {
            return Err(Error(ErrorKind::ClientInput));
        }
        if !success {
            self.structure[gos_id].produced = TaskStatus::Idle;
            self.production_pid = None;
            return Ok(ArtifactActions { upload: None, remove: None });
        }
        let h = match popy.refresh_gos_hash(gos_id) {
            Some(h) => h,
            None => {
                return Err(Error(ErrorKind::ClientInput));
            },
        };
        let actions = gos_production_actions(self.id, &self.structure[gos_id].produced_hash, &h);
        self.structure[gos_id].produced_hash = Some(h);
        self.structure[gos_id].produced = TaskStatus::Done;
        self.production_pid = None;
        Ok(actions)
    }

    /// Finalizes a full-capsule production.  On success every grain's hash
    /// is refreshed; each artifact is uploaded under its fresh key, and the
    /// stale one removed exactly when the hash changed; the capsule-level
    /// hash is refreshed over the refreshed grains; the capsule and all its
    /// grains are `Done`.  On failure the capsule and all its grains fall
    /// back to `Idle` and no storage is touched.  The production pid is
    /// cleared on every path.
    #[verifier::rlimit(60)]
    pub fn finish_capsule_production(&mut self, popy: &mut PopyCapsule, success: bool) -> (r:
        Result<Vec<ArtifactActions>, Error>)
        ensures
            match r {
                Ok(actions) => {
                    &&& old(popy).structure@.len() == old(self).structure@.len()
                    &&& final(self).production_pid == None::<i32>
                    &&& (Capsule {
                        structure: final(self).structure,
                        production_pid: None::<i32>,
                        produced: final(self).produced,
                        produced_hash: final(self).produced_hash,
                        ..*old(self)
                    }) == *final(self)
                    &&& final(self).structure@.len() == old(self).structure@.len()
                    &&& if success {
                        {
                            &&& final(self).produced == TaskStatus::Done
                            &&& actions@.len() == old(self).structure@.len()
                            &&& (final(self).produced_hash matches Some(h) && h@
                                == capsule_content_hash(
                                final(popy).structure@,
                                old(popy).soundtrack,
                            ))
                            &&& final(popy).soundtrack == old(popy).soundtrack
                            &&& final(popy).structure@.len() == old(popy).structure@.len()
                            &&& forall|i: int|
                                0 <= i < old(self).structure@.len() ==> {
                                    let h = gos_content_hash(old(popy).structure@[i]);
                                    {
                                        &&& (#[trigger] final(self).structure@[i]).produced
                                            == TaskStatus::Done
                                        &&& final(self).structure@[i].produced_hash matches Some(
                                            hs,
                                        ) && hs@ == h
                                        &&& (Gos {
                                            produced: TaskStatus::Done,
                                            produced_hash: final(self).structure@[i].produced_hash,
                                            ..old(self).structure@[i]
                                        }) == final(self).structure@[i]
                                        &&& (#[trigger] actions@[i]).upload matches Some(up)
                                            && up@ == gos_artifact_key(old(self).id as int, h)
                                        &&& (match old(self).structure@[i].produced_hash {
                                            Some(o) => {
                                                if o@ == h {
                                                    actions@[i].remove is None
                                                } else {
                                                    actions@[i].remove matches Some(rm) && rm@
                                                        == gos_artifact_key(
                                                        old(self).id as int,
                                                        o@,
                                                    )
                                                }
                                            },
                                            None => actions@[i].remove is None,
                                        })
                                    }
                                }
                        }
                    } else {
                        {
                            &&& final(self).produced == TaskStatus::Idle
                            &&& final(self).produced_hash == old(self).produced_hash
                            &&& *final(popy) == *old(popy)
                            &&& actions@.len() == 0
                            &&& forall|i: int|
                                0 <= i < old(self).structure@.len()
                                    ==> #[trigger] final(self).structure@[i] == (Gos {
                                    produced: TaskStatus::Idle,
                                    ..old(self).structure@[i]
                                })
                        }
                    }
                },
                Err(e) => e == Error(ErrorKind::ClientInput) && *final(self) == *old(self)
                    && *final(popy) == *old(popy) && old(popy).structure@.len() != old(self).structure@.len(),
            },
    {
        if popy.structure.len() != self.structure.len() {
            return Err(Error(ErrorKind::ClientInput));
        }
        let n = self.structure.len();
        if !success {
            let mut i: usize = 0;
            while i < n
                invariant
                    0 <= i <= n,
                    n == self.structure@.len(),
                    n == old(self).structure@.len(),
                    self.structure@.len() == old(self).structure@.len(),
                    (Capsule { structure: self.structure, ..*old(self) }) == *self,
                    forall|j: int|
                        0 <= j < i ==> #[trigger] self.structure@[j] == (Gos {
                            produced: TaskStatus::Idle,
                            ..old(self).structure@[j]
                        }),
                    forall|j: int|
                        i <= j < n ==> #[trigger] self.structure@[j] == old(self).structure@[j],
                decreases n - i,
            {
                self.structure[i].produced = TaskStatus::Idle;
                i += 1;
            }
            self.produced = TaskStatus::Idle;
            self.production_pid = None;
            return Ok(Vec::new());
        }
        let mut actions: Vec<ArtifactActions> = Vec::new();
        let mut i: usize = 0;
        while i < n
            invariant
                0 <= i <= n,
                n == self.structure@.len(),
                n == old(self).structure@.len(),
                n == popy.structure@.len(),
                n == old(popy).structure@.len(),
                self.id == old(self).id,
                (Capsule { structure: self.structure, ..*old(self) }) == *self,
                popy.soundtrack == old(popy).soundtrack,
                popy.produced_hash == old(popy).produced_hash,
                actions@.len() == i,
                forall|j: int|
                    i <= j < n ==> #[trigger] self.structure@[j] == old(self).structure@[j],
                forall|j: int|
                    i <= j < n ==> #[trigger] popy.structure@[j] == old(popy).structure@[j],
                forall|j: int|
                    0 <= j < i ==> #[trigger] popy.structure@[j] == (Gos {
                        produced_hash: popy.structure@[j].produced_hash,
                        ..old(popy).structure@[j]
                    }) && (popy.structure@[j].produced_hash matches Some(hp) && hp@
                        == gos_content_hash(old(popy).structure@[j])),
                forall|j: int|
                    0 <= j < i ==> {
                        let h = gos_content_hash(old(popy).structure@[j]);
                        {
                            &&& (#[trigger] self.structure@[j]).produced == TaskStatus::Done
                            &&& self.structure@[j].produced_hash matches Some(hs) && hs@ == h
                            &&& (Gos {
                                produced: TaskStatus::Done,
                                produced_hash: self.structure@[j].produced_hash,
                                ..old(self).structure@[j]
                            }) == self.structure@[j]
                            &&& (#[trigger] actions@[j]).upload matches Some(up) && up@
                                == gos_artifact_key(old(self).id as int, h)
                            &&& (match old(self).structure@[j].produced_hash {
                                Some(o) => {
                                    if o@ == h {
                                        actions@[j].remove is None
                                    } else {
                                        actions@[j].remove matches Some(rm) && rm@
                                            == gos_artifact_key(old(self).id as int, o@)
                                    }
                                },
                                None => actions@[j].remove is None,
                            })
                        }
                    },
            decreases n - i,
        {
            let h = match popy.refresh_gos_hash(i) {
                Some(h) => h,
                None => {
                    proof {
                        assert(false);
                    }
                    return Err(Error(ErrorKind::ClientInput));
                },
            };
            let a = capsule_gos_production_actions(
                self.id,
                &self.structure[i].produced_hash,
                &h,
            );
            actions.push(a);
            self.structure[i].produced_hash = Some(h);
            self.structure[i].produced = TaskStatus::Done;
            i += 1;
        }
        let _capsule_hash = popy.refresh_hash();
        let stored = _capsule_hash;
        self.produced_hash = Some(stored);
        self.produced = TaskStatus::Done;
        self.production_pid = None;
        Ok(actions)
    }

    /// Sets the measured duration from the probe's output line, in
    /// milliseconds.  The probe prints seconds as a decimal number.
    pub fn set_duration_from_probe(&mut self, line: &str) -> (r: Result<(), Error>)
        ensures
            match r {
                Ok(()) => is_decimal(line@) && decimal_milli(line@) <= i32::MAX && *final(self)
                    == (Capsule {
                    duration_ms: final(self).duration_ms,
                    ..*old(self)
                }) && final(self).duration_ms as nat == decimal_milli(line@),
                Err(e) => e == Error(ErrorKind::ExternalTool) && *final(self) == *old(self) && (
                !is_decimal(line@) || decimal_milli(line@) > i32::MAX),
            },
    {
        match parse_decimal_milli(line) {
            Some(v) => {
                if v <= 2147483647 {
                    self.duration_ms = v as i32;
                    Ok(())
                } else {
                    Err(Error(ErrorKind::ExternalTool))
                }
            },
            None => Err(Error(ErrorKind::ExternalTool)),
        }
    }

    /// Finalizes a publication: `Done` on success, back to `Idle` on
    /// failure; the publication pid is cleared on every path.
    pub fn finish_publication(&mut self, success: bool)
        ensures
            *final(self) == (Capsule {
                published: if success {
                    TaskStatus::Done
                } else {
                    TaskStatus::Idle
                },
                publication_pid: None::<i32>,
                ..*old(self)
            }),
            crate::capsule::state_ok(*old(self)) ==> crate::capsule::state_ok(*final(self)),
    {
        self.published = TaskStatus::Done;
        if !success {
            self.published = TaskStatus::Idle;
        }
        self.publication_pid = None;
    }

    /// Finalizes an extra-video transcode.  The slide that carried the
    /// source video gets the transcoded resource on success and loses it on
    /// failure, and the recording of its grain is dropped; the upload
    /// status and pid are settled on every path.  Returns whether the slide
    /// was found.
    pub fn finish_video_upload(
        &mut self,
        slide_uuid: &crate::ids::Uuid,
        output_uuid: &crate::ids::Uuid,
        success: bool,
    ) -> (r: bool)
        ensures
            final(self).video_uploaded == (if success {
                TaskStatus::Done
            } else {
                TaskStatus::Idle
            }),
            final(self).video_uploaded_pid == None::<i32>,
            (Capsule {
                structure: final(self).structure,
                video_uploaded: final(self).video_uploaded,
                video_uploaded_pid: None::<i32>,
                ..*old(self)
            }) == *final(self),
            final(self).structure@.len() == old(self).structure@.len(),
            !r ==> final(self).structure@ == old(self).structure@ && (forall|gi: int, si: int|
                0 <= gi < old(self).structure@.len() && 0 <= si
                    < old(self).structure@[gi].slides@.len() ==> (#[trigger] old(self).structure@[gi].slides@[si]).uuid != *slide_uuid),
            r ==> exists|gi: int, si: int|
                {
                    &&& 0 <= gi < old(self).structure@.len()
                    &&& 0 <= si < old(self).structure@[gi].slides@.len()
                    &&& (#[trigger] old(self).structure@[gi].slides@[si]).uuid == *slide_uuid
                    &&& final(self).structure@ == old(self).structure@.update(
                        gi,
                        (Gos {
                            record: None,
                            slides: final(self).structure@[gi].slides,
                            ..old(self).structure@[gi]
                        }),
                    )
                    &&& final(self).structure@[gi].slides@ == old(self).structure@[gi].slides@.update(
                        si,
                        (crate::capsule::Slide {
                            extra: if success {
                                Some(*output_uuid)
                            } else {
                                None
                            },
                            ..old(self).structure@[gi].slides@[si]
                        }),
                    )
                },
    {
        let mut found_gi: usize = 0;
        let mut found_si: usize = 0;
        let mut found = false;
        let n = self.structure.len();
        let mut gi: usize = 0;
        while gi < n
            invariant
                0 <= gi <= n,
                n == self.structure@.len(),
                *self == *old(self),
                found ==> found_gi < gi && found_si < self.structure@[found_gi as int].slides@.len()
                    && self.structure@[found_gi as int].slides@[found_si as int].uuid
                    == *slide_uuid,
                !found ==> forall|g: int, s: int|
                    0 <= g < gi && 0 <= s < self.structure@[g].slides@.len() ==> (#[trigger] self
                        .structure@[g].slides@[s]).uuid != *slide_uuid,
            decreases n - gi,
        {
            let m = self.structure[gi].slides.len();
            let mut si: usize = 0;
            while si < m
                invariant
                    0 <= si <= m,
                    0 <= gi < n,
                    n == self.structure@.len(),
                    m == self.structure@[gi as int].slides@.len(),
                    *self == *old(self),
                    found ==> found_gi <= gi && found_si < self.structure@[found_gi as int].slides@.len()
                        && self.structure@[found_gi as int].slides@[found_si as int].uuid
                        == *slide_uuid,
                    !found ==> (forall|g: int, s: int|
                        0 <= g < gi && 0 <= s < self.structure@[g].slides@.len() ==> (
                        #[trigger] self.structure@[g].slides@[s]).uuid != *slide_uuid) && forall|
                        s: int,
                    |
                        0 <= s < si ==> (#[trigger] self.structure@[gi as int].slides@[s]).uuid
                            != *slide_uuid,
                decreases m - si,
            {
                if self.structure[gi].slides[si].uuid.hi == slide_uuid.hi
                    && self.structure[gi].slides[si].uuid.lo == slide_uuid.lo {
                    found = true;
                    found_gi = gi;
                    found_si = si;
                }
                si += 1;
            }
            gi += 1;
        }
        if found {
            self.structure[found_gi].record = None;
            self.structure[found_gi].slides[found_si].extra = if success {
                Some(*output_uuid)
            } else {
                None
            };
        }
        self.video_uploaded = if success {
            TaskStatus::Done
        } else {
            TaskStatus::Idle
        };
        self.video_uploaded_pid = None;
        found
    }
}

} // verus!
