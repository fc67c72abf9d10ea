//! Content addressing of produced artifacts.
//!
//! The hash of a grain of story is the SHA-256 digest, in lowercase
//! hexadecimal, of its canonical JSON with the `produced_hash` field set to
//! `null`.  The hash of a capsule is the digest of its descriptor with the
//! capsule-level `produced_hash` set to `null` and each grain's hash filled
//! in.

use vstd::prelude::*;

use crate::capsule::{gos_like, Capsule, Gos, SoundTrack, WebcamSettings};
use crate::json::{descriptor_json, descriptor_json_of, gos_json};
use crate::task_status::TaskStatus;

verus! {

/// The lowercase hexadecimal SHA-256 digest of the UTF-8 bytes of a text.
pub uninterp spec fn sha256_hex(s: Seq<char>) -> Seq<char>;

/// A lowercase hexadecimal digit.
pub open spec fn is_lower_hex(c: char) -> bool {
    ('0' <= c <= '9') || ('a' <= c <= 'f')
}

/// Relies on `sha256::digest`: the digest of the UTF-8 bytes of the input,
/// written as 64 lowercase hexadecimal characters, a function of the input
/// alone.
#[verifier::external_body]
fn sha256_hex_of(s: &str) -> (r: String)
    ensures
        r@ == sha256_hex(s@),
        r@.len() == 64,
        forall|i: int| 0 <= i < 64 ==> is_lower_hex(#[trigger] r@[i]),
{
    sha256::digest(s)
}

/// The canonical JSON of a grain with its `produced_hash` elided.
pub open spec fn gos_hash_seed(g: Gos) -> Seq<char> {
    gos_json(Gos { produced_hash: None, ..g })
}

/// The content hash of a grain: the digest of its canonical JSON with the
/// `produced_hash` field elided.
pub open spec fn gos_content_hash(g: Gos) -> Seq<char> {
    sha256_hex(gos_hash_seed(g))
}

/// The canonical descriptor of a capsule with the capsule-level
/// `produced_hash` elided.  The grains keep their own hashes.
pub open spec fn capsule_hash_seed(structure: Seq<Gos>, soundtrack: Option<SoundTrack>) -> Seq<
    char,
> {
    descriptor_json(structure, soundtrack, None)
}

/// The content hash of a capsule: the digest of its canonical descriptor
/// with the capsule-level `produced_hash` elided.
pub open spec fn capsule_content_hash(
    structure: Seq<Gos>,
    soundtrack: Option<SoundTrack>,
) -> Seq<char> {
    sha256_hex(capsule_hash_seed(structure, soundtrack))
}

/// Grains holding the same data have the same canonical JSON.
pub proof fn lemma_gos_json_like(a: Gos, b: Gos)
    requires
        gos_like(a, b),
    ensures
        gos_json(a) == gos_json(b),
{
}

/// The content hash of a grain does not depend on the hash stored on it:
/// refreshing a grain's hash twice in a row yields the same hash, and a
/// successful reproduction of an unchanged grain reproduces its hash.
pub proof fn lemma_gos_hash_ignores_stored_hash(g: Gos, h: Option<String>)
    ensures
        gos_content_hash(Gos { produced_hash: h, ..g }) == gos_content_hash(g),
{
    assert(Gos { produced_hash: None, ..Gos { produced_hash: h, ..g } } == Gos {
        produced_hash: None,
        ..g
    });
}

/// Refreshing a grain's hash twice in a row yields the same hash: the
/// second refresh hashes the grain with the first hash stored, which the
/// seed elides.
pub proof fn lemma_refresh_gos_hash_idempotent(g: Gos, h: String)
    ensures
        gos_content_hash(Gos { produced_hash: Some(h), ..g }) == gos_content_hash(g),
{
    lemma_gos_hash_ignores_stored_hash(g, Some(h));
}

/// Grains holding the same data have the same content hash: a successful
/// reproduction of unchanged inputs reproduces the hash, so the artifact
/// overwrites its own key and nothing else moves.
pub proof fn lemma_gos_hash_like(a: Gos, b: Gos)
    requires
        gos_like(a, b),
    ensures
        gos_content_hash(a) == gos_content_hash(b),
{
    lemma_gos_json_like(Gos { produced_hash: None, ..a }, Gos { produced_hash: None, ..b });
}

/// The descriptor of a capsule, as the external encoder receives it: the
/// structure with default webcam settings folded into grains that lack
/// their own and every grain forced to `Idle`, the sound track, and the
/// capsule-level produced hash.
#[derive(Debug)]
pub struct PopyCapsule {
    /// The folded structure of the capsule.
    pub structure: Vec<Gos>,

    /// The sound track of the capsule.
    pub soundtrack: Option<SoundTrack>,

    /// The produced hash of the capsule.
    pub produced_hash: Option<String>,
}

/// One grain of the descriptor: the source grain with the capsule default
/// webcam settings where it has none, and its status forced to `Idle`.
pub open spec fn folded_gos_like(out: Gos, src: Gos, default: WebcamSettings) -> bool {
    &&& out.record == src.record
    &&& out.slides@ == src.slides@
    &&& out.events@ == src.events@
    &&& out.webcam_settings == (match src.webcam_settings {
        Some(w) => Some(w),
        None => Some(default),
    })
    &&& out.fade == src.fade
    &&& out.produced_hash == src.produced_hash
    &&& out.produced == TaskStatus::Idle
}

impl Capsule {
    /// Builds the descriptor handed to the external encoder.
    pub fn popy(&self) -> (r: PopyCapsule)
        ensures
            r.structure@.len() == self.structure@.len(),
            forall|i: int|
                0 <= i < self.structure@.len() ==> folded_gos_like(
                    #[trigger] r.structure@[i],
                    self.structure@[i],
                    self.webcam_settings,
                ),
            r.soundtrack == self.sound_track,
            r.produced_hash == self.produced_hash,
    {
        let mut structure: Vec<Gos> = Vec::new();
        let n = self.structure.len();
        let mut i: usize = 0;
        while i < n
            invariant
                0 <= i <= n,
                n == self.structure@.len(),
                structure@.len() == i,
                forall|k: int|
                    0 <= k < i ==> folded_gos_like(
                        #[trigger] structure@[k],
                        self.structure@[k],
                        self.webcam_settings,
                    ),
            decreases n - i,
        {
            let mut g = self.structure[i].clone();
            g.webcam_settings = match &g.webcam_settings {
                Some(w) => Some(w.clone()),
                None => Some(self.webcam_settings.clone()),
            };
            g.produced = TaskStatus::Idle;
            structure.push(g);
            i += 1;
        }
        PopyCapsule {
            structure,
            soundtrack: match &self.sound_track {
                Some(t) => Some(t.clone()),
                None => None,
            },
            produced_hash: match &self.produced_hash {
                Some(h) => Some(h.clone()),
                None => None,
            },
        }
    }
}

impl PopyCapsule {
    /// Writes the JSON descriptor, with the current hashes.
    pub fn to_string(&self) -> (r: String)
        ensures
            r@ == descriptor_json(self.structure@, self.soundtrack, self.produced_hash),
    {
        descriptor_json_of(&self.structure, &self.soundtrack, &self.produced_hash)
    }

    /// Recomputes the hash of the grain at `id`, stores it on the grain and
    /// returns it.  Returns nothing when `id` is out of range.
    pub fn refresh_gos_hash(&mut self, id: usize) -> (r: Option<String>)
        ensures
            match r {
                Some(h) => {
                    &&& id < old(self).structure@.len()
                    &&& h@ == gos_content_hash(old(self).structure@[id as int])
                    &&& final(self).structure@ == old(self).structure@.update(
                        id as int,
                        (Gos { produced_hash: Some(h), ..old(self).structure@[id as int] }),
                    )
                    &&& final(self).soundtrack == old(self).soundtrack
                    &&& final(self).produced_hash == old(self).produced_hash
                },
                None => id >= old(self).structure@.len() && *final(self) == *old(self),
            },
    {
        if id >= self.structure.len() {
            return None;
        }
        let mut seed = self.structure[id].clone();
        seed.produced_hash = None;
        proof {
            lemma_gos_json_like(
                Gos { produced_hash: None, ..seed },
                Gos { produced_hash: None, ..self.structure@[id as int] },
            );
            assert(Gos { produced_hash: None, ..seed } == seed);
        }
        let h = sha256_hex_of(seed.to_json().as_str());
        let stored = h.clone();
        self.structure[id].produced_hash = Some(stored);
        Some(h)
    }

    /// Recomputes the capsule-level hash from the structure and the sound
    /// track, stores it and returns it.
    pub fn refresh_hash(&mut self) -> (r: String)
        ensures
            r@ == capsule_content_hash(old(self).structure@, old(self).soundtrack),
            final(self).structure@ == old(self).structure@,
            final(self).soundtrack == old(self).soundtrack,
            final(self).produced_hash == Some(r),
    {
        let seed = descriptor_json_of(&self.structure, &self.soundtrack, &None);
        let h = sha256_hex_of(seed.as_str());
        let stored = h.clone();
        self.produced_hash = Some(stored);
        h
    }
}

} // verus!
