//! Garbage collection of a capsule's stored files.
//!
//! The reachable set is derived from the capsule structure: the slide
//! images, the extra resources, the records with their miniatures and
//! pointer tracks, the sound track, and the produced artifacts named by
//! the current content hashes.  Every key outside this set is removable,
//! with one carve-out: while an extra video is being transcoded,
//! extension-less temporary files are kept.

use vstd::prelude::*;

use crate::artifact::{
    asset_m4a_key, asset_m4a_key_of, asset_mp4_key, asset_mp4_key_of, asset_webm_key,
    asset_webm_key_of, asset_webp_key, asset_webp_key_of, capsule_artifact_key,
    capsule_artifact_key_of, gos_artifact_key, gos_artifact_key_of,
};
use crate::capsule::{Capsule, Gos, Slide};
use crate::task_status::TaskStatus;
use crate::text::{int_digits, lemma_int_digits_chars};

verus! {

/// True when the slide references the key: its image, or its extra
/// resource.
pub open spec fn slide_holds_key(id: int, s: Slide, key: Seq<char>) -> bool {
    ||| key == asset_webp_key(id, s.uuid)
    ||| (s.extra matches Some(e) && key == asset_mp4_key(id, e))
}

/// True when the grain references the key: its record with miniature and
/// pointer track, its produced artifact, or one of its slides.
pub open spec fn gos_holds_key(id: int, g: Gos, key: Seq<char>) -> bool {
    ||| (g.record matches Some(r) && (key == asset_webm_key(id, r.uuid) || key == asset_webp_key(
        id,
        r.uuid,
    ) || (r.pointer_uuid matches Some(p) && key == asset_webm_key(id, p))))
    ||| (g.produced_hash matches Some(h) && key == gos_artifact_key(id, h@))
    ||| exists|j: int| 0 <= j < g.slides@.len() && slide_holds_key(id, #[trigger] g.slides@[j], key)
}

/// True when the capsule references the key: through its sound track,
/// through one of its grains, or as its own produced artifact.
pub open spec fn is_reachable(c: Capsule, key: Seq<char>) -> bool {
    ||| (c.sound_track matches Some(t) && key == asset_m4a_key(c.id as int, t.uuid))
    ||| key == capsule_artifact_key(c.id as int)
    ||| exists|i: int|
        0 <= i < c.structure@.len() && gos_holds_key(c.id as int, #[trigger] c.structure@[i], key)
}

/// The index of the first character after the last `/` of the key: the
/// start of its file name.
pub open spec fn name_start(key: Seq<char>) -> int
    decreases key.len(),
{
    if key.len() == 0 {
        0
    } else if key.last() == '/' {
        key.len() as int
    } else {
        name_start(key.drop_last())
    }
}

/// True when the file name of the key has an extension: a dot after its
/// first character.
pub open spec fn key_has_extension(key: Seq<char>) -> bool {
    exists|i: int| name_start(key) < i < key.len() && key[i] == '.'
}

/// Appending a character moves the name start to the end after a slash and
/// keeps it otherwise.
proof fn lemma_name_start_push(s: Seq<char>, c: char)
    ensures
        name_start(s.push(c)) == if c == '/' {
            s.len() as int + 1
        } else {
            name_start(s)
        },
{
    assert(s.push(c).last() == c);
    assert(s.push(c).drop_last() =~= s);
}

/// Decides whether the file name of the key has an extension.
pub fn has_extension(key: &str) -> (b: bool)
    ensures
        b == key_has_extension(key@),
{
    let len = key.unicode_len();
    let mut ns: usize = 0;
    let mut found = false;
    let mut i: usize = 0;
    while i < len
        invariant
            0 <= i <= len,
            len == key@.len(),
            ns <= i,
            ns as int == name_start(key@.subrange(0, i as int)),
            found == exists|k: int| ns < k < i && key@[k] == '.',
        decreases len - i,
    {
        let c = key.get_char(i);
        proof {
            lemma_name_start_push(key@.subrange(0, i as int), c);
            assert(key@.subrange(0, i as int).push(c) =~= key@.subrange(0, i + 1));
        }
        if c == '/' {
            ns = i + 1;
            found = false;
            proof {
                assert(forall|k: int| ns < k < i + 1 ==> !(#[trigger] key@[k] == '.'));
            }
        } else if c == '.' && i > ns {
            found = true;
            proof {
                assert(ns < i as int && key@[i as int] == '.');
            }
        } else {
            proof {
                assert(forall|k: int| ns < k < i + 1 && #[trigger] key@[k] == '.' ==> ns < k < i);
            }
        }
        i += 1;
    }
    proof {
        assert(key@.subrange(0, len as int) =~= key@);
    }
    found
}

/// Decides whether the grain references the key.
fn gos_key_match(id: i32, g: &Gos, key: &String) -> (b: bool)
    ensures
        b == gos_holds_key(id as int, *g, key@),
{
    match &g.record {
        Some(r) => {
            if asset_webm_key_of(id, &r.uuid).eq(key) {
                return true;
            }
            if asset_webp_key_of(id, &r.uuid).eq(key) {
                return true;
            }
            match &r.pointer_uuid {
                Some(p) => {
                    if asset_webm_key_of(id, p).eq(key) {
                        return true;
                    }
                },
                None => {
                },
            }
        },
        None => {
        },
    }
    match &g.produced_hash {
        Some(h) => {
            if gos_artifact_key_of(id, h.as_str()).eq(key) {
                return true;
            }
        },
        None => {
        },
    }
    let n = g.slides.len();
    let mut j: usize = 0;
    while j < n
        invariant
            0 <= j <= n,
            n == g.slides@.len(),
            forall|k: int| 0 <= k < j ==> !slide_holds_key(id as int, #[trigger] g.slides@[k], key@),
            !(g.record matches Some(r) && (key@ == asset_webm_key(id as int, r.uuid) || key@
                == asset_webp_key(id as int, r.uuid) || (r.pointer_uuid matches Some(p) && key@
                == asset_webm_key(id as int, p)))),
            !(g.produced_hash matches Some(h) && key@ == gos_artifact_key(id as int, h@)),
        decreases n - j,
    {
        let s = &g.slides[j];
        if asset_webp_key_of(id, &s.uuid).eq(key) {
            return true;
        }
        match &s.extra {
            Some(e) => {
                if asset_mp4_key_of(id, e).eq(key) {
                    return true;
                }
            },
            None => {
            },
        }
        proof {
            assert(!slide_holds_key(id as int, g.slides@[j as int], key@));
        }
        j += 1;
    }
    false
}

/// Decides whether the capsule references the key.
pub fn key_is_reachable(c: &Capsule, key: &String) -> (b: bool)
    ensures
        b == is_reachable(*c, key@),
{
    match &c.sound_track {
        Some(t) => {
            if asset_m4a_key_of(c.id, &t.uuid).eq(key) {
                return true;
            }
        },
        None => {
        },
    }
    if capsule_artifact_key_of(c.id).eq(key) {
        return true;
    }
    let n = c.structure.len();
    let mut i: usize = 0;
    while i < n
        invariant
            0 <= i <= n,
            n == c.structure@.len(),
            forall|k: int|
                0 <= k < i ==> !gos_holds_key(c.id as int, #[trigger] c.structure@[k], key@),
            !(c.sound_track matches Some(t) && key@ == asset_m4a_key(c.id as int, t.uuid)),
            key@ != capsule_artifact_key(c.id as int),
        decreases n - i,
    {
        if gos_key_match(c.id, &c.structure[i], key) {
            return true;
        }
        i += 1;
    }
    false
}

/// True when garbage collection removes the key: it is unreachable, and it
/// is not an extension-less file protected by a running video transcode.
pub open spec fn gc_removes(c: Capsule, key: Seq<char>) -> bool {
    &&& !is_reachable(c, key)
    &&& (c.video_uploaded != TaskStatus::Running || key_has_extension(key))
}

/// True when some key of the list reads as `key`.
pub open spec fn contains_view(s: Seq<String>, key: Seq<char>) -> bool {
    exists|i: int| 0 <= i < s.len() && (#[trigger] s[i])@ == key
}

/// The keys to delete: those of the existing keys that garbage collection
/// removes, each of the existing keys appearing in the plan exactly when it
/// is removable.
pub fn gc_plan(c: &Capsule, existing: &Vec<String>) -> (r: Vec<String>)
    ensures
        forall|j: int|
            0 <= j < existing@.len() ==> (contains_view(r@, (#[trigger] existing@[j])@)
                <==> gc_removes(*c, existing@[j]@)),
        forall|i: int|
            0 <= i < r@.len() ==> gc_removes(*c, (#[trigger] r@[i])@) && contains_view(
                existing@,
                r@[i]@,
            ),
{
    let mut r: Vec<String> = Vec::new();
    let n = existing.len();
    let mut j: usize = 0;
    while j < n
        invariant
            0 <= j <= n,
            n == existing@.len(),
            forall|jj: int|
                0 <= jj < j ==> (contains_view(r@, (#[trigger] existing@[jj])@) <==> gc_removes(
                    *c,
                    existing@[jj]@,
                )),
            forall|i: int|
                0 <= i < r@.len() ==> gc_removes(*c, (#[trigger] r@[i])@) && contains_view(
                    existing@,
                    r@[i]@,
                ),
        decreases n - j,
    {
        let key = &existing[j];
        let keep_less = c.video_uploaded != TaskStatus::Running || has_extension(key.as_str());
        if !key_is_reachable(c, key) && keep_less {
            let ghost old_r = r@;
            r.push(key.clone());
            proof {
                assert(r@[r@.len() - 1]@ == existing@[j as int]@);
                assert(forall|i: int| 0 <= i < old_r.len() ==> r@[i] == old_r[i]);
                assert(contains_view(existing@, existing@[j as int]@));
                assert(forall|jj: int|
                    0 <= jj < j && contains_view(old_r, (#[trigger] existing@[jj])@)
                        ==> contains_view(r@, existing@[jj]@));
            }
        } else {
            proof {
                assert(!gc_removes(*c, existing@[j as int]@));
            }
        }
        proof {
            assert(contains_view(r@, existing@[j as int]@) <==> gc_removes(
                *c,
                existing@[j as int]@,
            ));
        }
        j += 1;
    }
    r
}

/// After garbage collection, the assets that remain are exactly the
/// reachable ones, together with the extension-less files protected while
/// an extra video is being transcoded.
pub proof fn lemma_gc_orphan_coverage(c: Capsule, all: Set<Seq<char>>)
    ensures
        all.difference(all.filter(|k: Seq<char>| gc_removes(c, k))) =~= all.filter(
            |k: Seq<char>|
                is_reachable(c, k) || (c.video_uploaded == TaskStatus::Running
                    && !key_has_extension(k)),
        ),
{
}

/// A key under the assets prefix never names a produced artifact: the two
/// prefixes disagree right after the capsule id.
proof fn lemma_asset_key_ne_artifact(id: int, tail: Seq<char>, h: Seq<char>)
    ensures
        int_digits(id) + "/assets/"@ + tail != gos_artifact_key(id, h),
{
    reveal_strlit("/assets/");
    reveal_strlit("/produced/");
    lemma_int_digits_chars(id);
    let a = int_digits(id) + "/assets/"@ + tail;
    let b = gos_artifact_key(id, h);
    let l = int_digits(id).len() as int;
    if a == b {
        assert(a[l + 1] == ("/assets/"@)[1]);
        assert(b[l + 1] == ("/produced/"@)[1]);
    }
}

/// Produced artifact keys of one capsule are distinct for distinct hashes.
proof fn lemma_gos_artifact_key_inj(id: int, h1: Seq<char>, h2: Seq<char>)
    ensures
        gos_artifact_key(id, h1) == gos_artifact_key(id, h2) ==> h1 == h2,
{
    reveal_strlit("/produced/");
    reveal_strlit(".mp4");
    if gos_artifact_key(id, h1) == gos_artifact_key(id, h2) {
        let l = int_digits(id).len() as int;
        assert(gos_artifact_key(id, h1).len() == l + 10 + h1.len() + 4);
        assert(gos_artifact_key(id, h2).len() == l + 10 + h2.len() + 4);
        assert(h1 =~= h2) by {
            assert forall|k: int| 0 <= k < h1.len() implies h1[k] == h2[k] by {
                assert(gos_artifact_key(id, h1)[l + 10 + k] == h1[k]);
                assert(gos_artifact_key(id, h2)[l + 10 + k] == h2[k]);
            }
        }
    }
}

/// Appending characters that are not slashes leaves the file name starting
/// right after the trailing slash of the prefix.
proof fn lemma_name_start_no_slash_suffix(x: Seq<char>, y: Seq<char>)
    requires
        x.len() > 0,
        x.last() == '/',
        forall|k: int| 0 <= k < y.len() ==> y[k] != '/',
    ensures
        name_start(x + y) == x.len(),
    decreases y.len(),
{
    if y.len() == 0 {
        assert(x + y =~= x);
    } else {
        assert((x + y).last() == y.last());
        assert((x + y).drop_last() =~= x + y.drop_last());
        assert(forall|k: int| 0 <= k < y.drop_last().len() ==> y.drop_last()[k] == y[k]);
        lemma_name_start_no_slash_suffix(x, y.drop_last());
    }
}

/// A produced artifact whose hash differs from every grain's current hash
/// is unreachable, and its `.mp4` extension keeps it outside the
/// extension-less carve-out: garbage collection removes it whether or not
/// an extra video is being transcoded.  This is how a partial artifact
/// left by a cancelled or failed production goes at the next sweep.
pub proof fn lemma_stale_artifact_collected(c: Capsule, h: Seq<char>)
    requires
        h.len() > 0,
        forall|k: int| 0 <= k < h.len() ==> h[k] != '/',
        h != "capsule"@,
        forall|i: int|
            0 <= i < c.structure@.len() ==> (match (#[trigger] c.structure@[i]).produced_hash {
                Some(ph) => ph@ != h,
                None => true,
            }),
    ensures
        gc_removes(c, gos_artifact_key(c.id as int, h)),
{
    reveal_strlit("/assets/");
    reveal_strlit("/produced/");
    reveal_strlit(".mp4");
    reveal_strlit("/produced/capsule.mp4");
    reveal_strlit("capsule");
    lemma_int_digits_chars(c.id as int);
    let id = c.id as int;
    let key = gos_artifact_key(id, h);
    let l = int_digits(id).len() as int;
    assert(key.len() == l + 10 + h.len() + 4);
    assert(!is_reachable(c, key)) by {
        match c.sound_track {
            Some(t) => {
                assert(asset_m4a_key(id, t.uuid) =~= int_digits(id) + "/assets/"@ + (
                crate::ids::uuid_str(t.uuid) + ".m4a"@));
                lemma_asset_key_ne_artifact(id, crate::ids::uuid_str(t.uuid) + ".m4a"@, h);
            },
            None => {},
        }
        assert(key != capsule_artifact_key(id)) by {
            if key == capsule_artifact_key(id) {
                assert(capsule_artifact_key(id).len() == l + 21);
                assert(h.len() == 7);
                assert(h =~= "capsule"@) by {
                    assert forall|k: int| 0 <= k < 7 implies h[k] == ("capsule"@)[k] by {
                        assert(key[l + 10 + k] == h[k]);
                        assert(capsule_artifact_key(id)[l + 10 + k] == (
                        "/produced/capsule.mp4"@)[10 + k]);
                    }
                }
            }
        }
        assert forall|i: int|
            0 <= i < c.structure@.len() implies !gos_holds_key(
            id,
            #[trigger] c.structure@[i],
            key,
        ) by {
            let g = c.structure@[i];
            match g.record {
                Some(r) => {
                    assert(asset_webm_key(id, r.uuid) =~= int_digits(id) + "/assets/"@ + (
                    crate::ids::uuid_str(r.uuid) + ".webm"@)) by {
                        reveal_strlit(".webm");
                    }
                    lemma_asset_key_ne_artifact(id, crate::ids::uuid_str(r.uuid) + ".webm"@, h);
                    assert(asset_webp_key(id, r.uuid) =~= int_digits(id) + "/assets/"@ + (
                    crate::ids::uuid_str(r.uuid) + ".webp"@)) by {
                        reveal_strlit(".webp");
                    }
                    lemma_asset_key_ne_artifact(id, crate::ids::uuid_str(r.uuid) + ".webp"@, h);
                    match r.pointer_uuid {
                        Some(p) => {
                            assert(asset_webm_key(id, p) =~= int_digits(id) + "/assets/"@ + (
                            crate::ids::uuid_str(p) + ".webm"@)) by {
                                reveal_strlit(".webm");
                            }
                            lemma_asset_key_ne_artifact(id, crate::ids::uuid_str(p) + ".webm"@, h);
                        },
                        None => {},
                    }
                },
                None => {},
            }
            match g.produced_hash {
                Some(ph) => {
                    lemma_gos_artifact_key_inj(id, ph@, h);
                },
                None => {},
            }
            assert forall|j: int|
                0 <= j < g.slides@.len() implies !slide_holds_key(
                id,
                #[trigger] g.slides@[j],
                key,
            ) by {
                let s = g.slides@[j];
                assert(asset_webp_key(id, s.uuid) =~= int_digits(id) + "/assets/"@ + (
                crate::ids::uuid_str(s.uuid) + ".webp"@)) by {
                    reveal_strlit(".webp");
                }
                lemma_asset_key_ne_artifact(id, crate::ids::uuid_str(s.uuid) + ".webp"@, h);
                match s.extra {
                    Some(e) => {
                        assert(asset_mp4_key(id, e) =~= int_digits(id) + "/assets/"@ + (
                        crate::ids::uuid_str(e) + ".mp4"@));
                        lemma_asset_key_ne_artifact(id, crate::ids::uuid_str(e) + ".mp4"@, h);
                    },
                    None => {},
                }
            }
        }
    }
    assert(key_has_extension(key)) by {
        let x = int_digits(id) + "/produced/"@;
        let y = h + ".mp4"@;
        assert(key =~= x + y);
        assert(x.last() == '/');
        assert(forall|k: int| 0 <= k < y.len() ==> y[k] != '/') by {
            assert(forall|k: int| 0 <= k < 4 ==> (".mp4"@)[k] != '/');
        }
        lemma_name_start_no_slash_suffix(x, y);
        assert(name_start(key) == x.len());
        let dot = x.len() + h.len();
        assert(key[dot as int] == '.');
        assert(name_start(key) < dot < key.len());
    }
}

} // verus!
