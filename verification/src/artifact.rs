//! Storage keys of capsule artifacts, and the storage actions that follow a
//! successful production.
//!
//! The key space is `{capsule_id}/{assets|produced|published}/…`: user
//! assets under `assets/`, content-addressed per-grain outputs and the
//! full-capsule output under `produced/`, the HLS tree under `published/`.

use vstd::prelude::*;

use crate::ids::{uuid_str, Uuid};
use crate::text::{fmt_i32, int_digits};

verus! {

/// The key of a slide image or record miniature.
pub open spec fn asset_webp_key(id: int, u: Uuid) -> Seq<char> {
    int_digits(id) + "/assets/"@ + uuid_str(u) + ".webp"@
}

/// The key of a record or pointer track.
pub open spec fn asset_webm_key(id: int, u: Uuid) -> Seq<char> {
    int_digits(id) + "/assets/"@ + uuid_str(u) + ".webm"@
}

/// The key of an extra resource.
pub open spec fn asset_mp4_key(id: int, u: Uuid) -> Seq<char> {
    int_digits(id) + "/assets/"@ + uuid_str(u) + ".mp4"@
}

/// The key of a sound track.
pub open spec fn asset_m4a_key(id: int, u: Uuid) -> Seq<char> {
    int_digits(id) + "/assets/"@ + uuid_str(u) + ".m4a"@
}

/// The key of the produced artifact of a grain, named by its content hash.
pub open spec fn gos_artifact_key(id: int, hash: Seq<char>) -> Seq<char> {
    int_digits(id) + "/produced/"@ + hash + ".mp4"@
}

/// The key of the produced artifact of the whole capsule.
pub open spec fn capsule_artifact_key(id: int) -> Seq<char> {
    int_digits(id) + "/produced/capsule.mp4"@
}

/// The prefix under which a capsule's assets live.
pub open spec fn assets_prefix(id: int) -> Seq<char> {
    int_digits(id) + "/assets/"@
}

/// The prefix under which a capsule's published tree lives.
pub open spec fn published_prefix(id: int) -> Seq<char> {
    int_digits(id) + "/published"@
}

/// Writes an asset key from the identifier and the extension.
fn asset_key_of(id: i32, u: &Uuid, ext: &str) -> (r: String)
    ensures
        r@ == int_digits(id as int) + "/assets/"@ + uuid_str(*u) + ext@,
{
    let mut out = fmt_i32(id);
    out.append("/assets/");
    out.append(u.format().as_str());
    out.append(ext);
    out
}

/// Writes the key of a slide image or record miniature.
pub fn asset_webp_key_of(id: i32, u: &Uuid) -> (r: String)
    ensures
        r@ == asset_webp_key(id as int, *u),
{
    asset_key_of(id, u, ".webp")
}

/// Writes the key of a record or pointer track.
pub fn asset_webm_key_of(id: i32, u: &Uuid) -> (r: String)
    ensures
        r@ == asset_webm_key(id as int, *u),
{
    asset_key_of(id, u, ".webm")
}

/// Writes the key of an extra resource.
pub fn asset_mp4_key_of(id: i32, u: &Uuid) -> (r: String)
    ensures
        r@ == asset_mp4_key(id as int, *u),
{
    asset_key_of(id, u, ".mp4")
}

/// Writes the key of a sound track.
pub fn asset_m4a_key_of(id: i32, u: &Uuid) -> (r: String)
    ensures
        r@ == asset_m4a_key(id as int, *u),
{
    asset_key_of(id, u, ".m4a")
}

/// Writes the key of the produced artifact of a grain.
pub fn gos_artifact_key_of(id: i32, hash: &str) -> (r: String)
    ensures
        r@ == gos_artifact_key(id as int, hash@),
{
    let mut out = fmt_i32(id);
    out.append("/produced/");
    out.append(hash);
    out.append(".mp4");
    out
}

/// Writes the key of the produced artifact of the whole capsule.
pub fn capsule_artifact_key_of(id: i32) -> (r: String)
    ensures
        r@ == capsule_artifact_key(id as int),
{
    let mut out = fmt_i32(id);
    out.append("/produced/capsule.mp4");
    out
}

/// Writes the prefix under which a capsule's assets live.
pub fn assets_prefix_of(id: i32) -> (r: String)
    ensures
        r@ == assets_prefix(id as int),
{
    let mut out = fmt_i32(id);
    out.append("/assets/");
    out
}

/// Writes the prefix under which a capsule's published tree lives.
pub fn published_prefix_of(id: i32) -> (r: String)
    ensures
        r@ == published_prefix(id as int),
{
    let mut out = fmt_i32(id);
    out.append("/published");
    out
}

/// Moves a key from under one prefix to under another, as a directory
/// copy does for each of its files.  Succeeds exactly on keys under the
/// source prefix.
pub fn rebase_key(key: &str, src_prefix: &str, dst_prefix: &str) -> (r: Option<String>)
    ensures
        match r {
            Some(out) => key@.len() >= src_prefix@.len() && key@.subrange(
                0,
                src_prefix@.len() as int,
            ) == src_prefix@ && out@ == dst_prefix@ + key@.subrange(
                src_prefix@.len() as int,
                key@.len() as int,
            ),
            None => key@.len() < src_prefix@.len() || key@.subrange(
                0,
                src_prefix@.len() as int,
            ) != src_prefix@,
        },
{
    let klen = key.unicode_len();
    let plen = src_prefix.unicode_len();
    if klen < plen {
        return None;
    }
    let head = key.substring_char(0, plen).to_owned();
    if !head.eq(&src_prefix.to_owned()) {
        return None;
    }
    let mut out = dst_prefix.to_owned();
    out.append(key.substring_char(plen, klen));
    proof {
        assert(out@ =~= dst_prefix@ + key@.subrange(
            src_prefix@.len() as int,
            key@.len() as int,
        ));
    }
    Some(out)
}

/// The storage actions that follow a successful production of one grain:
/// at most one upload and at most one removal.
#[derive(Debug)]
pub struct ArtifactActions {
    /// The key to upload the fresh artifact under, if any.
    pub upload: Option<String>,

    /// The key of the stale artifact to remove, if any.
    pub remove: Option<String>,
}

/// The actions after a grain was produced on its own: when the hash did not
/// change, nothing is uploaded and nothing is removed; when it changed, the
/// fresh artifact is uploaded and the stale one, if any, is removed.
pub fn gos_production_actions(capsule_id: i32, old_hash: &Option<String>, new_hash: &String) -> (r:
    ArtifactActions)
    ensures
        match *old_hash {
            Some(ref o) => {
                if o@ == new_hash@ {
                    r.upload is None && r.remove is None
                } else {
                    {
                        &&& r.upload matches Some(up) && up@ == gos_artifact_key(
                            capsule_id as int,
                            new_hash@,
                        )
                        &&& r.remove matches Some(rm) && rm@ == gos_artifact_key(
                            capsule_id as int,
                            o@,
                        )
                    }
                }
            },
            None => (r.upload matches Some(up) && up@ == gos_artifact_key(
                capsule_id as int,
                new_hash@,
            )) && r.remove is None,
        },
{
    match old_hash {
        Some(o) => {
            if o.eq(new_hash) {
                ArtifactActions { upload: None, remove: None }
            } else {
                ArtifactActions {
                    upload: Some(gos_artifact_key_of(capsule_id, new_hash.as_str())),
                    remove: Some(gos_artifact_key_of(capsule_id, o.as_str())),
                }
            }
        },
        None => ArtifactActions {
            upload: Some(gos_artifact_key_of(capsule_id, new_hash.as_str())),
            remove: None,
        },
    }
}

/// The actions after a full-capsule production refreshed a grain's hash:
/// the artifact is uploaded in any case (overwriting the key when the hash
/// did not change), and the stale artifact is removed exactly when the hash
/// changed.
pub fn capsule_gos_production_actions(
    capsule_id: i32,
    old_hash: &Option<String>,
    new_hash: &String,
) -> (r: ArtifactActions)
    ensures
        r.upload matches Some(up) && up@ == gos_artifact_key(capsule_id as int, new_hash@),
        match *old_hash {
            Some(ref o) => {
                if o@ == new_hash@ {
                    r.remove is None
                } else {
                    r.remove matches Some(rm) && rm@ == gos_artifact_key(capsule_id as int, o@)
                }
            },
            None => r.remove is None,
        },
{
    let remove = match old_hash {
        Some(o) => {
            if o.eq(new_hash) {
                None
            } else {
                Some(gos_artifact_key_of(capsule_id, o.as_str()))
            }
        },
        None => None,
    };
    ArtifactActions { upload: Some(gos_artifact_key_of(capsule_id, new_hash.as_str())), remove }
}

} // verus!
