//! The server configuration that the pipeline reads, and small request
//! helpers.

use vstd::prelude::*;

use crate::text::{first_pos, lemma_first_pos};

verus! {

/// The configuration of the server, as the pipeline consumes it: paths
/// are plain strings, resolved by the unverified edge.
#[derive(Debug)]
pub struct Config {
    /// The path where the data should be saved.
    pub data_path: String,

    /// The path where the log should be saved.
    pub log_path: String,

    /// The path where the videos will be published.
    pub videos_path: String,

    /// The root of the video streaming server.
    pub video_root: String,

    /// Whether the server is in beta mode.
    pub beta: bool,

    /// Whether background matting is enabled.
    pub matting_enabled: bool,

    /// The version of the crate.
    pub version: String,

    /// The revision the server was built from.
    pub commit: String,
}

/// The prefix of the text before the first occurrence of the character.
pub open spec fn cut_at(s: Seq<char>, c: char) -> Seq<char> {
    s.subrange(0, first_pos(s, c))
}

/// The language a request asks for: the first entry of its
/// `accept-language` header, without quality annotations.
#[derive(Debug)]
pub struct Lang(pub String);

impl Lang {
    /// Extracts the language from the header value: the first
    /// comma-separated entry, cut before any `;`.
    pub fn from_header(header: &str) -> (r: Lang)
        ensures
            r.0@ == cut_at(cut_at(header@, ','), ';'),
    {
        proof {
            lemma_first_pos(header@, ',');
        }
        let p = crate::text::find_first(header, ',');
        let first = header.substring_char(0, p);
        proof {
            lemma_first_pos(first@, ';');
        }
        let q = crate::text::find_first(first, ';');
        let lang = first.substring_char(0, q).to_owned();
        proof {
            assert(first@ =~= cut_at(header@, ','));
            assert(lang@ =~= cut_at(cut_at(header@, ','), ';'));
        }
        Lang(lang)
    }
}

/// The total of a list of object sizes, as an unbounded integer.
pub open spec fn sum_of(sizes: Seq<u64>) -> int
    decreases sizes.len(),
{
    if sizes.len() == 0 {
        0
    } else {
        sum_of(sizes.drop_last()) + sizes.last()
    }
}

/// Sums the sizes of the listed objects, saturating at the largest
/// representable total.
pub fn total_bytes(sizes: &Vec<u64>) -> (r: u64)
    ensures
        sum_of(sizes@) <= u64::MAX ==> r == sum_of(sizes@),
        sum_of(sizes@) > u64::MAX ==> r == u64::MAX,
{
    let mut acc: u64 = 0;
    let mut saturated = false;
    let n = sizes.len();
    let mut i: usize = 0;
    while i < n
        invariant
            0 <= i <= n,
            n == sizes@.len(),
            !saturated ==> acc == sum_of(sizes@.subrange(0, i as int)),
            saturated ==> acc == u64::MAX && sum_of(sizes@.subrange(0, i as int)) > u64::MAX,
        decreases n - i,
    {
        proof {
            assert(sizes@.subrange(0, i + 1).drop_last() =~= sizes@.subrange(0, i as int));
            assert(sizes@.subrange(0, i + 1).last() == sizes@[i as int]);
        }
        match acc.checked_add(sizes[i]) {
            Some(x) => {
                if !saturated {
                    acc = x;
                }
            },
            None => {
                if !saturated {
                    acc = u64::MAX;
                    saturated = true;
                }
            },
        }
        i += 1;
    }
    proof {
        assert(sizes@.subrange(0, n as int) =~= sizes@);
    }
    acc
}

/// Disk usage in megabytes, as accounted after a sweep: the byte count
/// divided by one million, saturated at the largest representable value.
pub fn disk_usage_mb(bytes: u64) -> (r: i32)
    ensures
        bytes / 1000000 <= i32::MAX ==> r == bytes / 1000000,
        bytes / 1000000 > i32::MAX ==> r == i32::MAX,
{
    let mb = bytes / 1000000;
    if mb > 2147483647 {
        2147483647
    } else {
        mb as i32
    }
}

} // verus!
