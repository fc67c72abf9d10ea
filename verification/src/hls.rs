//! The HLS surface of a published capsule: the three rungs, the fixed
//! master manifest, and the rewrite of rung manifests for object storage,
//! where every non-comment line is replaced by a presigned URL for the
//! segment it names.

use vstd::prelude::*;

use crate::text::{first_pos, int_digits, lemma_first_pos, pad3_digits};

verus! {

/// A rung of the adaptive-bitrate ladder.
#[derive(Debug, Clone, Copy, PartialEq, Eq, Structural)]
pub enum Resolution {
    /// 360p.
    R360p,

    /// 480p.
    R480p,

    /// 720p.
    R720p,
}

impl Resolution {
    /// Retrieves the resolution from the rung manifest file name.
    pub fn from_m3u8_name(s: &str) -> (r: Option<Resolution>)
        ensures
            match r {
                Some(Resolution::R360p) => s@ == "360p.m3u8"@,
                Some(Resolution::R480p) => s@ == "480p.m3u8"@,
                Some(Resolution::R720p) => s@ == "720p.m3u8"@,
                None => s@ != "360p.m3u8"@ && s@ != "480p.m3u8"@ && s@ != "720p.m3u8"@,
            },
    {
        let owned = s.to_owned();
        if owned.eq(&"360p.m3u8".to_owned()) {
            Some(Resolution::R360p)
        } else if owned.eq(&"480p.m3u8".to_owned()) {
            Some(Resolution::R480p)
        } else if owned.eq(&"720p.m3u8".to_owned()) {
            Some(Resolution::R720p)
        } else {
            None
        }
    }

    /// The video size of the resolution.
    pub fn size(&self) -> (r: (i32, i32))
        ensures
            r == match *self {
                Resolution::R360p => (640i32, 360i32),
                Resolution::R480p => (842i32, 480i32),
                Resolution::R720p => (1280i32, 720i32),
            },
    {
        match self {
            Resolution::R360p => (640, 360),
            Resolution::R480p => (842, 480),
            Resolution::R720p => (1280, 720),
        }
    }

    /// The bandwidth of the resolution, in bits per second.
    pub fn bitrate(&self) -> (r: i32)
        ensures
            r == match *self {
                Resolution::R360p => 800000int,
                Resolution::R480p => 1400000int,
                Resolution::R720p => 2800000int,
            },
    {
        match self {
            Resolution::R360p => 800000,
            Resolution::R480p => 1400000,
            Resolution::R720p => 2800000,
        }
    }

    /// All the resolutions, lowest first.
    pub fn all() -> (r: Vec<Resolution>)
        ensures
            r@ =~= seq![Resolution::R360p, Resolution::R480p, Resolution::R720p],
    {
        let mut v: Vec<Resolution> = Vec::new();
        v.push(Resolution::R360p);
        v.push(Resolution::R480p);
        v.push(Resolution::R720p);
        v
    }
}

/// The fixed master manifest: three rungs with their bandwidths and
/// resolutions.
pub fn master_manifest() -> (r: &'static str)
    ensures
        r@
            == "#EXTM3U\n#EXT-X-VERSION:3\n#EXT-X-STREAM-INF:BANDWIDTH=800000,RESOLUTION=640x360\n360p.m3u8\n#EXT-X-STREAM-INF:BANDWIDTH=1400000,RESOLUTION=842x480\n480p.m3u8\n#EXT-X-STREAM-INF:BANDWIDTH=2800000,RESOLUTION=1280x720\n720p.m3u8"@,
{
    "#EXTM3U\n#EXT-X-VERSION:3\n#EXT-X-STREAM-INF:BANDWIDTH=800000,RESOLUTION=640x360\n360p.m3u8\n#EXT-X-STREAM-INF:BANDWIDTH=1400000,RESOLUTION=842x480\n480p.m3u8\n#EXT-X-STREAM-INF:BANDWIDTH=2800000,RESOLUTION=1280x720\n720p.m3u8"
}

/// The lines of a text, split on the newline character; a trailing
/// newline ends the last line without opening a new one.
pub open spec fn split_lines(s: Seq<char>) -> Seq<Seq<char>>
    decreases s.len(),
{
    if s.len() == 0 {
        Seq::empty()
    } else {
        let p = first_pos(s, '\n');
        if 0 <= p < s.len() {
            seq![s.subrange(0, p)] + split_lines(s.subrange(p + 1, s.len() as int))
        } else {
            seq![s]
        }
    }
}

/// Splits a text into its lines.
pub fn split_lines_of(s: &str) -> (r: Vec<String>)
    ensures
        r@.map_values(|l: String| l@) == split_lines(s@),
    decreases s@.len(),
{
    proof {
        lemma_first_pos(s@, '\n');
    }
    let len = s.unicode_len();
    if len == 0 {
        let r: Vec<String> = Vec::new();
        proof {
            assert(r@.map_values(|l: String| l@) =~= split_lines(s@));
        }
        return r;
    }
    let p = crate::text::find_first(s, '\n');
    if p < len {
        let head = s.substring_char(0, p).to_owned();
        let ghost head_snapshot = head;
        let rest = s.substring_char(p + 1, len);
        let mut r: Vec<String> = Vec::new();
        r.push(head);
        let mut tail = split_lines_of(rest);
        let ghost tail_snapshot = tail@;
        r.append(&mut tail);
        proof {
            let f = |l: String| l@;
            assert(r@ =~= seq![head_snapshot] + tail_snapshot);
            assert(r@.map_values(f) =~= seq![s@.subrange(0, p as int)] + tail_snapshot.map_values(
                f,
            ));
            assert(rest@ =~= s@.subrange(p + 1, s@.len() as int));
            assert(r@.map_values(f) =~= split_lines(s@));
        }
        r
    } else {
        let mut r: Vec<String> = Vec::new();
        r.push(s.to_owned());
        proof {
            assert(r@.map_values(|l: String| l@) =~= split_lines(s@));
        }
        r
    }
}

/// True when the line is a manifest comment or directive.
pub open spec fn is_comment(l: Seq<char>) -> bool {
    l.len() > 0 && l[0] == '#'
}

/// The number of non-comment lines.
pub open spec fn segment_count(lines: Seq<Seq<char>>) -> nat
    decreases lines.len(),
{
    if lines.len() == 0 {
        0
    } else {
        segment_count(lines.drop_first()) + if is_comment(lines.first()) {
            0nat
        } else {
            1nat
        }
    }
}

/// The storage key of a published file of the capsule.
pub open spec fn published_key(id: int, name: Seq<char>) -> Seq<char> {
    int_digits(id) + "/published/"@ + name
}

/// The storage keys named by the non-comment lines, in order.
pub open spec fn segment_keys(id: int, lines: Seq<Seq<char>>) -> Seq<Seq<char>>
    decreases lines.len(),
{
    if lines.len() == 0 {
        Seq::empty()
    } else if is_comment(lines.first()) {
        segment_keys(id, lines.drop_first())
    } else {
        seq![published_key(id, lines.first())] + segment_keys(id, lines.drop_first())
    }
}

/// The rewritten manifest: comments pass through verbatim, each
/// non-comment line is replaced by the next URL, and every line ends with
/// a newline.
pub open spec fn rewritten_manifest(lines: Seq<Seq<char>>, urls: Seq<Seq<char>>) -> Seq<char>
    decreases lines.len(),
{
    if lines.len() == 0 {
        Seq::empty()
    } else if is_comment(lines.first()) {
        lines.first() + seq!['\n'] + rewritten_manifest(lines.drop_first(), urls)
    } else {
        (if urls.len() > 0 {
            urls.first()
        } else {
            Seq::empty()
        }) + seq!['\n'] + rewritten_manifest(lines.drop_first(), if urls.len() > 0 {
            urls.drop_first()
        } else {
            urls
        })
    }
}

/// Writes the keys to presign for a rung manifest: one per non-comment
/// line, in order.
pub fn manifest_segment_keys(id: i32, lines: &Vec<String>) -> (r: Vec<String>)
    ensures
        r@.map_values(|k: String| k@) == segment_keys(id as int, lines@.map_values(|l: String| l@)),
{
    let ghost f = |l: String| l@;
    let ghost g = |k: String| k@;
    let mut r: Vec<String> = Vec::new();
    let n = lines.len();
    let mut i: usize = 0;
    proof {
        assert(lines@.map_values(f).subrange(0, n as int) =~= lines@.map_values(f));
        assert(r@.map_values(g) =~= Seq::<Seq<char>>::empty());
        assert(Seq::<Seq<char>>::empty() + segment_keys(id as int, lines@.map_values(f))
            =~= segment_keys(id as int, lines@.map_values(f)));
    }
    while i < n
        invariant
            0 <= i <= n,
            n == lines@.len(),
            f == (|l: String| l@),
            g == (|k: String| k@),
            segment_keys(id as int, lines@.map_values(f)) =~= r@.map_values(g) + segment_keys(
                id as int,
                lines@.map_values(f).subrange(i as int, n as int),
            ),
        decreases n - i,
    {
        let line = &lines[i];
        let is_c = line.unicode_len() > 0 && line.as_str().get_char(0) == '#';
        proof {
            let lv = lines@.map_values(f);
            assert(lv.subrange(i as int, n as int).first() == line@);
            assert(lv.subrange(i as int, n as int).drop_first() =~= lv.subrange(
                i + 1,
                n as int,
            ));
        }
        if !is_c {
            let mut key = crate::text::fmt_i32(id);
            key.append("/published/");
            key.append(line.as_str());
            let ghost old_r = r@;
            r.push(key);
            proof {
                assert(r@.map_values(g) =~= old_r.map_values(g).push(
                    published_key(id as int, line@),
                ));
            }
        }
        i += 1;
    }
    proof {
        let lv = lines@.map_values(f);
        assert(lv.subrange(n as int, n as int) =~= Seq::<Seq<char>>::empty());
        assert(segment_keys(id as int, lv.subrange(n as int, n as int)) =~= Seq::<
            Seq<char>,
        >::empty());
        assert(r@.map_values(g) + Seq::<Seq<char>>::empty() =~= r@.map_values(g));
    }
    r
}

/// Rewrites a rung manifest for object storage: comments verbatim, each
/// non-comment line replaced by the next presigned URL.
pub fn rewrite_manifest(lines: &Vec<String>, urls: &Vec<String>) -> (r: String)
    ensures
        r@ == rewritten_manifest(
            lines@.map_values(|l: String| l@),
            urls@.map_values(|u: String| u@),
        ),
{
    let ghost f = |l: String| l@;
    let ghost g = |u: String| u@;
    let mut out = String::new();
    let n = lines.len();
    let mut i: usize = 0;
    let mut k: usize = 0;
    proof {
        assert(lines@.map_values(f).subrange(0, n as int) =~= lines@.map_values(f));
        assert(urls@.map_values(g).subrange(0, urls@.len() as int) =~= urls@.map_values(g));
        assert(out@ + rewritten_manifest(lines@.map_values(f), urls@.map_values(g))
            =~= rewritten_manifest(lines@.map_values(f), urls@.map_values(g)));
    }
    while i < n
        invariant
            0 <= i <= n,
            n == lines@.len(),
            0 <= k <= urls@.len(),
            f == (|l: String| l@),
            g == (|u: String| u@),
            rewritten_manifest(lines@.map_values(f), urls@.map_values(g)) == out@
                + rewritten_manifest(
                lines@.map_values(f).subrange(i as int, n as int),
                urls@.map_values(g).subrange(k as int, urls@.len() as int),
            ),
        decreases n - i,
    {
        proof {
            reveal_strlit("\n");
            assert("\n"@ =~= seq!['\n']);
            let lv = lines@.map_values(f);
            let uv = urls@.map_values(g);
            assert(lv.subrange(i as int, n as int).first() == lines@[i as int]@);
            assert(lv.subrange(i as int, n as int).drop_first() =~= lv.subrange(
                i + 1,
                n as int,
            ));
        }
        let line = &lines[i];
        let is_c = line.unicode_len() > 0 && line.as_str().get_char(0) == '#';
        if is_c {
            out.append(line.as_str());
            out.append("\n");
        } else {
            if k < urls.len() {
                proof {
                    let uv = urls@.map_values(g);
                    assert(uv.subrange(k as int, uv.len() as int).first() == urls@[k as int]@);
                    assert(uv.subrange(k as int, uv.len() as int).drop_first() =~= uv.subrange(
                        k + 1,
                        uv.len() as int,
                    ));
                }
                out.append(urls[k].as_str());
                k += 1;
            } else {
                proof {
                    let uv = urls@.map_values(g);
                    assert(uv.subrange(k as int, uv.len() as int) =~= Seq::<Seq<char>>::empty());
                }
            }
            out.append("\n");
        }
        i += 1;
    }
    proof {
        let lv = lines@.map_values(f);
        let uv = urls@.map_values(g);
        assert(lv.subrange(n as int, n as int) =~= Seq::<Seq<char>>::empty());
        assert(rewritten_manifest(
            lv.subrange(n as int, n as int),
            uv.subrange(k as int, uv.len() as int),
        ) =~= Seq::<char>::empty());
        assert(out@ + Seq::<char>::empty() =~= out@);
    }
    out
}

/// The key of one miniature of the sprite track, numbered on three digits.
pub open spec fn miniature_key(id: int, i: nat) -> Seq<char> {
    int_digits(id) + "/published/miniature-"@ + pad3_digits(i) + ".png"@
}

/// Writes the keys of the hundred and one miniatures of the sprite track.
pub fn miniature_keys(id: i32) -> (r: Vec<String>)
    ensures
        r@.len() == 101,
        forall|i: int| 0 <= i < 101 ==> (#[trigger] r@[i])@ == miniature_key(id as int, i as nat),
{
    let mut r: Vec<String> = Vec::new();
    let mut i: u16 = 0;
    while i <= 100
        invariant
            0 <= i <= 101,
            r@.len() == i,
            forall|j: int| 0 <= j < i ==> (#[trigger] r@[j])@ == miniature_key(id as int, j as nat),
        decreases 101 - i,
    {
        let mut key = crate::text::fmt_i32(id);
        key.append("/published/miniature-");
        key.append(crate::text::fmt_pad3(i).as_str());
        key.append(".png");
        r.push(key);
        i += 1;
    }
    r
}

} // verus!
