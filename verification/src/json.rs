//! The canonical JSON form of the capsule data.
//!
//! This is the exact text handed to the external encoder on its standard
//! input, and the text whose SHA-256 digest content-addresses produced
//! artifacts.  Objects carry their fields in declaration order, without any
//! whitespace; strings escape the quote, the backslash and control
//! characters; proportions held in thousandths are written with three
//! fractional digits.

use vstd::prelude::*;

use crate::capsule::{
    Anchor, Event, EventType, Fade, Gos, Record, Slide, SoundTrack, WebcamSettings,
};
use crate::ids::{hex_char, uuid_str, Uuid};
use crate::task_status::TaskStatus;
use crate::text::{int_digits, milli_digits};

verus! {

/// The escaped form of one character inside a JSON string.
pub open spec fn escape_char(c: char) -> Seq<char> {
    if c == '"' {
        seq!['\\', '"']
    } else if c == '\\' {
        seq!['\\', '\\']
    } else if c == '\u{8}' {
        seq!['\\', 'b']
    } else if c == '\t' {
        seq!['\\', 't']
    } else if c == '\n' {
        seq!['\\', 'n']
    } else if c == '\u{c}' {
        seq!['\\', 'f']
    } else if c == '\r' {
        seq!['\\', 'r']
    } else if (c as nat) < 32 {
        seq!['\\', 'u', '0', '0', hex_char(c as nat / 16), hex_char(c as nat % 16)]
    } else {
        seq![c]
    }
}

/// The escaped form of a string's characters.
pub open spec fn escape_seq(s: Seq<char>) -> Seq<char>
    decreases s.len(),
{
    if s.len() == 0 {
        Seq::empty()
    } else {
        escape_char(s.first()) + escape_seq(s.drop_first())
    }
}

/// Escaping a string one character longer escapes the extra character last.
proof fn lemma_escape_seq_push(s: Seq<char>, c: char)
    ensures
        escape_seq(s.push(c)) == escape_seq(s) + escape_char(c),
    decreases s.len(),
{
    if s.len() == 0 {
        assert(s.push(c).first() == c);
        assert(s.push(c).drop_first() =~= Seq::<char>::empty());
        assert(escape_seq(s.push(c)) == escape_char(c) + escape_seq(Seq::<char>::empty()));
        assert(escape_char(c) + Seq::<char>::empty() =~= escape_char(c));
        assert(escape_seq(s) + escape_char(c) =~= escape_char(c));
    } else {
        assert(s.push(c).first() == s.first());
        assert(s.push(c).drop_first() =~= s.drop_first().push(c));
        lemma_escape_seq_push(s.drop_first(), c);
        assert(escape_char(s.first()) + (escape_seq(s.drop_first()) + escape_char(c))
            =~= (escape_char(s.first()) + escape_seq(s.drop_first())) + escape_char(c));
    }
}

/// A quoted JSON string: the escaped characters between quotes.
pub open spec fn json_string(s: Seq<char>) -> Seq<char> {
    seq!['"'] + escape_seq(s) + seq!['"']
}

/// A JSON string or `null`.
pub open spec fn json_opt_string(o: Option<Seq<char>>) -> Seq<char> {
    match o {
        Some(s) => json_string(s),
        None => "null"@,
    }
}

/// Escapes the characters of a string for inclusion in a JSON string.
pub fn escape_str(s: &str) -> (r: String)
    ensures
        r@ == escape_seq(s@),
{
    let len = s.unicode_len();
    let mut out = String::new();
    let mut i: usize = 0;
    while i < len
        invariant
            0 <= i <= len,
            len == s@.len(),
            out@ == escape_seq(s@.subrange(0, i as int)),
        decreases len - i,
    {
        let c = s.get_char(i);
        proof {
            reveal_strlit("\\\"");
            reveal_strlit("\\\\");
            reveal_strlit("\\b");
            reveal_strlit("\\t");
            reveal_strlit("\\n");
            reveal_strlit("\\f");
            reveal_strlit("\\r");
            reveal_strlit("\\u00");
            lemma_escape_seq_push(s@.subrange(0, i as int), c);
            assert(s@.subrange(0, i as int).push(c) =~= s@.subrange(0, i + 1));
        }
        if c == '"' {
            out.append("\\\"");
            proof {
                assert("\\\""@ =~= escape_char(c));
            }
        } else if c == '\\' {
            out.append("\\\\");
            proof {
                assert("\\\\"@ =~= escape_char(c));
            }
        } else if c == '\u{8}' {
            out.append("\\b");
            proof {
                assert("\\b"@ =~= escape_char(c));
            }
        } else if c == '\t' {
            out.append("\\t");
            proof {
                assert("\\t"@ =~= escape_char(c));
            }
        } else if c == '\n' {
            out.append("\\n");
            proof {
                assert("\\n"@ =~= escape_char(c));
            }
        } else if c == '\u{c}' {
            out.append("\\f");
            proof {
                assert("\\f"@ =~= escape_char(c));
            }
        } else if c == '\r' {
            out.append("\\r");
            proof {
                assert("\\r"@ =~= escape_char(c));
            }
        } else if (c as u32) < 32 {
            out.append("\\u00");
            out.append(crate::ids::hex_char_str(((c as u32) / 16) as u8));
            out.append(crate::ids::hex_char_str(((c as u32) % 16) as u8));
            proof {
                assert("\\u00"@ + seq![hex_char(c as nat / 16)] + seq![hex_char(c as nat % 16)]
                    =~= escape_char(c));
            }
        } else {
            let piece = s.substring_char(i, i + 1);
            out.append(piece);
            proof {
                assert(s@.subrange(i as int, i + 1) =~= seq![c]);
                assert(escape_char(c) =~= seq![c]);
            }
        }
        i += 1;
    }
    proof {
        assert(s@.subrange(0, len as int) =~= s@);
    }
    out
}

/// Writes a quoted JSON string.
pub fn json_string_of(s: &str) -> (r: String)
    ensures
        r@ == json_string(s@),
{
    proof {
        reveal_strlit("\"");
        assert("\""@ =~= seq!['"']);
    }
    let mut out = "\"".to_owned();
    out.append(escape_str(s).as_str());
    out.append("\"");
    proof {
        assert(out@ =~= json_string(s@));
    }
    out
}

/// A quoted identifier: identifiers contain only hexadecimal digits and
/// hyphens, which need no escaping.
pub open spec fn json_uuid(u: Uuid) -> Seq<char> {
    seq!['"'] + uuid_str(u) + seq!['"']
}

/// An identifier or `null`.
pub open spec fn json_opt_uuid(o: Option<Uuid>) -> Seq<char> {
    match o {
        Some(u) => json_uuid(u),
        None => "null"@,
    }
}

/// Writes a quoted identifier.
pub fn json_uuid_of(u: &Uuid) -> (r: String)
    ensures
        r@ == json_uuid(*u),
{
    proof {
        reveal_strlit("\"");
        assert("\""@ =~= seq!['"']);
    }
    let mut out = "\"".to_owned();
    out.append(u.format().as_str());
    out.append("\"");
    proof {
        assert(out@ =~= json_uuid(*u));
    }
    out
}

/// Writes an identifier or `null`.
pub fn json_opt_uuid_of(o: &Option<Uuid>) -> (r: String)
    ensures
        r@ == json_opt_uuid(*o),
{
    match o {
        Some(u) => json_uuid_of(u),
        None => "null".to_owned(),
    }
}

/// A signed number or `null`.
pub open spec fn json_opt_i32(o: Option<i32>) -> Seq<char> {
    match o {
        Some(n) => int_digits(n as int),
        None => "null"@,
    }
}

/// Writes a signed number or `null`.
pub fn json_opt_i32_of(o: &Option<i32>) -> (r: String)
    ensures
        r@ == json_opt_i32(*o),
{
    match o {
        Some(n) => crate::text::fmt_i32(*n),
        None => "null".to_owned(),
    }
}

/// The elements separated by commas, each preceded by a comma.
pub open spec fn join_rest(elems: Seq<Seq<char>>) -> Seq<char>
    decreases elems.len(),
{
    if elems.len() == 0 {
        Seq::empty()
    } else {
        seq![','] + elems.first() + join_rest(elems.drop_first())
    }
}

/// The elements separated by commas.
pub open spec fn join_comma(elems: Seq<Seq<char>>) -> Seq<char> {
    if elems.len() == 0 {
        Seq::empty()
    } else {
        elems.first() + join_rest(elems.drop_first())
    }
}

/// Joining one more element appends a comma and the element.
proof fn lemma_join_rest_push(s: Seq<Seq<char>>, x: Seq<char>)
    ensures
        join_rest(s.push(x)) == join_rest(s) + seq![','] + x,
    decreases s.len(),
{
    if s.len() == 0 {
        assert(s.push(x).first() == x);
        assert(s.push(x).drop_first() =~= Seq::<Seq<char>>::empty());
        assert(join_rest(s.push(x)) == seq![','] + x + join_rest(Seq::<Seq<char>>::empty()));
        assert(seq![','] + x + Seq::<char>::empty() =~= join_rest(s) + seq![','] + x);
    } else {
        assert(s.push(x).first() == s.first());
        assert(s.push(x).drop_first() =~= s.drop_first().push(x));
        lemma_join_rest_push(s.drop_first(), x);
        assert(seq![','] + s.first() + (join_rest(s.drop_first()) + seq![','] + x)
            =~= (seq![','] + s.first() + join_rest(s.drop_first())) + seq![','] + x);
    }
}

/// Joining one more element appends a comma (except before the first
/// element) and the element.
proof fn lemma_join_comma_push(s: Seq<Seq<char>>, x: Seq<char>)
    ensures
        s.len() == 0 ==> join_comma(s.push(x)) == x,
        s.len() > 0 ==> join_comma(s.push(x)) == join_comma(s) + seq![','] + x,
{
    if s.len() == 0 {
        assert(s.push(x).first() == x);
        assert(s.push(x).drop_first() =~= Seq::<Seq<char>>::empty());
        assert(join_comma(s.push(x)) == x + join_rest(Seq::<Seq<char>>::empty()));
        assert(x + Seq::<char>::empty() =~= x);
    } else {
        assert(s.push(x).first() == s.first());
        assert(s.push(x).drop_first() =~= s.drop_first().push(x));
        lemma_join_rest_push(s.drop_first(), x);
        assert(s.first() + (join_rest(s.drop_first()) + seq![','] + x)
            =~= (s.first() + join_rest(s.drop_first())) + seq![','] + x);
    }
}

/// The JSON name of an anchor.
pub open spec fn anchor_json(a: Anchor) -> Seq<char> {
    match a {
        Anchor::TopLeft => "\"top_left\""@,
        Anchor::TopRight => "\"top_right\""@,
        Anchor::BottomLeft => "\"bottom_left\""@,
        Anchor::BottomRight => "\"bottom_right\""@,
    }
}

/// The JSON name of an event type.
pub open spec fn event_type_json(t: EventType) -> Seq<char> {
    match t {
        EventType::Start => "\"start\""@,
        EventType::NextSlide => "\"next_slide\""@,
        EventType::PreviousSlide => "\"previous_slide\""@,
        EventType::NextSentence => "\"next_sentence\""@,
        EventType::Play => "\"play\""@,
        EventType::Pause => "\"pause\""@,
        EventType::Seek => "\"seek\""@,
        EventType::Stop => "\"stop\""@,
        EventType::End => "\"end\""@,
    }
}

/// The JSON name of a task status.
pub open spec fn status_json(s: TaskStatus) -> Seq<char> {
    match s {
        TaskStatus::Disabled => "\"disabled\""@,
        TaskStatus::Idle => "\"idle\""@,
        TaskStatus::Running => "\"running\""@,
        TaskStatus::Done => "\"done\""@,
    }
}

/// A keying color or `null`.
pub open spec fn keycolor_json(o: Option<String>) -> Seq<char> {
    match o {
        Some(k) => json_string(k@),
        None => "null"@,
    }
}

/// The JSON form of webcam settings, tagged by a `type` field.
pub open spec fn webcam_json(w: WebcamSettings) -> Seq<char> {
    match w {
        WebcamSettings::Disabled => "{\"type\":\"disabled\"}"@,
        WebcamSettings::Fullscreen { opacity, keycolor } => "{\"type\":\"fullscreen\",\"opacity\":"@
            + milli_digits(opacity as nat) + ",\"keycolor\":"@ + keycolor_json(keycolor) + "}"@,
        WebcamSettings::Pip { anchor, opacity, position, size, keycolor } => (
        "{\"type\":\"pip\",\"anchor\":"@ + anchor_json(anchor) + ",\"opacity\":"@ + milli_digits(
            opacity as nat,
        ) + ",\"position\":["@ + int_digits(position.0 as int) + ","@ + int_digits(
            position.1 as int,
        ) + "],\"size\":["@ + int_digits(size.0 as int) + ","@ + int_digits(size.1 as int)
            + "],\"keycolor\":"@ + keycolor_json(keycolor) + "}"@),
    }
}

/// Webcam settings or `null`.
pub open spec fn opt_webcam_json(o: Option<WebcamSettings>) -> Seq<char> {
    match o {
        Some(w) => webcam_json(w),
        None => "null"@,
    }
}

/// The JSON form of a slide.
pub open spec fn slide_json(s: Slide) -> Seq<char> {
    "{\"uuid\":"@ + json_uuid(s.uuid) + ",\"extra\":"@ + json_opt_uuid(s.extra) + ",\"prompt\":"@
        + json_string(s.prompt@) + "}"@
}

/// The JSON form of a record: its identifier, its pointer overlay and its
/// video size.
pub open spec fn record_json(r: Record) -> Seq<char> {
    "{\"uuid\":"@ + json_uuid(r.uuid) + ",\"pointer_uuid\":"@ + json_opt_uuid(r.pointer_uuid)
        + ",\"size\":"@ + (match r.size {
        Some(wh) => "["@ + int_digits(wh.0 as int) + ","@ + int_digits(wh.1 as int) + "]"@,
        None => "null"@,
    }) + "}"@
}

/// A record or `null`.
pub open spec fn opt_record_json(o: Option<Record>) -> Seq<char> {
    match o {
        Some(r) => record_json(r),
        None => "null"@,
    }
}

/// The JSON form of an event; the extra time appears only when present.
pub open spec fn event_json(e: Event) -> Seq<char> {
    "{\"ty\":"@ + event_type_json(e.ty) + ",\"time\":"@ + int_digits(e.time as int)
        + (match e.extra_time {
        Some(t) => ",\"extra_time\":"@ + int_digits(t as int),
        None => Seq::<char>::empty(),
    }) + "}"@
}

/// The JSON form of the fade durations.
pub open spec fn fade_json(f: Fade) -> Seq<char> {
    "{\"vfadein\":"@ + json_opt_i32(f.vfadein) + ",\"vfadeout\":"@ + json_opt_i32(f.vfadeout)
        + ",\"afadein\":"@ + json_opt_i32(f.afadein) + ",\"afadeout\":"@ + json_opt_i32(f.afadeout)
        + "}"@
}

/// The JSON form of a sound track.
pub open spec fn soundtrack_json(t: SoundTrack) -> Seq<char> {
    "{\"uuid\":"@ + json_uuid(t.uuid) + ",\"name\":"@ + json_string(t.name@) + ",\"volume\":"@
        + milli_digits(t.volume as nat) + "}"@
}

/// A sound track or `null`.
pub open spec fn opt_soundtrack_json(o: Option<SoundTrack>) -> Seq<char> {
    match o {
        Some(t) => soundtrack_json(t),
        None => "null"@,
    }
}

/// A produced hash or `null`.
pub open spec fn opt_hash_json(o: Option<String>) -> Seq<char> {
    match o {
        Some(h) => json_string(h@),
        None => "null"@,
    }
}

/// The common prefix of a grain's JSON forms: everything up to its stored
/// hash.
pub open spec fn gos_json_prefix(g: Gos) -> Seq<char> {
    "{\"record\":"@ + opt_record_json(g.record) + ",\"slides\":["@ + join_comma(
        g.slides@.map_values(|s: Slide| slide_json(s)),
    ) + "],\"events\":["@ + join_comma(g.events@.map_values(|e: Event| event_json(e)))
        + "],\"webcam_settings\":"@ + opt_webcam_json(g.webcam_settings) + ",\"fade\":"@
        + fade_json(g.fade) + ",\"produced_hash\":"@ + opt_hash_json(g.produced_hash)
}

/// The JSON form of a grain of story, as hashed and as handed to the
/// encoder.
pub open spec fn gos_json(g: Gos) -> Seq<char> {
    gos_json_prefix(g) + ",\"produced\":"@ + status_json(g.produced) + "}"@
}

/// The JSON descriptor of a capsule, as handed to the external encoder:
/// the structure, the sound track, and the capsule-level produced hash.
pub open spec fn descriptor_json(
    structure: Seq<Gos>,
    soundtrack: Option<SoundTrack>,
    produced_hash: Option<String>,
) -> Seq<char> {
    "{\"structure\":["@ + join_comma(structure.map_values(|g: Gos| gos_json(g)))
        + "],\"soundtrack\":"@ + opt_soundtrack_json(soundtrack) + ",\"produced_hash\":"@
        + opt_hash_json(produced_hash) + "}"@
}

/// Writes the JSON name of an anchor.
pub fn anchor_json_of(a: Anchor) -> (r: &'static str)
    ensures
        r@ == anchor_json(a),
{
    match a {
        Anchor::TopLeft => "\"top_left\"",
        Anchor::TopRight => "\"top_right\"",
        Anchor::BottomLeft => "\"bottom_left\"",
        Anchor::BottomRight => "\"bottom_right\"",
    }
}

/// Writes the JSON name of an event type.
pub fn event_type_json_of(t: EventType) -> (r: &'static str)
    ensures
        r@ == event_type_json(t),
{
    match t {
        EventType::Start => "\"start\"",
        EventType::NextSlide => "\"next_slide\"",
        EventType::PreviousSlide => "\"previous_slide\"",
        EventType::NextSentence => "\"next_sentence\"",
        EventType::Play => "\"play\"",
        EventType::Pause => "\"pause\"",
        EventType::Seek => "\"seek\"",
        EventType::Stop => "\"stop\"",
        EventType::End => "\"end\"",
    }
}

/// Writes the JSON name of a task status.
pub fn status_json_of(s: TaskStatus) -> (r: &'static str)
    ensures
        r@ == status_json(s),
{
    match s {
        TaskStatus::Disabled => "\"disabled\"",
        TaskStatus::Idle => "\"idle\"",
        TaskStatus::Running => "\"running\"",
        TaskStatus::Done => "\"done\"",
    }
}

/// Writes a keying color or `null`.
pub fn keycolor_json_of(o: &Option<String>) -> (r: String)
    ensures
        r@ == keycolor_json(*o),
{
    match o {
        Some(k) => json_string_of(k.as_str()),
        None => "null".to_owned(),
    }
}

/// Writes the JSON form of webcam settings.
pub fn webcam_json_of(w: &WebcamSettings) -> (r: String)
    ensures
        r@ == webcam_json(*w),
{
    match w {
        WebcamSettings::Disabled => "{\"type\":\"disabled\"}".to_owned(),
        WebcamSettings::Fullscreen { opacity, keycolor } => {
            let mut out = "{\"type\":\"fullscreen\",\"opacity\":".to_owned();
            out.append(crate::text::fmt_milli(*opacity as u64).as_str());
            out.append(",\"keycolor\":");
            out.append(keycolor_json_of(keycolor).as_str());
            out.append("}");
            out
        },
        WebcamSettings::Pip { anchor, opacity, position, size, keycolor } => {
            let mut out = "{\"type\":\"pip\",\"anchor\":".to_owned();
            out.append(anchor_json_of(*anchor));
            out.append(",\"opacity\":");
            out.append(crate::text::fmt_milli(*opacity as u64).as_str());
            out.append(",\"position\":[");
            out.append(crate::text::fmt_i32(position.0).as_str());
            out.append(",");
            out.append(crate::text::fmt_i32(position.1).as_str());
            out.append("],\"size\":[");
            out.append(crate::text::fmt_i32(size.0).as_str());
            out.append(",");
            out.append(crate::text::fmt_i32(size.1).as_str());
            out.append("],\"keycolor\":");
            out.append(keycolor_json_of(keycolor).as_str());
            out.append("}");
            out
        },
    }
}

/// Writes webcam settings or `null`.
pub fn opt_webcam_json_of(o: &Option<WebcamSettings>) -> (r: String)
    ensures
        r@ == opt_webcam_json(*o),
{
    match o {
        Some(w) => webcam_json_of(w),
        None => "null".to_owned(),
    }
}

impl Slide {
    /// Writes the JSON form of the slide.
    pub fn to_json(&self) -> (r: String)
        ensures
            r@ == slide_json(*self),
    {
        let mut out = "{\"uuid\":".to_owned();
        out.append(json_uuid_of(&self.uuid).as_str());
        out.append(",\"extra\":");
        out.append(json_opt_uuid_of(&self.extra).as_str());
        out.append(",\"prompt\":");
        out.append(json_string_of(self.prompt.as_str()).as_str());
        out.append("}");
        out
    }
}

impl Record {
    /// Writes the JSON form of the record.
    pub fn to_json(&self) -> (r: String)
        ensures
            r@ == record_json(*self),
    {
        let mut out = "{\"uuid\":".to_owned();
        out.append(json_uuid_of(&self.uuid).as_str());
        out.append(",\"pointer_uuid\":");
        out.append(json_opt_uuid_of(&self.pointer_uuid).as_str());
        out.append(",\"size\":");
        match &self.size {
            Some(wh) => {
                out.append("[");
                out.append(crate::text::fmt_u64(wh.0 as u64).as_str());
                out.append(",");
                out.append(crate::text::fmt_u64(wh.1 as u64).as_str());
                out.append("]");
                proof {
                    assert(int_digits(self.size->Some_0.0 as int) == crate::text::dec_digits(
                        self.size->Some_0.0 as nat,
                    ));
                    assert(int_digits(self.size->Some_0.1 as int) == crate::text::dec_digits(
                        self.size->Some_0.1 as nat,
                    ));
                }
            },
            None => {
                out.append("null");
            },
        }
        out.append("}");
        out
    }
}

impl Event {
    /// Writes the JSON form of the event.
    pub fn to_json(&self) -> (r: String)
        ensures
            r@ == event_json(*self),
    {
        let mut out = "{\"ty\":".to_owned();
        out.append(event_type_json_of(self.ty));
        out.append(",\"time\":");
        out.append(crate::text::fmt_i32(self.time).as_str());
        match &self.extra_time {
            Some(t) => {
                out.append(",\"extra_time\":");
                out.append(crate::text::fmt_i32(*t).as_str());
            },
            None => {
            },
        }
        out.append("}");
        out
    }
}

impl Fade {
    /// Writes the JSON form of the fade durations.
    pub fn to_json(&self) -> (r: String)
        ensures
            r@ == fade_json(*self),
    {
        let mut out = "{\"vfadein\":".to_owned();
        out.append(json_opt_i32_of(&self.vfadein).as_str());
        out.append(",\"vfadeout\":");
        out.append(json_opt_i32_of(&self.vfadeout).as_str());
        out.append(",\"afadein\":");
        out.append(json_opt_i32_of(&self.afadein).as_str());
        out.append(",\"afadeout\":");
        out.append(json_opt_i32_of(&self.afadeout).as_str());
        out.append("}");
        out
    }
}

impl SoundTrack {
    /// Writes the JSON form of the sound track.
    pub fn to_json(&self) -> (r: String)
        ensures
            r@ == soundtrack_json(*self),
    {
        let mut out = "{\"uuid\":".to_owned();
        out.append(json_uuid_of(&self.uuid).as_str());
        out.append(",\"name\":");
        out.append(json_string_of(self.name.as_str()).as_str());
        out.append(",\"volume\":");
        out.append(crate::text::fmt_milli(self.volume as u64).as_str());
        out.append("}");
        out
    }
}

impl Gos {
    /// Writes the common prefix of the grain's JSON forms.
    fn to_json_prefix(&self) -> (r: String)
        ensures
            r@ == gos_json_prefix(*self),
    {
        let mut out = "{\"record\":".to_owned();
        match &self.record {
            Some(rec) => {
                out.append(rec.to_json().as_str());
            },
            None => {
                out.append("null");
            },
        }
        out.append(",\"slides\":[");
        let ghost fslide = |s: Slide| slide_json(s);
        let n = self.slides.len();
        let mut i: usize = 0;
        while i < n
            invariant
                0 <= i <= n,
                n == self.slides@.len(),
                out@ == "{\"record\":"@ + opt_record_json(self.record) + ",\"slides\":["@
                    + join_comma(self.slides@.subrange(0, i as int).map_values(fslide)),
                fslide == (|s: Slide| slide_json(s)),
            decreases n - i,
        {
            if i > 0 {
                out.append(",");
            }
            out.append(self.slides[i].to_json().as_str());
            proof {
                reveal_strlit(",");
                assert(","@ =~= seq![',']);
                let pre = self.slides@.subrange(0, i as int);
                assert(pre.push(self.slides@[i as int]) =~= self.slides@.subrange(0, i + 1));
                assert(pre.push(self.slides@[i as int]).map_values(fslide) =~= pre.map_values(
                    fslide,
                ).push(fslide(self.slides@[i as int])));
                lemma_join_comma_push(pre.map_values(fslide), fslide(self.slides@[i as int]));
                assert(out@ =~= "{\"record\":"@ + opt_record_json(self.record) + ",\"slides\":["@
                    + join_comma(self.slides@.subrange(0, i + 1).map_values(fslide)));
            }
            i += 1;
        }
        proof {
            assert(self.slides@.subrange(0, n as int) =~= self.slides@);
        }
        out.append("],\"events\":[");
        let ghost fevent = |e: Event| event_json(e);
        let m = self.events.len();
        let mut j: usize = 0;
        while j < m
            invariant
                0 <= j <= m,
                m == self.events@.len(),
                out@ == "{\"record\":"@ + opt_record_json(self.record) + ",\"slides\":["@
                    + join_comma(self.slides@.map_values(|s: Slide| slide_json(s)))
                    + "],\"events\":["@ + join_comma(
                    self.events@.subrange(0, j as int).map_values(fevent),
                ),
                fevent == (|e: Event| event_json(e)),
            decreases m - j,
        {
            if j > 0 {
                out.append(",");
            }
            out.append(self.events[j].to_json().as_str());
            proof {
                reveal_strlit(",");
                assert(","@ =~= seq![',']);
                let pre = self.events@.subrange(0, j as int);
                assert(pre.push(self.events@[j as int]) =~= self.events@.subrange(0, j + 1));
                assert(pre.push(self.events@[j as int]).map_values(fevent) =~= pre.map_values(
                    fevent,
                ).push(fevent(self.events@[j as int])));
                lemma_join_comma_push(pre.map_values(fevent), fevent(self.events@[j as int]));
                assert(out@ =~= "{\"record\":"@ + opt_record_json(self.record) + ",\"slides\":["@
                    + join_comma(self.slides@.map_values(|s: Slide| slide_json(s)))
                    + "],\"events\":["@ + join_comma(
                    self.events@.subrange(0, j + 1).map_values(fevent),
                ));
            }
            j += 1;
        }
        proof {
            assert(self.events@.subrange(0, m as int) =~= self.events@);
        }
        out.append("],\"webcam_settings\":");
        out.append(opt_webcam_json_of(&self.webcam_settings).as_str());
        out.append(",\"fade\":");
        out.append(self.fade.to_json().as_str());
        out.append(",\"produced_hash\":");
        match &self.produced_hash {
            Some(h) => {
                out.append(json_string_of(h.as_str()).as_str());
            },
            None => {
                out.append("null");
            },
        }
        out
    }

    /// Writes the JSON form of the grain of story.
    pub fn to_json(&self) -> (r: String)
        ensures
            r@ == gos_json(*self),
    {
        let mut out = self.to_json_prefix();
        out.append(",\"produced\":");
        out.append(status_json_of(self.produced));
        out.append("}");
        out
    }
}

/// Writes the JSON descriptor of a capsule for the external encoder.
#[verifier::rlimit(60)]
pub fn descriptor_json_of(
    structure: &Vec<Gos>,
    soundtrack: &Option<SoundTrack>,
    produced_hash: &Option<String>,
) -> (r: String)
    ensures
        r@ == descriptor_json(structure@, *soundtrack, *produced_hash),
{
    let mut out = "{\"structure\":[".to_owned();
    let ghost fgos = |g: Gos| gos_json(g);
    let n = structure.len();
    let mut i: usize = 0;
    while i < n
        invariant
            0 <= i <= n,
            n == structure@.len(),
            out@ == "{\"structure\":["@ + join_comma(
                structure@.subrange(0, i as int).map_values(fgos),
            ),
            fgos == (|g: Gos| gos_json(g)),
        decreases n - i,
    {
        if i > 0 {
            out.append(",");
        }
        out.append(structure[i].to_json().as_str());
        proof {
            reveal_strlit(",");
            assert(","@ =~= seq![',']);
            let pre = structure@.subrange(0, i as int);
            assert(pre.push(structure@[i as int]) =~= structure@.subrange(0, i + 1));
            assert(pre.push(structure@[i as int]).map_values(fgos) =~= pre.map_values(fgos).push(
                fgos(structure@[i as int]),
            ));
            lemma_join_comma_push(pre.map_values(fgos), fgos(structure@[i as int]));
            assert(out@ =~= "{\"structure\":["@ + join_comma(
                structure@.subrange(0, i + 1).map_values(fgos),
            ));
        }
        i += 1;
    }
    proof {
        assert(structure@.subrange(0, n as int) =~= structure@);
    }
    out.append("],\"soundtrack\":");
    match soundtrack {
        Some(t) => {
            out.append(t.to_json().as_str());
        },
        None => {
            out.append("null");
        },
    }
    out.append(",\"produced_hash\":");
    match produced_hash {
        Some(h) => {
            out.append(json_string_of(h.as_str()).as_str());
        },
        None => {
            out.append("null");
        },
    }
    out.append("}");
    out
}


/// The JSON name of a role.
pub open spec fn role_json(r: crate::capsule::Role) -> Seq<char> {
    match r {
        crate::capsule::Role::Read => "\"read\""@,
        crate::capsule::Role::Write => "\"write\""@,
        crate::capsule::Role::Owner => "\"owner\""@,
    }
}

/// Writes the JSON name of a role.
pub fn role_json_of(r: crate::capsule::Role) -> (s: &'static str)
    ensures
        s@ == role_json(r),
{
    match r {
        crate::capsule::Role::Read => "\"read\"",
        crate::capsule::Role::Write => "\"write\"",
        crate::capsule::Role::Owner => "\"owner\"",
    }
}

/// The JSON name of a privacy setting.
pub open spec fn privacy_json(p: crate::capsule::Privacy) -> Seq<char> {
    match p {
        crate::capsule::Privacy::Public => "\"public\""@,
        crate::capsule::Privacy::Unlisted => "\"unlisted\""@,
        crate::capsule::Privacy::Private => "\"private\""@,
    }
}

/// Writes the JSON name of a privacy setting.
pub fn privacy_json_of(p: crate::capsule::Privacy) -> (s: &'static str)
    ensures
        s@ == privacy_json(p),
{
    match p {
        crate::capsule::Privacy::Public => "\"public\"",
        crate::capsule::Privacy::Unlisted => "\"unlisted\"",
        crate::capsule::Privacy::Private => "\"private\"",
    }
}

/// A JSON boolean.
pub open spec fn bool_json(b: bool) -> Seq<char> {
    if b {
        "true"@
    } else {
        "false"@
    }
}

/// Writes a JSON boolean.
pub fn bool_json_of(b: bool) -> (s: &'static str)
    ensures
        s@ == bool_json(b),
{
    if b {
        "true"
    } else {
        "false"
    }
}

/// One entry of the participant array: a username and a role.
pub open spec fn user_entry_json(name: Seq<char>, role: crate::capsule::Role) -> Seq<char> {
    "{\"username\":"@ + json_string(name) + ",\"role\":"@ + role_json(role) + "}"@
}

/// The entries of the participant array, pairing each participant with
/// its username.
pub open spec fn user_entries(users: Seq<(i32, crate::capsule::Role)>, names: Seq<Seq<char>>) -> Seq<
    Seq<char>,
>
    decreases users.len(),
{
    if users.len() == 0 || names.len() == 0 {
        Seq::empty()
    } else {
        seq![user_entry_json(names.first(), users.first().1)] + user_entries(
            users.drop_first(),
            names.drop_first(),
        )
    }
}

/// The view of a list of optional presigned URLs.
pub open spec fn presign_views(ps: Seq<Option<String>>) -> Seq<Option<Seq<char>>> {
    ps.map_values(
        |o: Option<String>|
            match o {
                Some(u) => Some(u@),
                None => None,
            },
    )
}

/// The JSON form of a grain as it is served to clients: the grain's data
/// together with the presigned URL of its produced artifact, null where
/// none was issued.
pub open spec fn gos_view_json(g: Gos, presign: Option<Seq<char>>) -> Seq<char> {
    "{\"record\":"@ + opt_record_json(g.record) + ",\"slides\":["@ + join_comma(
        g.slides@.map_values(|s: Slide| slide_json(s)),
    ) + "],\"events\":["@ + join_comma(g.events@.map_values(|e: Event| event_json(e)))
        + "],\"webcam_settings\":"@ + opt_webcam_json(g.webcam_settings) + ",\"fade\":"@
        + fade_json(g.fade) + ",\"produced_hash\":"@ + opt_hash_json(g.produced_hash)
        + ",\"produced_presign\":"@ + json_opt_string(presign) + ",\"produced\":"@ + status_json(
        g.produced,
    ) + "}"@
}

/// The served grains, each paired with its optional presigned URL.
pub open spec fn gos_view_entries(structure: Seq<Gos>, ps: Seq<Option<Seq<char>>>) -> Seq<
    Seq<char>,
>
    decreases structure.len(),
{
    if structure.len() == 0 || ps.len() == 0 {
        Seq::empty()
    } else {
        seq![gos_view_json(structure.first(), ps.first())] + gos_view_entries(
            structure.drop_first(),
            ps.drop_first(),
        )
    }
}

/// One more served grain joins at the end.
proof fn lemma_gos_view_entries_push(
    structure: Seq<Gos>,
    ps: Seq<Option<Seq<char>>>,
    g: Gos,
    p: Option<Seq<char>>,
)
    requires
        structure.len() == ps.len(),
    ensures
        gos_view_entries(structure.push(g), ps.push(p)) == gos_view_entries(structure, ps).push(
            gos_view_json(g, p),
        ),
    decreases structure.len(),
{
    if structure.len() == 0 {
        assert(structure.push(g).first() == g);
        assert(ps.push(p).first() == p);
        assert(structure.push(g).drop_first() =~= Seq::<Gos>::empty());
        assert(ps.push(p).drop_first() =~= Seq::<Option<Seq<char>>>::empty());
        assert(gos_view_entries(structure.push(g), ps.push(p)) == seq![gos_view_json(g, p)]
            + gos_view_entries(Seq::<Gos>::empty(), Seq::<Option<Seq<char>>>::empty()));
        assert(gos_view_entries(Seq::<Gos>::empty(), Seq::<Option<Seq<char>>>::empty()) =~= Seq::<
            Seq<char>,
        >::empty());
        assert(gos_view_entries(structure.push(g), ps.push(p)) =~= seq![gos_view_json(g, p)]);
        assert(gos_view_entries(structure, ps).push(gos_view_json(g, p)) =~= seq![
            gos_view_json(g, p),
        ]);
    } else {
        lemma_gos_view_entries_push(structure.drop_first(), ps.drop_first(), g, p);
        assert(structure.push(g).first() == structure.first());
        assert(ps.push(p).first() == ps.first());
        assert(structure.push(g).drop_first() =~= structure.drop_first().push(g));
        assert(ps.push(p).drop_first() =~= ps.drop_first().push(p));
        assert(gos_view_entries(structure.push(g), ps.push(p)) =~= gos_view_entries(
            structure,
            ps,
        ).push(gos_view_json(g, p)));
    }
}

/// Writes the JSON form of a served grain.
pub fn gos_view_json_of(g: &Gos, presign: &Option<String>) -> (r: String)
    ensures
        r@ == gos_view_json(
            *g,
            match *presign {
                Some(u) => Some(u@),
                None => None,
            },
        ),
{
    let mut out = g.to_json_prefix();
    out.append(",\"produced_presign\":");
    match presign {
        Some(u) => {
            out.append(json_string_of(u.as_str()).as_str());
        },
        None => {
            out.append("null");
        },
    }
    out.append(",\"produced\":");
    out.append(status_json_of(g.produced));
    out.append("}");
    out
}

/// The fields of a capsule's JSON form, without the surrounding braces.
/// The presigned URLs of the produced artifacts and the sound track, which
/// only the object-storage edge can issue, are passed in; on local disk
/// every one of them is absent and serialized as null.
pub open spec fn capsule_fields_json(
    c: crate::capsule::Capsule,
    role: crate::capsule::Role,
    id: Seq<char>,
    names: Seq<Seq<char>>,
    gos_presigns: Seq<Option<Seq<char>>>,
    output_presign: Option<Seq<char>>,
    sound_track_presign: Option<Seq<char>>,
) -> Seq<char> {
    "\"id\":"@ + json_string(id) + ",\"name\":"@ + json_string(c.name@) + ",\"project\":"@
        + json_string(c.project@) + ",\"role\":"@ + role_json(role) + ",\"video_uploaded\":"@
        + status_json(c.video_uploaded) + ",\"produced\":"@ + status_json(c.produced)
        + ",\"produced_hash\":"@ + opt_hash_json(c.produced_hash) + ",\"published\":"@
        + status_json(c.published) + ",\"privacy\":"@ + privacy_json(c.privacy) + ",\"structure\":["@
        + join_comma(gos_view_entries(c.structure@, gos_presigns)) + "],\"webcam_settings\":"@
        + webcam_json(c.webcam_settings) + ",\"last_modified\":"@ + int_digits(
        c.last_modified as int,
    ) + ",\"users\":["@ + join_comma(user_entries(c.users@, names)) + "],\"prompt_subtitles\":"@
        + bool_json(c.prompt_subtitles) + ",\"disk_usage\":"@ + int_digits(c.disk_usage as int)
        + ",\"duration_ms\":"@ + int_digits(c.duration_ms as int) + ",\"sound_track\":"@
        + opt_soundtrack_json(c.sound_track) + ",\"output_presign\":"@ + json_opt_string(
        output_presign,
    ) + ",\"sound_track_presign\":"@ + json_opt_string(sound_track_presign) + "}"@
}

/// The JSON form of a capsule, as served to a participant with the given
/// role.
pub open spec fn capsule_json(
    c: crate::capsule::Capsule,
    role: crate::capsule::Role,
    id: Seq<char>,
    names: Seq<Seq<char>>,
    gos_presigns: Seq<Option<Seq<char>>>,
    output_presign: Option<Seq<char>>,
    sound_track_presign: Option<Seq<char>>,
) -> Seq<char> {
    "{"@ + capsule_fields_json(
        c,
        role,
        id,
        names,
        gos_presigns,
        output_presign,
        sound_track_presign,
    )
}

/// The `capsule_changed` message: the capsule's JSON form under a type
/// discriminator.
pub open spec fn capsule_changed_json(
    c: crate::capsule::Capsule,
    role: crate::capsule::Role,
    id: Seq<char>,
    names: Seq<Seq<char>>,
    gos_presigns: Seq<Option<Seq<char>>>,
    output_presign: Option<Seq<char>>,
    sound_track_presign: Option<Seq<char>>,
) -> Seq<char> {
    "{\"type\":\"capsule_changed\","@ + capsule_fields_json(
        c,
        role,
        id,
        names,
        gos_presigns,
        output_presign,
        sound_track_presign,
    )
}

impl crate::capsule::Capsule {
    /// Writes the fields of the capsule's JSON form.  The obfuscated id,
    /// the usernames of the participants and the presigned URLs, which
    /// live outside the capsule, are passed in; one username per
    /// participant and one optional artifact URL per grain.
    #[verifier::rlimit(60)]
    fn fields_json(
        &self,
        role: crate::capsule::Role,
        id: &str,
        usernames: &Vec<String>,
        gos_presigns: &Vec<Option<String>>,
        output_presign: &Option<String>,
        sound_track_presign: &Option<String>,
    ) -> (r: String)
        requires
            usernames@.len() == self.users@.len(),
            gos_presigns@.len() == self.structure@.len(),
        ensures
            r@ == capsule_fields_json(
                *self,
                role,
                id@,
                usernames@.map_values(|n: String| n@),
                presign_views(gos_presigns@),
                (match *output_presign {
                    Some(u) => Some(u@),
                    None => None,
                }),
                (match *sound_track_presign {
                    Some(u) => Some(u@),
                    None => None,
                }),
            ),
    {
        let mut out = "\"id\":".to_owned();
        out.append(json_string_of(id).as_str());
        out.append(",\"name\":");
        out.append(json_string_of(self.name.as_str()).as_str());
        out.append(",\"project\":");
        out.append(json_string_of(self.project.as_str()).as_str());
        out.append(",\"role\":");
        out.append(role_json_of(role));
        out.append(",\"video_uploaded\":");
        out.append(status_json_of(self.video_uploaded));
        out.append(",\"produced\":");
        out.append(status_json_of(self.produced));
        out.append(",\"produced_hash\":");
        match &self.produced_hash {
            Some(h) => {
                out.append(json_string_of(h.as_str()).as_str());
            },
            None => {
                out.append("null");
            },
        }
        out.append(",\"published\":");
        out.append(status_json_of(self.published));
        out.append(",\"privacy\":");
        out.append(privacy_json_of(self.privacy));
        out.append(",\"structure\":[");
        let ghost prefix0 = out@;
        let n = self.structure.len();
        let mut i: usize = 0;
        while i < n
            invariant
                0 <= i <= n,
                n == self.structure@.len(),
                n == gos_presigns@.len(),
                out@ == prefix0 + join_comma(
                    gos_view_entries(
                        self.structure@.subrange(0, i as int),
                        presign_views(gos_presigns@).subrange(0, i as int),
                    ),
                ),
            decreases n - i,
        {
            if i > 0 {
                out.append(",");
            }
            out.append(gos_view_json_of(&self.structure[i], &gos_presigns[i]).as_str());
            proof {
                reveal_strlit(",");
                assert(","@ =~= seq![',']);
                let pre = self.structure@.subrange(0, i as int);
                let pvs = presign_views(gos_presigns@);
                let ppre = pvs.subrange(0, i as int);
                assert(pre.push(self.structure@[i as int]) =~= self.structure@.subrange(0, i + 1));
                assert(ppre.push(pvs[i as int]) =~= pvs.subrange(0, i + 1));
                lemma_gos_view_entries_push(pre, ppre, self.structure@[i as int], pvs[i as int]);
                lemma_join_comma_push(
                    gos_view_entries(pre, ppre),
                    gos_view_json(self.structure@[i as int], pvs[i as int]),
                );
                assert(out@ =~= prefix0 + join_comma(
                    gos_view_entries(
                        self.structure@.subrange(0, i + 1),
                        pvs.subrange(0, i + 1),
                    ),
                ));
            }
            i += 1;
        }
        proof {
            assert(self.structure@.subrange(0, n as int) =~= self.structure@);
            assert(presign_views(gos_presigns@).subrange(0, n as int) =~= presign_views(
                gos_presigns@,
            ));
        }
        out.append("],\"webcam_settings\":");
        out.append(webcam_json_of(&self.webcam_settings).as_str());
        out.append(",\"last_modified\":");
        out.append(crate::text::fmt_i64(self.last_modified).as_str());
        out.append(",\"users\":[");
        let ghost prefix1 = out@;
        let ghost fname = |x: String| x@;
        let m = self.users.len();
        let mut j: usize = 0;
        while j < m
            invariant
                0 <= j <= m,
                m == self.users@.len(),
                m == usernames@.len(),
                fname == (|x: String| x@),
                out@ == prefix1 + join_comma(
                    user_entries(
                        self.users@.subrange(0, j as int),
                        usernames@.map_values(fname).subrange(0, j as int),
                    ),
                ),
            decreases m - j,
        {
            if j > 0 {
                out.append(",");
            }
            out.append("{\"username\":");
            out.append(json_string_of(usernames[j].as_str()).as_str());
            out.append(",\"role\":");
            out.append(role_json_of(self.users[j].1));
            out.append("}");
            proof {
                reveal_strlit(",");
                assert(","@ =~= seq![',']);
                let uv = self.users@.subrange(0, j as int);
                let nv = usernames@.map_values(fname).subrange(0, j as int);
                lemma_user_entries_push(
                    uv,
                    nv,
                    self.users@[j as int],
                    usernames@.map_values(fname)[j as int],
                );
                assert(uv.push(self.users@[j as int]) =~= self.users@.subrange(0, j + 1));
                assert(nv.push(usernames@.map_values(fname)[j as int]) =~= usernames@.map_values(
                    fname,
                ).subrange(0, j + 1));
                lemma_join_comma_push(
                    user_entries(uv, nv),
                    user_entry_json(usernames@.map_values(fname)[j as int], self.users@[j as int].1),
                );
                assert(out@ =~= prefix1 + join_comma(
                    user_entries(
                        self.users@.subrange(0, j + 1),
                        usernames@.map_values(fname).subrange(0, j + 1),
                    ),
                ));
            }
            j += 1;
        }
        proof {
            assert(self.users@.subrange(0, m as int) =~= self.users@);
            assert(usernames@.map_values(fname).subrange(0, m as int) =~= usernames@.map_values(
                fname,
            ));
        }
        out.append("],\"prompt_subtitles\":");
        out.append(bool_json_of(self.prompt_subtitles));
        out.append(",\"disk_usage\":");
        out.append(crate::text::fmt_i32(self.disk_usage).as_str());
        out.append(",\"duration_ms\":");
        out.append(crate::text::fmt_i32(self.duration_ms).as_str());
        out.append(",\"sound_track\":");
        match &self.sound_track {
            Some(t) => {
                out.append(t.to_json().as_str());
            },
            None => {
                out.append("null");
            },
        }
        out.append(",\"output_presign\":");
        match output_presign {
            Some(u) => {
                out.append(json_string_of(u.as_str()).as_str());
            },
            None => {
                out.append("null");
            },
        }
        out.append(",\"sound_track_presign\":");
        match sound_track_presign {
            Some(u) => {
                out.append(json_string_of(u.as_str()).as_str());
            },
            None => {
                out.append("null");
            },
        }
        out.append("}");
        out
    }

    /// Writes the JSON form of the capsule for a participant.
    pub fn to_json(
        &self,
        role: crate::capsule::Role,
        id: &str,
        usernames: &Vec<String>,
        gos_presigns: &Vec<Option<String>>,
        output_presign: &Option<String>,
        sound_track_presign: &Option<String>,
    ) -> (r: String)
        requires
            usernames@.len() == self.users@.len(),
            gos_presigns@.len() == self.structure@.len(),
        ensures
            r@ == capsule_json(
                *self,
                role,
                id@,
                usernames@.map_values(|n: String| n@),
                presign_views(gos_presigns@),
                (match *output_presign {
                    Some(u) => Some(u@),
                    None => None,
                }),
                (match *sound_track_presign {
                    Some(u) => Some(u@),
                    None => None,
                }),
            ),
    {
        let mut out = "{".to_owned();
        out.append(
            self.fields_json(
                role,
                id,
                usernames,
                gos_presigns,
                output_presign,
                sound_track_presign,
            ).as_str(),
        );
        out
    }

    /// Writes the `capsule_changed` message for a participant.
    pub fn capsule_changed_of(
        &self,
        role: crate::capsule::Role,
        id: &str,
        usernames: &Vec<String>,
        gos_presigns: &Vec<Option<String>>,
        output_presign: &Option<String>,
        sound_track_presign: &Option<String>,
    ) -> (r: String)
        requires
            usernames@.len() == self.users@.len(),
            gos_presigns@.len() == self.structure@.len(),
        ensures
            r@ == capsule_changed_json(
                *self,
                role,
                id@,
                usernames@.map_values(|n: String| n@),
                presign_views(gos_presigns@),
                (match *output_presign {
                    Some(u) => Some(u@),
                    None => None,
                }),
                (match *sound_track_presign {
                    Some(u) => Some(u@),
                    None => None,
                }),
            ),
    {
        let mut out = "{\"type\":\"capsule_changed\",".to_owned();
        out.append(
            self.fields_json(
                role,
                id,
                usernames,
                gos_presigns,
                output_presign,
                sound_track_presign,
            ).as_str(),
        );
        out
    }
}

/// One more participant entry joins at the end.
proof fn lemma_user_entries_push(
    users: Seq<(i32, crate::capsule::Role)>,
    names: Seq<Seq<char>>,
    u: (i32, crate::capsule::Role),
    n: Seq<char>,
)
    requires
        users.len() == names.len(),
    ensures
        user_entries(users.push(u), names.push(n)) == user_entries(users, names).push(
            user_entry_json(n, u.1),
        ),
    decreases users.len(),
{
    if users.len() == 0 {
        assert(users.push(u).first() == u);
        assert(names.push(n).first() == n);
        assert(users.push(u).drop_first() =~= Seq::<(i32, crate::capsule::Role)>::empty());
        assert(names.push(n).drop_first() =~= Seq::<Seq<char>>::empty());
        assert(user_entries(users.push(u), names.push(n)) == seq![user_entry_json(n, u.1)]
            + user_entries(
            Seq::<(i32, crate::capsule::Role)>::empty(),
            Seq::<Seq<char>>::empty(),
        ));
        assert(user_entries(
            Seq::<(i32, crate::capsule::Role)>::empty(),
            Seq::<Seq<char>>::empty(),
        ) =~= Seq::<Seq<char>>::empty());
        assert(user_entries(users.push(u), names.push(n)) =~= seq![user_entry_json(n, u.1)]);
        assert(user_entries(users, names).push(user_entry_json(n, u.1)) =~= seq![
            user_entry_json(n, u.1),
        ]);
    } else {
        lemma_user_entries_push(users.drop_first(), names.drop_first(), u, n);
        assert(users.push(u).first() == users.first());
        assert(names.push(n).first() == names.first());
        assert(users.push(u).drop_first() =~= users.drop_first().push(u));
        assert(names.push(n).drop_first() =~= names.drop_first().push(n));
        assert(user_entries(users.push(u), names.push(n)) =~= user_entries(users, names).push(
            user_entry_json(n, u.1),
        ));
    }
}

} // verus!
