//! Notification fan-out.
//!
//! Messages are JSON objects with a `type` discriminator.  Progress and
//! terminal messages go to every participant of the capsule.  In broker
//! mode a message is wrapped in an envelope carrying the target user id in
//! a reserved `rabbitmq_user_id` field, published on a fanout exchange, and
//! unwrapped by each instance's subscriber.

use vstd::prelude::*;

use crate::capsule::{Capsule, Role};
use crate::json::{json_string, json_string_of};
use crate::text::{fmt_i32, fmt_milli, int_digits, lemma_int_digits_chars, milli_digits, parse_i32};

verus! {

/// A capsule production progress message.
pub open spec fn capsule_production_progress_json(id: Seq<char>, milli: nat) -> Seq<char> {
    "{\"type\":\"capsule_production_progress\",\"id\":"@ + json_string(id) + ",\"msg\":"@
        + milli_digits(milli) + "}"@
}

/// A grain production progress message.
pub open spec fn gos_production_progress_json(id: Seq<char>, gos_id: int, milli: nat) -> Seq<
    char,
> {
    "{\"type\":\"gos_production_progress\",\"id\":"@ + json_string(id) + ",\"gos_id\":"@
        + int_digits(gos_id) + ",\"msg\":"@ + milli_digits(milli) + "}"@
}

/// A capsule publication progress message.
pub open spec fn capsule_publication_progress_json(id: Seq<char>, milli: nat) -> Seq<char> {
    "{\"type\":\"capsule_publication_progress\",\"id\":"@ + json_string(id) + ",\"msg\":"@
        + milli_digits(milli) + "}"@
}

/// An extra-video upload progress message.
pub open spec fn video_upload_progress_json(id: Seq<char>, slide_id: Seq<char>, milli: nat) -> Seq<
    char,
> {
    "{\"type\":\"video_upload_progress\",\"id\":"@ + json_string(id) + ",\"slide_id\":"@
        + json_string(slide_id) + ",\"msg\":"@ + milli_digits(milli) + "}"@
}

/// A capsule production terminal message.
pub open spec fn capsule_production_finished_json(id: Seq<char>) -> Seq<char> {
    "{\"type\":\"capsule_production_finished\",\"id\":"@ + json_string(id) + "}"@
}

/// A grain production terminal message.
pub open spec fn gos_production_finished_json(id: Seq<char>, gos_id: int) -> Seq<char> {
    "{\"type\":\"gos_production_finished\",\"id\":"@ + json_string(id) + ",\"gos_id\":"@
        + int_digits(gos_id) + "}"@
}

/// A capsule publication terminal message.
pub open spec fn capsule_publication_finished_json(id: Seq<char>) -> Seq<char> {
    "{\"type\":\"capsule_publication_finished\",\"id\":"@ + json_string(id) + "}"@
}

/// An extra-video upload terminal message.
pub open spec fn video_upload_finished_json(id: Seq<char>, slide_id: Seq<char>) -> Seq<char> {
    "{\"type\":\"video_upload_finished\",\"id\":"@ + json_string(id) + ",\"slide_id\":"@
        + json_string(slide_id) + "}"@
}

/// A plain notification message.
pub open spec fn notification_json(title: Seq<char>, message: Seq<char>) -> Seq<char> {
    "{\"type\":\"notification\",\"title\":"@ + json_string(title) + ",\"message\":"@ + json_string(
        message,
    ) + ",\"read\":false}"@
}

/// Writes a capsule production progress message.
pub fn capsule_production_progress_of(id: &str, milli: u64) -> (r: String)
    ensures
        r@ == capsule_production_progress_json(id@, milli as nat),
{
    let mut out = "{\"type\":\"capsule_production_progress\",\"id\":".to_owned();
    out.append(json_string_of(id).as_str());
    out.append(",\"msg\":");
    out.append(fmt_milli(milli).as_str());
    out.append("}");
    out
}

/// Writes a grain production progress message.
pub fn gos_production_progress_of(id: &str, gos_id: i32, milli: u64) -> (r: String)
    ensures
        r@ == gos_production_progress_json(id@, gos_id as int, milli as nat),
{
    let mut out = "{\"type\":\"gos_production_progress\",\"id\":".to_owned();
    out.append(json_string_of(id).as_str());
    out.append(",\"gos_id\":");
    out.append(fmt_i32(gos_id).as_str());
    out.append(",\"msg\":");
    out.append(fmt_milli(milli).as_str());
    out.append("}");
    out
}

/// Writes a capsule publication progress message.
pub fn capsule_publication_progress_of(id: &str, milli: u64) -> (r: String)
    ensures
        r@ == capsule_publication_progress_json(id@, milli as nat),
{
    let mut out = "{\"type\":\"capsule_publication_progress\",\"id\":".to_owned();
    out.append(json_string_of(id).as_str());
    out.append(",\"msg\":");
    out.append(fmt_milli(milli).as_str());
    out.append("}");
    out
}

/// Writes an extra-video upload progress message.
pub fn video_upload_progress_of(id: &str, slide_id: &str, milli: u64) -> (r: String)
    ensures
        r@ == video_upload_progress_json(id@, slide_id@, milli as nat),
{
    let mut out = "{\"type\":\"video_upload_progress\",\"id\":".to_owned();
    out.append(json_string_of(id).as_str());
    out.append(",\"slide_id\":");
    out.append(json_string_of(slide_id).as_str());
    out.append(",\"msg\":");
    out.append(fmt_milli(milli).as_str());
    out.append("}");
    out
}

/// Writes a capsule production terminal message.
pub fn capsule_production_finished_of(id: &str) -> (r: String)
    ensures
        r@ == capsule_production_finished_json(id@),
{
    let mut out = "{\"type\":\"capsule_production_finished\",\"id\":".to_owned();
    out.append(json_string_of(id).as_str());
    out.append("}");
    out
}

/// Writes a grain production terminal message.
pub fn gos_production_finished_of(id: &str, gos_id: i32) -> (r: String)
    ensures
        r@ == gos_production_finished_json(id@, gos_id as int),
{
    let mut out = "{\"type\":\"gos_production_finished\",\"id\":".to_owned();
    out.append(json_string_of(id).as_str());
    out.append(",\"gos_id\":");
    out.append(fmt_i32(gos_id).as_str());
    out.append("}");
    out
}

/// Writes a capsule publication terminal message.
pub fn capsule_publication_finished_of(id: &str) -> (r: String)
    ensures
        r@ == capsule_publication_finished_json(id@),
{
    let mut out = "{\"type\":\"capsule_publication_finished\",\"id\":".to_owned();
    out.append(json_string_of(id).as_str());
    out.append("}");
    out
}

/// Writes an extra-video upload terminal message.
pub fn video_upload_finished_of(id: &str, slide_id: &str) -> (r: String)
    ensures
        r@ == video_upload_finished_json(id@, slide_id@),
{
    let mut out = "{\"type\":\"video_upload_finished\",\"id\":".to_owned();
    out.append(json_string_of(id).as_str());
    out.append(",\"slide_id\":");
    out.append(json_string_of(slide_id).as_str());
    out.append("}");
    out
}

/// Writes a plain notification message.
pub fn notification_of(title: &str, message: &str) -> (r: String)
    ensures
        r@ == notification_json(title@, message@),
{
    let mut out = "{\"type\":\"notification\",\"title\":".to_owned();
    out.append(json_string_of(title).as_str());
    out.append(",\"message\":");
    out.append(json_string_of(message).as_str());
    out.append(",\"read\":false}");
    out
}

impl Capsule {
    /// The `capsule_changed` deliveries: one message per participant,
    /// each carrying that participant's own role.  The presigned URLs,
    /// which only the object-storage edge can issue, are shared by every
    /// delivery; on local disk they are all absent.
    pub fn capsule_changed_messages(
        &self,
        id: &str,
        usernames: &Vec<String>,
        gos_presigns: &Vec<Option<String>>,
        output_presign: &Option<String>,
        sound_track_presign: &Option<String>,
    ) -> (r: Vec<(i32, String)>)
        requires
            usernames@.len() == self.users@.len(),
            gos_presigns@.len() == self.structure@.len(),
        ensures
            r@.len() == self.users@.len(),
            forall|i: int|
                0 <= i < self.users@.len() ==> (#[trigger] r@[i]).0 == self.users@[i].0
                    && r@[i].1@ == crate::json::capsule_changed_json(
                    *self,
                    self.users@[i].1,
                    id@,
                    usernames@.map_values(|n: String| n@),
                    crate::json::presign_views(gos_presigns@),
                    (match *output_presign {
                        Some(u) => Some(u@),
                        None => None,
                    }),
                    (match *sound_track_presign {
                        Some(u) => Some(u@),
                        None => None,
                    }),
                ),
    {
        let mut r: Vec<(i32, String)> = Vec::new();
        let m = self.users.len();
        let mut i: usize = 0;
        while i < m
            invariant
                0 <= i <= m,
                m == self.users@.len(),
                m == usernames@.len(),
                gos_presigns@.len() == self.structure@.len(),
                r@.len() == i,
                forall|k: int|
                    0 <= k < i ==> (#[trigger] r@[k]).0 == self.users@[k].0 && r@[k].1@
                        == crate::json::capsule_changed_json(
                        *self,
                        self.users@[k].1,
                        id@,
                        usernames@.map_values(|n: String| n@),
                        crate::json::presign_views(gos_presigns@),
                        (match *output_presign {
                            Some(u) => Some(u@),
                            None => None,
                        }),
                        (match *sound_track_presign {
                            Some(u) => Some(u@),
                            None => None,
                        }),
                    ),
            decreases m - i,
        {
            let msg = self.capsule_changed_of(
                self.users[i].1,
                id,
                usernames,
                gos_presigns,
                output_presign,
                sound_track_presign,
            );
            r.push((self.users[i].0, msg));
            i += 1;
        }
        r
    }

    /// The users a capsule message fans out to: every participant of the
    /// capsule, whatever its role.
    pub fn fanout_targets(&self) -> (r: Vec<i32>)
        ensures
            r@ == self.users@.map_values(|u: (i32, Role)| u.0),
    {
        let mut r: Vec<i32> = Vec::new();
        let n = self.users.len();
        let mut i: usize = 0;
        while i < n
            invariant
                0 <= i <= n,
                n == self.users@.len(),
                r@ =~= self.users@.subrange(0, i as int).map_values(|u: (i32, Role)| u.0),
            decreases n - i,
        {
            r.push(self.users[i].0);
            proof {
                let f = |u: (i32, Role)| u.0;
                assert(self.users@.subrange(0, i + 1) =~= self.users@.subrange(0, i as int).push(
                    self.users@[i as int],
                ));
                assert(self.users@.subrange(0, i + 1).map_values(f) =~= self.users@.subrange(
                    0,
                    i as int,
                ).map_values(f).push(f(self.users@[i as int])));
            }
            i += 1;
        }
        proof {
            assert(self.users@.subrange(0, n as int) =~= self.users@);
        }
        r
    }
}

/// A well-formed message payload: a JSON object, from `{` to `}`.
pub open spec fn payload_wf(p: Seq<char>) -> bool {
    p.len() >= 2 && p[0] == '{' && p[p.len() - 1] == '}'
}

/// The broker envelope of a message: the payload with the reserved
/// `rabbitmq_user_id` field inserted first.
pub open spec fn enriched(p: Seq<char>, id: int) -> Seq<char> {
    seq!['{'] + "\"rabbitmq_user_id\":"@ + int_digits(id) + (if p.len() == 2 {
        Seq::<char>::empty()
    } else {
        seq![',']
    }) + p.subrange(1, p.len() as int)
}

/// Wraps a message for the fanout exchange.  Succeeds exactly on
/// well-formed payloads.
pub fn enrich_payload(payload: &str, user_id: i32) -> (r: Option<String>)
    ensures
        match r {
            Some(s) => payload_wf(payload@) && s@ == enriched(payload@, user_id as int),
            None => !payload_wf(payload@),
        },
{
    let len = payload.unicode_len();
    if len < 2 {
        return None;
    }
    if payload.get_char(0) != '{' {
        return None;
    }
    if payload.get_char(len - 1) != '}' {
        return None;
    }
    let mut out = "{\"rabbitmq_user_id\":".to_owned();
    out.append(fmt_i32(user_id).as_str());
    if len > 2 {
        out.append(",");
    }
    out.append(payload.substring_char(1, len));
    proof {
        lemma_envelope_prefix();
        reveal_strlit(",");
        assert(out@ =~= enriched(payload@, user_id as int));
    }
    Some(out)
}

/// The envelope's fixed field name: nineteen characters, none of them a
/// comma, and the twenty-character prefix that starts the envelope.
proof fn lemma_envelope_prefix()
    ensures
        ("\"rabbitmq_user_id\":"@).len() == 19,
        forall|k: int| 0 <= k < 19 ==> ("\"rabbitmq_user_id\":"@)[k] != ',',
        ("{\"rabbitmq_user_id\":"@).len() == 20,
        "{\"rabbitmq_user_id\":"@ == seq!['{'] + "\"rabbitmq_user_id\":"@,
{
    reveal_strlit("{\"rabbitmq_user_id\":");
    reveal_strlit("\"rabbitmq_user_id\":");
    assert("{\"rabbitmq_user_id\":"@ =~= seq!['{'] + "\"rabbitmq_user_id\":"@);
}

/// In an envelope, the first comma of the whole text is the separator
/// after the user id: the id section it closes sits at positions twenty to
/// the comma, and the rest of the text is the payload without its opening
/// brace.
proof fn lemma_envelope_comma(s: Seq<char>, p: Seq<char>, id: i32, cp: int)
    requires
        payload_wf(p),
        s == enriched(p, id as int),
        0 <= cp < s.len(),
        s[cp] == ',',
        forall|k: int| 0 <= k < cp ==> s[k] != ',',
    ensures
        p.len() > 2,
        cp == 20 + int_digits(id as int).len(),
        s.subrange(20, cp) == int_digits(id as int),
        p == seq!['{'] + s.subrange(cp + 1, s.len() as int),
{
    lemma_envelope_prefix();
    lemma_int_digits_chars(id as int);
    crate::text::lemma_int_digits_no_comma(id as int);
    assert(p.len() > 2) by {
        if p.len() == 2 {
            assert(forall|k: int| 0 <= k < s.len() ==> s[k] != ',') by {
                assert(s =~= seq!['{'] + "\"rabbitmq_user_id\":"@ + int_digits(id as int)
                    + p.subrange(1, p.len() as int));
            }
        }
    }
    assert(s[20 + int_digits(id as int).len() as int] == ',');
    assert(cp == 20 + int_digits(id as int).len()) by {
        if cp < 20 + int_digits(id as int).len() {
            if cp < 20 {
                assert(s[cp] == ("{\"rabbitmq_user_id\":"@)[cp]);
            } else {
                assert(s[cp] == int_digits(id as int)[cp - 20]);
            }
        }
    }
    assert(s.subrange(20, cp) =~= int_digits(id as int));
    assert(p =~= seq!['{'] + s.subrange(cp + 1, s.len() as int));
}

/// Unwraps a broker envelope: the target user and the original payload.
/// The result is the pair whose envelope the input is, if the input is any
/// pair's envelope.
pub fn strip_payload(s: &str) -> (r: Option<(i32, String)>)
    ensures
        match r {
            Some(pair) => payload_wf(pair.1@) && s@ == enriched(pair.1@, pair.0 as int),
            None => forall|p: Seq<char>, id: i32|
                payload_wf(p) ==> s@ != #[trigger] enriched(p, id as int),
        },
{
    proof {
        lemma_envelope_prefix();
        assert forall|p: Seq<char>, id: i32|
            payload_wf(p) implies #[trigger] enriched(p, id as int).len() >= 22 by {
            lemma_int_digits_chars(id as int);
        }
    }
    let len = s.unicode_len();
    if len < 22 {
        return None;
    }
    let pfx = s.substring_char(0, 20).to_owned();
    if !pfx.eq(&"{\"rabbitmq_user_id\":".to_owned()) {
        proof {
            assert forall|p: Seq<char>, id: i32|
                payload_wf(p) implies s@ != #[trigger] enriched(p, id as int) by {
                if s@ == enriched(p, id as int) {
                    assert(s@.subrange(0, 20) =~= "{\"rabbitmq_user_id\":"@);
                }
            }
        }
        return None;
    }
    match crate::text::find_comma(s) {
        Some(cp) => {
            if cp < 21 {
                proof {
                    assert forall|p: Seq<char>, id: i32|
                        payload_wf(p) implies s@ != #[trigger] enriched(p, id as int) by {
                        if s@ == enriched(p, id as int) {
                            lemma_envelope_comma(s@, p, id, cp as int);
                            lemma_int_digits_chars(id as int);
                        }
                    }
                }
                return None;
            }
            let id_str = s.substring_char(20, cp);
            let id_v = match parse_i32(id_str) {
                Some(v) => v,
                None => {
                    proof {
                        assert forall|p: Seq<char>, id: i32|
                            payload_wf(p) implies s@ != #[trigger] enriched(p, id as int) by {
                            if s@ == enriched(p, id as int) {
                                lemma_envelope_comma(s@, p, id, cp as int);
                                assert(id_str@ =~= int_digits(id as int));
                            }
                        }
                    }
                    return None;
                },
            };
            let mut payload = "{".to_owned();
            payload.append(s.substring_char(cp + 1, len));
            let reenc = enrich_payload(payload.as_str(), id_v);
            match reenc {
                Some(e) => {
                    if e.eq(&s.to_owned()) {
                        Some((id_v, payload))
                    } else {
                        proof {
                            reveal_strlit("{");
                            assert forall|p: Seq<char>, id: i32|
                                payload_wf(p) implies s@ != #[trigger] enriched(p, id as int) by {
                                if s@ == enriched(p, id as int) {
                                    lemma_envelope_comma(s@, p, id, cp as int);
                                    assert(id_str@ =~= int_digits(id as int));
                                    assert(id_v == id);
                                    assert(payload@ =~= p);
                                    assert(e@ == enriched(p, id as int));
                                }
                            }
                        }
                        None
                    }
                },
                None => {
                    proof {
                        reveal_strlit("{");
                        assert forall|p: Seq<char>, id: i32|
                            payload_wf(p) implies s@ != #[trigger] enriched(p, id as int) by {
                            if s@ == enriched(p, id as int) {
                                lemma_envelope_comma(s@, p, id, cp as int);
                                assert(payload@ =~= p);
                                assert(payload_wf(payload@));
                            }
                        }
                    }
                    None
                },
            }
        },
        None => {
            let last = s.substring_char(len - 1, len).to_owned();
            if !last.eq(&"}".to_owned()) {
                proof {
                    reveal_strlit("}");
                    assert forall|p: Seq<char>, id: i32|
                        payload_wf(p) implies s@ != #[trigger] enriched(p, id as int) by {
                        if s@ == enriched(p, id as int) {
                            lemma_int_digits_chars(id as int);
                            assert(p.subrange(1, p.len() as int)[p.len() - 2] == p[p.len() - 1]);
                            assert(s@[s@.len() - 1] == p[p.len() - 1]);
                            assert(last@ =~= seq![s@[s@.len() - 1]]);
                            assert(last@ =~= "}"@);
                        }
                    }
                }
                return None;
            }
            let id_str = s.substring_char(20, len - 1);
            match parse_i32(id_str) {
                Some(id_v) => {
                    let mut enc = "{\"rabbitmq_user_id\":".to_owned();
                    enc.append(fmt_i32(id_v).as_str());
                    enc.append("}");
                    if enc.eq(&s.to_owned()) {
                        let payload = "{}".to_owned();
                        proof {
                            reveal_strlit("{}");
                            reveal_strlit("}");
                            assert(payload_wf(payload@));
                            assert(payload@.subrange(1, 2) =~= seq!['}']);
                            assert(s@ =~= enriched(payload@, id_v as int));
                        }
                        Some((id_v, payload))
                    } else {
                        proof {
                            assert forall|p: Seq<char>, id: i32|
                                payload_wf(p) implies s@ != #[trigger] enriched(p, id as int) by {
                                if s@ == enriched(p, id as int) {
                                    lemma_int_digits_chars(id as int);
                                    assert(p.len() == 2) by {
                                        if p.len() > 2 {
                                            assert(s@[20 + int_digits(id as int).len() as int] == ',');
                                        }
                                    }
                                    assert(id_str@ =~= int_digits(id as int));
                                    assert(id_v == id);
                                    assert(p =~= "{}"@) by {
                                        reveal_strlit("{}");
                                        assert(p[0] == '{' && p[1] == '}');
                                    }
                                    assert(enc@ =~= enriched(p, id as int));
                                }
                            }
                        }
                        None
                    }
                },
                None => {
                    proof {
                        assert forall|p: Seq<char>, id: i32|
                            payload_wf(p) implies s@ != #[trigger] enriched(p, id as int) by {
                            if s@ == enriched(p, id as int) {
                                lemma_int_digits_chars(id as int);
                                assert(p.len() == 2) by {
                                    if p.len() > 2 {
                                        assert(s@[20 + int_digits(id as int).len() as int] == ',');
                                    }
                                }
                                assert(id_str@ =~= int_digits(id as int));
                            }
                        }
                    }
                    None
                },
            }
        },
    }
}

/// Unwrapping an envelope yields the pair that was wrapped: the subscriber
/// recovers exactly the user id and the message that the publisher sent.
pub proof fn lemma_envelope_round_trip(p: Seq<char>, id: i32, r: Option<(i32, String)>)
    requires
        payload_wf(p),
        match r {
            Some(pair) => payload_wf(pair.1@) && enriched(p, id as int) == enriched(
                pair.1@,
                pair.0 as int,
            ),
            None => forall|p2: Seq<char>, id2: i32|
                payload_wf(p2) ==> enriched(p, id as int) != #[trigger] enriched(p2, id2 as int),
        },
    ensures
        r matches Some(pair) && pair.0 == id && pair.1@ == p,
{
    if r is None {
        assert(enriched(p, id as int) == enriched(p, id as int));
    } else {
        let pair = r->Some_0;
        lemma_enriched_injective(p, id, pair.1@, pair.0);
    }
}

/// The envelope determines the payload and the user id.
pub proof fn lemma_enriched_injective(p1: Seq<char>, id1: i32, p2: Seq<char>, id2: i32)
    requires
        payload_wf(p1),
        payload_wf(p2),
        enriched(p1, id1 as int) == enriched(p2, id2 as int),
    ensures
        id1 == id2,
        p1 == p2,
{
    lemma_envelope_prefix();
    lemma_int_digits_chars(id1 as int);
    lemma_int_digits_chars(id2 as int);
    crate::text::lemma_int_digits_no_comma(id1 as int);
    crate::text::lemma_int_digits_no_comma(id2 as int);
    let s = enriched(p1, id1 as int);
    let l1 = int_digits(id1 as int).len() as int;
    let l2 = int_digits(id2 as int).len() as int;
    assert(l1 == l2) by {
        if p1.len() == 2 && p2.len() == 2 {
            assert(s.len() == 20 + l1 + 1);
            assert(s.len() == 20 + l2 + 1);
        } else if p1.len() > 2 && p2.len() > 2 {
            assert(s[20 + l1] == ',');
            assert(s[20 + l2] == ',');
            if l1 < l2 {
                assert(s[20 + l1] == int_digits(id2 as int)[l1]);
            }
            if l2 < l1 {
                assert(s[20 + l2] == int_digits(id1 as int)[l2]);
            }
        } else if p1.len() == 2 && p2.len() > 2 {
            assert(forall|k: int| 0 <= k < s.len() ==> s[k] != ',') by {
                assert(s =~= seq!['{'] + "\"rabbitmq_user_id\":"@ + int_digits(id1 as int)
                    + p1.subrange(1, p1.len() as int));
                assert(p1.subrange(1, 2) =~= seq![p1[1]]);
                assert(p1[1] == '}');
            }
            assert(s[20 + l2] == ',');
        } else {
            assert(forall|k: int| 0 <= k < s.len() ==> s[k] != ',') by {
                assert(s =~= seq!['{'] + "\"rabbitmq_user_id\":"@ + int_digits(id2 as int)
                    + p2.subrange(1, p2.len() as int));
                assert(p2.subrange(1, 2) =~= seq![p2[1]]);
                assert(p2[1] == '}');
            }
            assert(s[20 + l1] == ',');
        }
    }
    assert(int_digits(id1 as int) =~= int_digits(id2 as int)) by {
        assert forall|k: int| 0 <= k < l1 implies int_digits(id1 as int)[k] == int_digits(
            id2 as int,
        )[k] by {
            assert(s[20 + k] == int_digits(id1 as int)[k]);
            assert(enriched(p2, id2 as int)[20 + k] == int_digits(id2 as int)[k]);
        }
    }
    crate::text::lemma_int_digits_injective(id1 as int, id2 as int);
    assert(p1.len() == p2.len()) by {
        assert(s.len() == 20 + l1 + (if p1.len() == 2 {
            0int
        } else {
            1int
        }) + (p1.len() - 1));
        assert(enriched(p2, id2 as int).len() == 20 + l2 + (if p2.len() == 2 {
            0int
        } else {
            1int
        }) + (p2.len() - 1));
        if p1.len() == 2 && p2.len() > 2 {
            assert(p2.len() - 1 == 1);
        }
        if p2.len() == 2 && p1.len() > 2 {
            assert(p1.len() - 1 == 1);
        }
    }
    assert(p1 =~= p2) by {
        assert(p1[0] == '{' && p2[0] == '{');
        if p1.len() == 2 {
            assert(p1[1] == '}' && p2[1] == '}');
        } else {
            let off = 21 + l1;
            assert forall|k: int| 1 <= k < p1.len() implies p1[k] == p2[k] by {
                assert(s[off + (k - 1)] == p1.subrange(1, p1.len() as int)[k - 1]);
                assert(enriched(p2, id2 as int)[off + (k - 1)] == p2.subrange(
                    1,
                    p2.len() as int,
                )[k - 1]);
            }
        }
    }
}

} // verus!
