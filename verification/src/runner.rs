//! The task envelope: the serialized form in which work orders travel from
//! the triggering instance to the worker over the broker queue.

use vstd::prelude::*;

use crate::text::{find_comma, int_digits, lemma_int_digits_chars, lemma_int_digits_injective,
    lemma_int_digits_no_comma, parse_i32};

verus! {

/// A work order for the worker pool.
#[derive(Debug, Clone, Copy, PartialEq, Eq, Structural)]
pub enum Task {
    /// A grain production: capsule id and grain index.
    ProduceGos(i32, i32),

    /// A capsule production: capsule id.
    ProduceCapsule(i32),

    /// A capsule publication: capsule id.
    PublishCapsule(i32),
}

/// The JSON envelope of a task: a tagged variant.
pub open spec fn task_json(t: Task) -> Seq<char> {
    match t {
        Task::ProduceGos(c, g) => "{\"ProduceGos\":["@ + int_digits(c as int) + ","@ + int_digits(
            g as int,
        ) + "]}"@,
        Task::ProduceCapsule(c) => "{\"ProduceCapsule\":"@ + int_digits(c as int) + "}"@,
        Task::PublishCapsule(c) => "{\"PublishCapsule\":"@ + int_digits(c as int) + "}"@,
    }
}

impl Task {
    /// Writes the JSON envelope of the task.
    pub fn encode(&self) -> (r: String)
        ensures
            r@ == task_json(*self),
    {
        match self {
            Task::ProduceGos(c, g) => {
                let mut out = "{\"ProduceGos\":[".to_owned();
                out.append(crate::text::fmt_i32(*c).as_str());
                out.append(",");
                out.append(crate::text::fmt_i32(*g).as_str());
                out.append("]}");
                out
            },
            Task::ProduceCapsule(c) => {
                let mut out = "{\"ProduceCapsule\":".to_owned();
                out.append(crate::text::fmt_i32(*c).as_str());
                out.append("}");
                out
            },
            Task::PublishCapsule(c) => {
                let mut out = "{\"PublishCapsule\":".to_owned();
                out.append(crate::text::fmt_i32(*c).as_str());
                out.append("}");
                out
            },
        }
    }
}



/// Tries to read a grain-production envelope.
fn try_produce_gos(s: &str) -> (r: Option<Task>)
    ensures
        match r {
            Some(t) => s@ == task_json(t),
            None => forall|a: i32, b: i32| s@ != task_json(Task::ProduceGos(a, b)),
        },
{
    proof {
        reveal_strlit("{\"ProduceGos\":[");
        reveal_strlit("]}");
        reveal_strlit(",");
        assert forall|a: i32, b: i32|
            s@ == task_json(Task::ProduceGos(a, b)) implies s@.len() >= 20 by {
            lemma_int_digits_chars(a as int);
            lemma_int_digits_chars(b as int);
        }
    }
    let len = s.unicode_len();
    if len < 20 {
        return None;
    }
    let pfx = s.substring_char(0, 15).to_owned();
    if !pfx.eq(&"{\"ProduceGos\":[".to_owned()) {
        proof {
            assert forall|a: i32, b: i32|
                s@ != task_json(Task::ProduceGos(a, b)) by {
                if s@ == task_json(Task::ProduceGos(a, b)) {
                    assert(s@.subrange(0, 15) =~= "{\"ProduceGos\":["@);
                }
            }
        }
        return None;
    }
    let sfx = s.substring_char(len - 2, len).to_owned();
    if !sfx.eq(&"]}".to_owned()) {
        proof {
            assert forall|a: i32, b: i32|
                s@ != task_json(Task::ProduceGos(a, b)) by {
                if s@ == task_json(Task::ProduceGos(a, b)) {
                    assert(s@.subrange(s@.len() - 2, s@.len() as int) =~= "]}"@);
                }
            }
        }
        return None;
    }
    let mid = s.substring_char(15, len - 2);
    let ghost dec = |a: i32, b: i32| int_digits(a as int) + ","@ + int_digits(b as int);
    proof {
        assert forall|a: i32, b: i32|
            s@ == task_json(Task::ProduceGos(a, b)) implies mid@ == dec(a, b) by {
            assert(mid@ =~= dec(a, b));
        }
    }
    match find_comma(mid) {
        Some(p) => {
            let a_str = mid.substring_char(0, p);
            let b_str = mid.substring_char(p + 1, mid.unicode_len());
            proof {
                assert forall|a: i32, b: i32|
                    s@ == task_json(Task::ProduceGos(a, b)) implies a_str@ == int_digits(a as int)
                    && b_str@ == int_digits(b as int) by {
                    lemma_int_digits_no_comma(a as int);
                    lemma_int_digits_no_comma(b as int);
                    assert(mid@ == dec(a, b));
                    assert(mid@[int_digits(a as int).len() as int] == ',');
                    assert(p as int == int_digits(a as int).len()) by {
                        if (p as int) < int_digits(a as int).len() {
                            assert(mid@[p as int] == int_digits(a as int)[p as int]);
                        }
                        if (p as int) > int_digits(a as int).len() {
                            assert(mid@[int_digits(a as int).len() as int] == ',');
                        }
                    }
                    assert(a_str@ =~= int_digits(a as int));
                    assert(b_str@ =~= int_digits(b as int));
                }
            }
            let va = parse_i32(a_str);
            let vb = parse_i32(b_str);
            match (va, vb) {
                (Some(a), Some(b)) => {
                    let cand = Task::ProduceGos(a, b);
                    let enc = cand.encode();
                    if enc.eq(&s.to_owned()) {
                        Some(cand)
                    } else {
                        proof {
                            assert forall|x: i32, y: i32|
                                s@ != task_json(Task::ProduceGos(x, y)) by {
                                if s@ == task_json(Task::ProduceGos(x, y)) {
                                    assert(va == Some(x) && vb == Some(y));
                                }
                            }
                        }
                        None
                    }
                },
                _ => {
                    proof {
                        assert forall|x: i32, y: i32|
                            s@ != task_json(Task::ProduceGos(x, y)) by {
                            if s@ == task_json(Task::ProduceGos(x, y)) {
                                assert(va == Some(x) && vb == Some(y));
                            }
                        }
                    }
                    None
                },
            }
        },
        None => {
            proof {
                assert forall|a: i32, b: i32|
                    s@ != task_json(Task::ProduceGos(a, b)) by {
                    if s@ == task_json(Task::ProduceGos(a, b)) {
                        assert(mid@ == dec(a, b));
                        assert(mid@[int_digits(a as int).len() as int] == ',');
                    }
                }
            }
            None
        },
    }
}

/// Tries to read a single-id envelope with the given tag prefix, whose
/// canonical form is `pfx_lit + int_digits(id) + "}"`.
fn try_single_id(s: &str, pfx_lit: &str, Ghost(shape): Ghost<spec_fn(i32) -> Seq<char>>) -> (r:
    Option<i32>)
    requires
        1 <= pfx_lit@.len() <= 100,
        forall|n: i32| #[trigger] shape(n) == pfx_lit@ + int_digits(n as int) + "}"@,
    ensures
        match r {
            Some(v) => s@ == shape(v),
            None => forall|n: i32| s@ != #[trigger] shape(n),
        },
{
    proof {
        reveal_strlit("}");
        assert forall|n: i32| s@ == #[trigger] shape(n) implies s@.len() >= pfx_lit@.len() + 2 by {
            lemma_int_digits_chars(n as int);
        }
    }
    let len = s.unicode_len();
    let pfx_len = pfx_lit.unicode_len();
    if len < 2 || len - 2 < pfx_len {
        return None;
    }
    let pfx = s.substring_char(0, pfx_len).to_owned();
    if !pfx.eq(&pfx_lit.to_owned()) {
        proof {
            assert forall|n: i32| s@ != #[trigger] shape(n) by {
                if s@ == shape(n) {
                    assert(s@.subrange(0, pfx_lit@.len() as int) =~= pfx_lit@);
                }
            }
        }
        return None;
    }
    let sfx = s.substring_char(len - 1, len).to_owned();
    if !sfx.eq(&"}".to_owned()) {
        proof {
            assert forall|n: i32| s@ != #[trigger] shape(n) by {
                if s@ == shape(n) {
                    assert(s@.subrange(s@.len() - 1, s@.len() as int) =~= "}"@);
                }
            }
        }
        return None;
    }
    let mid = s.substring_char(pfx_len, len - 1);
    proof {
        assert forall|n: i32| s@ == #[trigger] shape(n) implies mid@ == int_digits(n as int) by {
            assert(mid@ =~= int_digits(n as int));
        }
    }
    match parse_i32(mid) {
        Some(v) => {
            let mut enc = pfx_lit.to_owned();
            enc.append(crate::text::fmt_i32(v).as_str());
            enc.append("}");
            if enc.eq(&s.to_owned()) {
                proof {
                    assert(enc@ == shape(v));
                }
                Some(v)
            } else {
                proof {
                    assert forall|n: i32| s@ != #[trigger] shape(n) by {
                        if s@ == shape(n) {
                            assert(Some(v) == Some(n));
                            assert(enc@ == shape(n));
                        }
                    }
                }
                None
            }
        },
        None => {
            proof {
                assert forall|n: i32| s@ != #[trigger] shape(n) by {
                    if s@ == shape(n) {
                        assert(mid@ == int_digits(n as int));
                    }
                }
            }
            None
        },
    }
}

impl Task {
    /// Reads a task back from its JSON envelope.  The result is the task
    /// whose envelope the input is, if the input is any task's envelope.
    pub fn decode(s: &str) -> (r: Option<Task>)
        ensures
            match r {
                Some(t) => s@ == task_json(t),
                None => forall|t: Task| s@ != task_json(t),
            },
    {
        if let Some(t) = try_produce_gos(s) {
            return Some(t);
        }
        let ghost shape_pc = |n: i32| "{\"ProduceCapsule\":"@ + int_digits(n as int) + "}"@;
        proof {
            reveal_strlit("{\"ProduceCapsule\":");
        }
        if let Some(v) = try_single_id(s, "{\"ProduceCapsule\":", Ghost(shape_pc)) {
            return Some(Task::ProduceCapsule(v));
        }
        let ghost shape_pub = |n: i32| "{\"PublishCapsule\":"@ + int_digits(n as int) + "}"@;
        proof {
            reveal_strlit("{\"PublishCapsule\":");
        }
        if let Some(v) = try_single_id(s, "{\"PublishCapsule\":", Ghost(shape_pub)) {
            return Some(Task::PublishCapsule(v));
        }
        proof {
            assert forall|t: Task| s@ != task_json(t) by {
                if s@ == task_json(t) {
                    match t {
                        Task::ProduceGos(a, b) => {
                        },
                        Task::ProduceCapsule(c) => {
                            assert(s@ == shape_pc(c));
                        },
                        Task::PublishCapsule(c) => {
                            assert(s@ == shape_pub(c));
                        },
                    }
                }
            }
        }
        None
    }
}

/// Reading an envelope back yields the task that was sent: the decoder
/// accepts every envelope the encoder writes, and only that task.
pub proof fn lemma_task_round_trip(t: Task, s: Seq<char>, r: Option<Task>)
    requires
        s == task_json(t),
        match r {
            Some(t2) => s == task_json(t2),
            None => forall|t2: Task| s != task_json(t2),
        },
    ensures
        r == Some(t),
{
    lemma_task_json_injective(t, r->Some_0);
    if r is None {
        assert(s != task_json(t));
    }
}

/// Two distinct tasks have distinct envelopes.
pub proof fn lemma_task_json_injective(a: Task, b: Task)
    ensures
        task_json(a) == task_json(b) ==> a == b,
{
    if task_json(a) == task_json(b) && a != b {
        reveal_strlit("{\"ProduceGos\":[");
        reveal_strlit("{\"ProduceCapsule\":");
        reveal_strlit("{\"PublishCapsule\":");
        reveal_strlit(",");
        reveal_strlit("]}");
        reveal_strlit("}");
        lemma_task_json_parts(a);
        lemma_task_json_parts(b);
        match (a, b) {
            (Task::ProduceGos(a0, a1), Task::ProduceGos(b0, b1)) => {
                lemma_int_digits_no_comma(a0 as int);
                lemma_int_digits_no_comma(b0 as int);
                let s = task_json(a);
                let la = int_digits(a0 as int).len() as int;
                let lb = int_digits(b0 as int).len() as int;
                assert(s[15 + la] == ',');
                assert(s[15 + lb] == ',');
                assert(la == lb) by {
                    if la < lb {
                        assert(s[15 + la] == int_digits(b0 as int)[la]);
                    }
                    if lb < la {
                        assert(s[15 + lb] == int_digits(a0 as int)[lb]);
                    }
                }
                assert(int_digits(a0 as int) =~= int_digits(b0 as int)) by {
                    assert forall|k: int| 0 <= k < la implies int_digits(a0 as int)[k]
                        == int_digits(b0 as int)[k] by {
                        assert(task_json(a)[15 + k] == int_digits(a0 as int)[k]);
                        assert(task_json(b)[15 + k] == int_digits(b0 as int)[k]);
                    }
                }
                let ma = int_digits(a1 as int).len() as int;
                let mb = int_digits(b1 as int).len() as int;
                assert(task_json(a).len() == 15 + la + 1 + ma + 2);
                assert(task_json(b).len() == 15 + lb + 1 + mb + 2);
                assert(ma == mb);
                assert(int_digits(a1 as int) =~= int_digits(b1 as int)) by {
                    assert forall|k: int| 0 <= k < ma implies int_digits(a1 as int)[k]
                        == int_digits(b1 as int)[k] by {
                        assert(task_json(a)[16 + la + k] == int_digits(a1 as int)[k]);
                        assert(task_json(b)[16 + lb + k] == int_digits(b1 as int)[k]);
                    }
                }
                lemma_int_digits_injective(a0 as int, b0 as int);
                lemma_int_digits_injective(a1 as int, b1 as int);
            },
            (Task::ProduceCapsule(a0), Task::ProduceCapsule(b0)) => {
                assert(task_json(a).len() == 18 + int_digits(a0 as int).len() + 1);
                assert(task_json(b).len() == 18 + int_digits(b0 as int).len() + 1);
                assert(int_digits(a0 as int) =~= int_digits(b0 as int)) by {
                    assert forall|k: int|
                        0 <= k < int_digits(a0 as int).len() implies int_digits(a0 as int)[k]
                        == int_digits(b0 as int)[k] by {
                        assert(task_json(a)[18 + k] == int_digits(a0 as int)[k]);
                        assert(task_json(b)[18 + k] == int_digits(b0 as int)[k]);
                    }
                }
                lemma_int_digits_injective(a0 as int, b0 as int);
            },
            (Task::PublishCapsule(a0), Task::PublishCapsule(b0)) => {
                assert(task_json(a).len() == 18 + int_digits(a0 as int).len() + 1);
                assert(task_json(b).len() == 18 + int_digits(b0 as int).len() + 1);
                assert(int_digits(a0 as int) =~= int_digits(b0 as int)) by {
                    assert forall|k: int|
                        0 <= k < int_digits(a0 as int).len() implies int_digits(a0 as int)[k]
                        == int_digits(b0 as int)[k] by {
                        assert(task_json(a)[18 + k] == int_digits(a0 as int)[k]);
                        assert(task_json(b)[18 + k] == int_digits(b0 as int)[k]);
                    }
                }
                lemma_int_digits_injective(a0 as int, b0 as int);
            },
            _ => {
                assert(task_json(a)[2] == task_json(b)[2] && task_json(a)[3] == task_json(b)[3]
                    && task_json(a)[9] == task_json(b)[9]);
            },
        }
    }
}

/// The length of each envelope part, for the injectivity argument.
proof fn lemma_task_json_parts(t: Task)
    ensures
        task_json(t).len() >= 20,
{
    reveal_strlit("{\"ProduceGos\":[");
    reveal_strlit("{\"ProduceCapsule\":");
    reveal_strlit("{\"PublishCapsule\":");
    reveal_strlit(",");
    reveal_strlit("]}");
    reveal_strlit("}");
    match t {
        Task::ProduceGos(a, b) => {
            lemma_int_digits_chars(a as int);
            lemma_int_digits_chars(b as int);
        },
        Task::ProduceCapsule(c) => {
            lemma_int_digits_chars(c as int);
        },
        Task::PublishCapsule(c) => {
            lemma_int_digits_chars(c as int);
        },
    }
}



} // verus!
