//! Tasks: workflow task instances, their identity hash for deduplication,
//! and the descriptions derived from them.

use crate::json::{JsonNumber, JsonValue, JsonView, NumberView};
use crate::text::{hex_digits, i64_to_decimal, int_decimal, u64_to_hex_digits};
use vstd::utf8::encode_utf8;
use crate::time::Timestamp;
use std::collections::hash_map::DefaultHasher;
use vstd::prelude::*;
use vstd::std_specs::hash::DefaultHasherAdditionalSpecFns;

verus! {

/// A task execution instance.
pub struct Task {
    pub task_id: i64,
    pub named_task_id: i32,
    pub complete: bool,
    pub requested_at: Timestamp,
    pub initiator: Option<String>,
    pub source_system: Option<String>,
    pub reason: Option<String>,
    pub bypass_steps: Option<JsonValue>,
    pub tags: Option<JsonValue>,
    pub context: Option<JsonValue>,
    pub identity_hash: String,
    pub created_at: Timestamp,
    pub updated_at: Timestamp,
}

/// A task to create; without a request time it is requested now.
pub struct NewTask {
    pub named_task_id: i32,
    pub requested_at: Option<Timestamp>,
    pub initiator: Option<String>,
    pub source_system: Option<String>,
    pub reason: Option<String>,
    pub bypass_steps: Option<JsonValue>,
    pub tags: Option<JsonValue>,
    pub context: Option<JsonValue>,
    pub identity_hash: String,
}

/// A task with the names it is orchestrated under.
pub struct TaskForOrchestration {
    pub task: Task,
    pub task_name: String,
    pub task_version: String,
    pub namespace_name: String,
}

/// The four bytes of an `i32` (as its `u32` bit pattern), least significant first.
pub open spec fn i32_le_bytes(v: i32) -> Seq<u8> {
    let u = v as u32;
    seq![(u % 256) as u8, ((u / 256) % 256) as u8, ((u / 65536) % 256) as u8, (u / 16777216) as u8]
}

/// Feeds an `i32` to a hasher the way its `Hash` implementation does.
///
/// Calls `<i32 as Hash>::hash`, which calls `write_i32`; the standard
/// library's provided `write_i32` calls `write_u32`, whose provided version
/// writes the value's `to_ne_bytes()` with one `write`, and `DefaultHasher`
/// overrides neither. So one write of the four bytes happens, in the
/// machine's byte order: little-endian or big-endian, left open here.
#[verifier::external_body]
fn hash_i32(hasher: &mut DefaultHasher, value: i32)
    ensures
        final(hasher)@ == old(hasher)@.push(i32_le_bytes(value))
            || final(hasher)@ == old(hasher)@.push(i32_le_bytes(value).reverse()),
{
    std::hash::Hash::hash(&value, hasher)
}

/// Feeds a string to a hasher the way its `Hash` implementation does.
///
/// Calls `<str as Hash>::hash`, which calls `write_str`. `DefaultHasher`
/// passes it to its SipHash state, whose `write_str` writes the string's
/// UTF-8 bytes and then the single byte `0xFF` (the extra byte the `Hash`
/// documentation names for `str`), each as one write.
#[verifier::external_body]
fn hash_str(hasher: &mut DefaultHasher, value: &str)
    ensures
        final(hasher)@ == old(hasher)@.push(encode_utf8(value@)).push(seq![0xffu8]),
{
    std::hash::Hash::hash(value, hasher)
}

/// What the identity hash feeds the hasher: the template id's bytes, then,
/// when there is a context, the UTF-8 bytes of its JSON text and the
/// end-of-string byte `0xFF`.
pub open spec fn identity_writes(id_bytes: Seq<u8>, context_text: Option<Seq<char>>) -> Seq<Seq<u8>> {
    match context_text {
        Some(t) => seq![id_bytes, encode_utf8(t), seq![0xffu8]],
        None => seq![id_bytes],
    }
}

/// The characters of an optional string.
pub open spec fn opt_str_view(o: Option<&str>) -> Option<Seq<char>> {
    match o {
        Some(t) => Some(t@),
        None => None,
    }
}

/// The identity hash text for a template id and optional context text, on
/// a machine of the given byte order.
pub open spec fn identity_hash_text(named_task_id: i32, context_text: Option<Seq<char>>, big_endian: bool) -> Seq<char> {
    let id_bytes = if big_endian { i32_le_bytes(named_task_id).reverse() } else { i32_le_bytes(named_task_id) };
    hex_digits(DefaultHasher::spec_finish(identity_writes(id_bytes, context_text)) as nat, 16)
}

/// The compact JSON text of a document.
///
/// Calls `to_string` on a `serde_json::Value`, whose `Display` writes
/// compact JSON. What the text is goes unstated: it only feeds the hasher.
#[verifier::external_body]
fn json_text(value: &serde_json::Value) -> String {
    value.to_string()
}

/// The decimal rendering of a wrapped id in a description.
pub open spec fn wrapped_id(prefix: Seq<char>, id: i64) -> Seq<char> {
    prefix + int_decimal(id as int) + ")"@
}

impl Task {
    /// The identity hash for a template id and the JSON text of a context:
    /// the standard library's default hasher, fed the template id and, when
    /// given, the text, and finished; written as 16 lowercase hexadecimal
    /// digits. The byte order of the template id is the machine's.
    pub fn identity_hash_for_text(named_task_id: i32, context_text: Option<&str>) -> (r: String)
        ensures
            exists|big_endian: bool| r@ == #[trigger] identity_hash_text(
                named_task_id,
                opt_str_view(context_text),
                big_endian,
            ),
    {
        let mut hasher = DefaultHasher::new();
        hash_i32(&mut hasher, named_task_id);
        let ghost id_write = hasher@[0];
        let ghost big_endian = id_write != i32_le_bytes(named_task_id);
        match context_text {
            Some(t) => {
                hash_str(&mut hasher, t);
            },
            None => {},
        }
        let h = std::hash::Hasher::finish(&hasher);
        let r = u64_to_hex_digits(h, 16);
        proof {
            let text = opt_str_view(context_text);
            let id_bytes = if big_endian { i32_le_bytes(named_task_id).reverse() } else { i32_le_bytes(named_task_id) };
            assert(hasher@ =~= identity_writes(id_bytes, text));
            assert(r@ == identity_hash_text(named_task_id, text, big_endian));
        }
        r
    }

    /// The identity hash of a task: `identity_hash_for_text` of its template
    /// id and, when given, its context's compact JSON text. Different context
    /// texts feed the hasher different bytes (`lemma_identity_writes_distinct`).
    pub fn generate_identity_hash(named_task_id: i32, context: &Option<serde_json::Value>) -> (r: String)
        ensures
            exists|writes: Seq<Seq<u8>>| r@ == hex_digits(DefaultHasher::spec_finish(writes) as nat, 16),
            match context {
                None => exists|big_endian: bool| r@ == #[trigger] identity_hash_text(named_task_id, None, big_endian),
                Some(_) => exists|big_endian: bool, text: Seq<char>|
                    r@ == #[trigger] identity_hash_text(named_task_id, Some(text), big_endian),
            },
    {
        match context {
            Some(ctx) => {
                let text = json_text(ctx);
                let r = Task::identity_hash_for_text(named_task_id, Some(text.as_str()));
                proof {
                    let be = choose|be: bool| r@ == identity_hash_text(named_task_id, Some(text@), be);
                    let id_bytes = if be { i32_le_bytes(named_task_id).reverse() } else { i32_le_bytes(named_task_id) };
                    assert(r@ == hex_digits(DefaultHasher::spec_finish(identity_writes(id_bytes, Some(text@))) as nat, 16));
                }
                r
            },
            None => {
                let r = Task::identity_hash_for_text(named_task_id, None);
                proof {
                    let be = choose|be: bool| r@ == identity_hash_text(named_task_id, None, be);
                    let id_bytes = if be { i32_le_bytes(named_task_id).reverse() } else { i32_le_bytes(named_task_id) };
                    assert(r@ == hex_digits(DefaultHasher::spec_finish(identity_writes(id_bytes, None)) as nat, 16));
                }
                r
            },
        }
    }

    /// A description of the task's state machine.
    pub fn state_machine(&self) -> (r: String)
        ensures
            r@ == wrapped_id("TaskStateMachine(task_id: "@, self.task_id),
    {
        String::from_str("TaskStateMachine(task_id: ").concat(i64_to_decimal(self.task_id).as_str()).concat(")")
    }

    /// A description of the task's runtime graph analyzer.
    pub fn runtime_analyzer(&self) -> (r: String)
        ensures
            r@ == wrapped_id("RuntimeGraphAnalyzer(task_id: "@, self.task_id),
    {
        String::from_str("RuntimeGraphAnalyzer(task_id: ").concat(i64_to_decimal(self.task_id).as_str()).concat(")")
    }

    /// The task's status given its current state; "pending" when it has none.
    pub fn status(&self, current_state: Option<&str>) -> (r: String)
        ensures
            r@ == match current_state { Some(s) => s@, None => "pending"@ },
    {
        match current_state {
            Some(s) => String::from_str(s),
            None => String::from_str("pending"),
        }
    }

    /// Whether the task has steps and all of them are processed, from the
    /// counts of all and of processed steps (a missing count reads as zero).
    pub fn steps_complete_from_counts(total_steps: Option<i64>, completed_steps: Option<i64>) -> (r: bool)
        ensures
            r == ({
                let total = match total_steps { Some(t) => t, None => 0 };
                let completed = match completed_steps { Some(c) => c, None => 0 };
                total > 0 && total == completed
            }),
    {
        let total = match total_steps {
            Some(t) => t,
            None => 0,
        };
        let completed = match completed_steps {
            Some(c) => c,
            None => 0,
        };
        total > 0 && total == completed
    }

    /// The options of a task request: for now the same default options for
    /// every request.
    pub fn get_request_options(_task_request: JsonValue) -> (r: JsonValue)
        ensures
            r@ == JsonView::Object(seq![
                ("default_options"@, JsonView::Bool(true)),
                ("extracted_from"@, JsonView::String("task_request"@)),
            ]),
            crate::json::json_well_formed(r@),
    {
        let members: Vec<(String, JsonValue)> = vec![
            (String::from_str("default_options"), JsonValue::Bool(true)),
            (String::from_str("extracted_from"), JsonValue::String(String::from_str("task_request"))),
        ];
        proof {
            crate::json::lemma_members_view(members@);
            assert(crate::json::members_view(members@) =~= seq![
                ("default_options"@, JsonView::Bool(true)),
                ("extracted_from"@, JsonView::String("task_request"@)),
            ]);
            reveal_strlit("default_options");
            reveal_strlit("extracted_from");
            let mv = crate::json::members_view(members@);
            assert(crate::json::text_lt("default_options"@, "extracted_from"@));
            assert(crate::json::keys_sorted(mv));
            crate::json::lemma_object_well_formed(mv);
        }
        JsonValue::Object(members)
    }

    /// The runtime dependency graph description of the task: its id, no
    /// nodes, no edges, and an analysis marked as a placeholder, with the
    /// members in key order.
    pub fn dependency_graph(&self) -> (r: JsonValue)
        ensures
            r@ == JsonView::Object(seq![
                ("analysis"@, JsonView::String("placeholder"@)),
                ("edges"@, JsonView::Array(Seq::empty())),
                ("nodes"@, JsonView::Array(Seq::empty())),
                ("task_id"@, JsonView::Number(if self.task_id >= 0 {
                    NumberView::PosInt(self.task_id as u64)
                } else {
                    NumberView::NegInt(self.task_id)
                })),
            ]),
            crate::json::json_well_formed(r@),
    {
        let id = if self.task_id >= 0 {
            JsonNumber::PosInt(self.task_id as u64)
        } else {
            JsonNumber::NegInt(self.task_id)
        };
        let members: Vec<(String, JsonValue)> = vec![
            (String::from_str("analysis"), JsonValue::String(String::from_str("placeholder"))),
            (String::from_str("edges"), JsonValue::Array(Vec::new())),
            (String::from_str("nodes"), JsonValue::Array(Vec::new())),
            (String::from_str("task_id"), JsonValue::Number(id)),
        ];
        proof {
            crate::json::lemma_members_view(members@);
            assert(crate::json::items_view(Seq::<JsonValue>::empty()) =~= Seq::empty());
            assert(crate::json::members_view(members@) =~= seq![
                ("analysis"@, JsonView::String("placeholder"@)),
                ("edges"@, JsonView::Array(Seq::empty())),
                ("nodes"@, JsonView::Array(Seq::empty())),
                ("task_id"@, JsonView::Number(if self.task_id >= 0 {
                    NumberView::PosInt(self.task_id as u64)
                } else {
                    NumberView::NegInt(self.task_id)
                })),
            ]);
            reveal_strlit("analysis");
            reveal_strlit("edges");
            reveal_strlit("nodes");
            reveal_strlit("task_id");
            assert(crate::json::text_lt("analysis"@, "edges"@));
            assert(crate::json::text_lt("edges"@, "nodes"@));
            assert(crate::json::text_lt("nodes"@, "task_id"@));
            assert(crate::json::text_lt("analysis"@, "nodes"@));
            assert(crate::json::text_lt("analysis"@, "task_id"@));
            assert(crate::json::text_lt("edges"@, "task_id"@));
            let mv = crate::json::members_view(members@);
            assert forall|i: int, j: int| 0 <= i < j < mv.len() implies crate::json::text_lt(#[trigger] mv[i].0, #[trigger] mv[j].0) by {
                if i == 0 && j == 1 {} else if i == 0 && j == 2 {} else if i == 0 && j == 3 {}
                else if i == 1 && j == 2 {} else if i == 1 && j == 3 {} else {}
            }
            assert(crate::json::items_well_formed(Seq::<JsonView>::empty()));
            assert forall|i: int| 0 <= i < mv.len() implies #[trigger] crate::json::json_well_formed(mv[i].1) by {}
            crate::json::lemma_object_well_formed(mv);
        }
        let graph = JsonValue::Object(members);
        graph
    }
}

/// The identity hash feeds the hasher different data for different
/// contexts: two different context texts, or a context and none, give
/// different writes after the same template id.
pub proof fn lemma_identity_writes_distinct(id_bytes: Seq<u8>, t1: Option<Seq<char>>, t2: Option<Seq<char>>)
    requires
        t1 != t2,
    ensures
        identity_writes(id_bytes, t1) != identity_writes(id_bytes, t2),
{
    if let (Some(a), Some(b)) = (t1, t2) {
        if identity_writes(id_bytes, t1) == identity_writes(id_bytes, t2) {
            assert(identity_writes(id_bytes, t1)[1] == encode_utf8(a));
            assert(identity_writes(id_bytes, t2)[1] == encode_utf8(b));
            vstd::utf8::encode_utf8_decode_utf8(a);
            vstd::utf8::encode_utf8_decode_utf8(b);
        }
    } else {
        assert(identity_writes(id_bytes, t1).len() != identity_writes(id_bytes, t2).len());
    }
}

/// Different template ids feed the hasher different bytes, in either byte
/// order.
pub proof fn lemma_identity_id_bytes_distinct(a: i32, b: i32)
    requires
        a != b,
    ensures
        i32_le_bytes(a) != i32_le_bytes(b),
        i32_le_bytes(a).reverse() != i32_le_bytes(b).reverse(),
{
    let ua = a as u32;
    let ub = b as u32;
    assert(ua != ub) by (bit_vector)
        requires
            a != b,
            ua == a as u32,
            ub == b as u32;
    if i32_le_bytes(a) == i32_le_bytes(b) {
        assert(i32_le_bytes(a)[0] == i32_le_bytes(b)[0]);
        assert(i32_le_bytes(a)[1] == i32_le_bytes(b)[1]);
        assert(i32_le_bytes(a)[2] == i32_le_bytes(b)[2]);
        assert(i32_le_bytes(a)[3] == i32_le_bytes(b)[3]);
        assert(ua == ub) by (nonlinear_arith)
            requires
                ua % 256 == ub % 256,
                (ua / 256) % 256 == (ub / 256) % 256,
                (ua / 65536) % 256 == (ub / 65536) % 256,
                ua / 16777216 == ub / 16777216,
                ua <= 0xffffffff,
                ub <= 0xffffffff;
    }
    if i32_le_bytes(a).reverse() == i32_le_bytes(b).reverse() {
        assert(i32_le_bytes(a) =~= i32_le_bytes(a).reverse().reverse());
        assert(i32_le_bytes(b) =~= i32_le_bytes(b).reverse().reverse());
    }
}

} // verus!
