//! A JSON document model: the values that metadata, annotations and step
//! id lists hold, with object lookup and insertion.

use crate::text::str_eq;
use vstd::prelude::*;

verus! {

/// The JSON document type of `serde_json`, carried through where a
/// document is only serialized.
#[verifier::external_type_specification]
#[verifier::external_body]
pub struct ExSerdeJsonValue(serde_json::Value);

/// A JSON number: a non-negative integer, a negative integer, or any other
/// number held in its textual form.
#[derive(Debug, PartialEq, Eq)]
pub enum JsonNumber {
    PosInt(u64),
    NegInt(i64),
    Float(String),
}

/// A JSON value. A document is well formed (`json_well_formed`) when the
/// members of each of its objects are sorted by key, each key once, as in a
/// `serde_json` document; `insert` keeps a document well formed, and the
/// documents this library builds are.
#[derive(Debug, PartialEq, Eq)]
pub enum JsonValue {
    Null,
    Bool(bool),
    Number(JsonNumber),
    String(String),
    Array(Vec<JsonValue>),
    Object(Vec<(String, JsonValue)>),
}

/// The mathematical form of a JSON number.
pub enum NumberView {
    PosInt(u64),
    NegInt(i64),
    Float(Seq<char>),
}

/// The mathematical form of a JSON value.
pub enum JsonView {
    Null,
    Bool(bool),
    Number(NumberView),
    String(Seq<char>),
    Array(Seq<JsonView>),
    Object(Seq<(Seq<char>, JsonView)>),
}

pub open spec fn number_view(n: JsonNumber) -> NumberView {
    match n {
        JsonNumber::PosInt(u) => NumberView::PosInt(u),
        JsonNumber::NegInt(i) => NumberView::NegInt(i),
        JsonNumber::Float(s) => NumberView::Float(s@),
    }
}

pub open spec fn json_view(j: JsonValue) -> JsonView
    decreases j, 0nat,
{
    match j {
        JsonValue::Null => JsonView::Null,
        JsonValue::Bool(b) => JsonView::Bool(b),
        JsonValue::Number(n) => JsonView::Number(number_view(n)),
        JsonValue::String(s) => JsonView::String(s@),
        JsonValue::Array(items) => JsonView::Array(items_view(items@)),
        JsonValue::Object(members) => JsonView::Object(members_view(members@)),
    }
}

pub open spec fn items_view(s: Seq<JsonValue>) -> Seq<JsonView>
    decreases s, s.len(),
{
    if s.len() == 0 {
        Seq::empty()
    } else {
        items_view(s.drop_last()).push(json_view(s.last()))
    }
}

pub open spec fn members_view(s: Seq<(String, JsonValue)>) -> Seq<(Seq<char>, JsonView)>
    decreases s, s.len(),
{
    if s.len() == 0 {
        Seq::empty()
    } else {
        members_view(s.drop_last()).push((s.last().0@, json_view(s.last().1)))
    }
}

impl View for JsonValue {
    type V = JsonView;

    open spec fn view(&self) -> JsonView {
        json_view(*self)
    }
}

impl View for JsonNumber {
    type V = NumberView;

    open spec fn view(&self) -> NumberView {
        number_view(*self)
    }
}

pub proof fn lemma_items_view(s: Seq<JsonValue>)
    ensures
        items_view(s).len() == s.len(),
        forall|i: int| 0 <= i < s.len() ==> #[trigger] items_view(s)[i] == json_view(s[i]),
    decreases s.len(),
{
    if s.len() > 0 {
        lemma_items_view(s.drop_last());
    }
}

pub proof fn lemma_members_view(s: Seq<(String, JsonValue)>)
    ensures
        members_view(s).len() == s.len(),
        forall|i: int| 0 <= i < s.len() ==> #[trigger] members_view(s)[i] == (s[i].0@, json_view(s[i].1)),
    decreases s.len(),
{
    if s.len() > 0 {
        lemma_members_view(s.drop_last());
    }
}

/// The value of the first member named `key`, if any.
pub open spec fn member_lookup(members: Seq<(Seq<char>, JsonView)>, key: Seq<char>) -> Option<JsonView>
    decreases members.len(),
{
    if members.len() == 0 {
        None
    } else if members[0].0 == key {
        Some(members[0].1)
    } else {
        member_lookup(members.drop_first(), key)
    }
}

/// No two members share a key.
pub open spec fn keys_unique(members: Seq<(Seq<char>, JsonView)>) -> bool {
    forall|i: int, j: int| 0 <= i < j < members.len() ==> members[i].0 != members[j].0
}

/// Index of the first member named `key`, or -1.
pub open spec fn member_index(members: Seq<(Seq<char>, JsonView)>, key: Seq<char>) -> int
    decreases members.len(),
{
    if members.len() == 0 {
        -1
    } else if members[0].0 == key {
        0
    } else {
        let r = member_index(members.drop_first(), key);
        if r < 0 { -1 } else { r + 1 }
    }
}

/// `a` comes before `b` in the order of Rust strings: at the first place
/// where they differ the character with the smaller code point comes first,
/// and a proper prefix comes before the longer text. (Rust orders strings by
/// their UTF-8 bytes, which is the same order.)
pub open spec fn text_lt(a: Seq<char>, b: Seq<char>) -> bool
    decreases a.len(),
{
    if b.len() == 0 {
        false
    } else if a.len() == 0 {
        true
    } else if a[0] != b[0] {
        (a[0] as int) < (b[0] as int)
    } else {
        text_lt(a.drop_first(), b.drop_first())
    }
}

/// The keys of the members are in strictly increasing text order, as in a
/// `serde_json` object, which keeps its members sorted by key.
pub open spec fn keys_sorted(members: Seq<(Seq<char>, JsonView)>) -> bool {
    forall|i: int, j: int| 0 <= i < j < members.len() ==> text_lt(#[trigger] members[i].0, #[trigger] members[j].0)
}

/// Every object in the document, at any depth, has its members sorted by
/// key, each key once, as in a `serde_json` document.
pub open spec fn json_well_formed(v: JsonView) -> bool
    decreases v, 0nat,
{
    match v {
        JsonView::Array(items) => items_well_formed(items),
        JsonView::Object(members) => keys_sorted(members) && member_values_well_formed(members),
        _ => true,
    }
}

/// Every item is well formed.
pub open spec fn items_well_formed(s: Seq<JsonView>) -> bool
    decreases s, s.len(),
{
    if s.len() == 0 {
        true
    } else {
        items_well_formed(s.drop_last()) && json_well_formed(s.last())
    }
}

/// Every member's value is well formed.
pub open spec fn member_values_well_formed(s: Seq<(Seq<char>, JsonView)>) -> bool
    decreases s, s.len(),
{
    if s.len() == 0 {
        true
    } else {
        member_values_well_formed(s.drop_last()) && json_well_formed(s.last().1)
    }
}

proof fn lemma_member_values_well_formed(s: Seq<(Seq<char>, JsonView)>)
    ensures
        member_values_well_formed(s) <==> forall|i: int| 0 <= i < s.len() ==> #[trigger] json_well_formed(s[i].1),
    decreases s.len(),
{
    if s.len() > 0 {
        lemma_member_values_well_formed(s.drop_last());
        if forall|i: int| 0 <= i < s.len() ==> #[trigger] json_well_formed(s[i].1) {
            assert forall|i: int| 0 <= i < s.drop_last().len() implies #[trigger] json_well_formed(s.drop_last()[i].1) by {
                assert(s.drop_last()[i] == s[i]);
            }
            assert(json_well_formed(s[s.len() - 1].1));
        }
        if member_values_well_formed(s) {
            assert forall|i: int| 0 <= i < s.len() implies #[trigger] json_well_formed(s[i].1) by {
                if i < s.len() - 1 {
                    assert(s.drop_last()[i] == s[i]);
                    assert(json_well_formed(s.drop_last()[i].1));
                }
            }
        }
    }
}

/// Where a new member named `key` goes: after the leading members whose keys
/// come before `key`.
pub open spec fn insert_position(members: Seq<(Seq<char>, JsonView)>, key: Seq<char>) -> int
    decreases members.len(),
{
    if members.len() == 0 {
        0
    } else if text_lt(members[0].0, key) {
        1 + insert_position(members.drop_first(), key)
    } else {
        0
    }
}

/// The members after setting `key` to `value`: the member named `key` gets
/// the new value in place, and otherwise a new member is placed where its key
/// falls in the key order.
pub open spec fn member_insert(members: Seq<(Seq<char>, JsonView)>, key: Seq<char>, value: JsonView) -> Seq<(Seq<char>, JsonView)> {
    let i = member_index(members, key);
    if i < 0 {
        members.insert(insert_position(members, key), (key, value))
    } else {
        members.update(i, (key, value))
    }
}

proof fn lemma_text_lt_irreflexive(a: Seq<char>)
    ensures
        !text_lt(a, a),
    decreases a.len(),
{
    if a.len() > 0 {
        lemma_text_lt_irreflexive(a.drop_first());
    }
}

proof fn lemma_text_lt_transitive(a: Seq<char>, b: Seq<char>, c: Seq<char>)
    requires
        text_lt(a, b),
        text_lt(b, c),
    ensures
        text_lt(a, c),
    decreases a.len(),
{
    if a.len() > 0 && a[0] == b[0] && b[0] == c[0] {
        lemma_text_lt_transitive(a.drop_first(), b.drop_first(), c.drop_first());
    }
}

proof fn lemma_text_lt_total(a: Seq<char>, b: Seq<char>)
    requires
        a != b,
    ensures
        text_lt(a, b) || text_lt(b, a),
    decreases a.len(),
{
    if a.len() > 0 && b.len() > 0 {
        if a[0] == b[0] {
            if a.drop_first() == b.drop_first() {
                assert(a.drop_first().len() == a.len() - 1);
                assert(b.drop_first().len() == b.len() - 1);
                assert(a =~= b) by {
                    assert forall|i: int| 0 <= i < a.len() implies a[i] == b[i] by {
                        if i > 0 {
                            assert(a[i] == a.drop_first()[i - 1]);
                            assert(b[i] == b.drop_first()[i - 1]);
                        }
                    }
                }
            }
            lemma_text_lt_total(a.drop_first(), b.drop_first());
        } else {
        }
    } else if a.len() == 0 && b.len() == 0 {
        assert(a =~= b);
    }
}

proof fn lemma_insert_position(members: Seq<(Seq<char>, JsonView)>, key: Seq<char>)
    ensures
        0 <= insert_position(members, key) <= members.len(),
        forall|j: int| 0 <= j < insert_position(members, key) ==> text_lt(#[trigger] members[j].0, key),
        insert_position(members, key) < members.len() ==> !text_lt(members[insert_position(members, key)].0, key),
    decreases members.len(),
{
    if members.len() > 0 && text_lt(members[0].0, key) {
        let rest = members.drop_first();
        lemma_insert_position(rest, key);
        assert forall|j: int| 0 <= j < insert_position(members, key) implies text_lt(#[trigger] members[j].0, key) by {
            if j > 0 {
                assert(members[j] == rest[j - 1]);
            }
        }
        if insert_position(members, key) < members.len() {
            assert(members[insert_position(members, key)] == rest[insert_position(rest, key)]);
        }
    }
}

/// `insert_position` is the first place whose key does not come before `key`.
proof fn lemma_insert_position_at(members: Seq<(Seq<char>, JsonView)>, key: Seq<char>, p: int)
    requires
        0 <= p <= members.len(),
        forall|j: int| 0 <= j < p ==> text_lt(#[trigger] members[j].0, key),
        p < members.len() ==> !text_lt(members[p].0, key),
    ensures
        insert_position(members, key) == p,
    decreases p,
{
    if p > 0 {
        let rest = members.drop_first();
        assert(text_lt(members[0].0, key));
        assert forall|j: int| 0 <= j < p - 1 implies text_lt(#[trigger] rest[j].0, key) by {
            assert(rest[j] == members[j + 1]);
        }
        if p < members.len() {
            assert(rest[p - 1] == members[p]);
        }
        lemma_insert_position_at(rest, key, p - 1);
    }
}

pub proof fn lemma_member_index(members: Seq<(Seq<char>, JsonView)>, key: Seq<char>)
    ensures
        -1 <= member_index(members, key) < members.len(),
        member_index(members, key) >= 0 ==> members[member_index(members, key)].0 == key,
        member_index(members, key) >= 0 ==> member_lookup(members, key) == Some(members[member_index(members, key)].1),
        member_index(members, key) < 0 ==> member_lookup(members, key) is None,
        forall|j: int| 0 <= j < members.len() && (member_index(members, key) < 0 || j < member_index(members, key)) ==> members[j].0 != key,
    decreases members.len(),
{
    if members.len() > 0 && members[0].0 != key {
        lemma_member_index(members.drop_first(), key);
        let rest = members.drop_first();
        assert forall|j: int| 0 <= j < members.len() && (member_index(members, key) < 0 || j < member_index(members, key)) implies members[j].0 != key by {
            if j > 0 {
                assert(members[j] == rest[j - 1]);
            }
        }
    }
}

/// The first member named `key` is at its member index.
pub proof fn lemma_first_index(members: Seq<(Seq<char>, JsonView)>, key: Seq<char>, i: int)
    requires
        0 <= i < members.len(),
        members[i].0 == key,
        forall|j: int| 0 <= j < i ==> members[j].0 != key,
    ensures
        member_index(members, key) == i,
    decreases i,
{
    if i > 0 {
        let rest = members.drop_first();
        assert forall|j: int| 0 <= j < i - 1 implies rest[j].0 != key by {
            assert(rest[j] == members[j + 1]);
        }
        lemma_first_index(rest, key, i - 1);
    }
}

/// Looking up the key just set gives the value set.
pub proof fn lemma_member_insert_lookup(members: Seq<(Seq<char>, JsonView)>, key: Seq<char>, value: JsonView)
    ensures
        member_lookup(member_insert(members, key, value), key) == Some(value),
{
    lemma_member_index(members, key);
    let i = member_index(members, key);
    let m2 = member_insert(members, key, value);
    if i < 0 {
        let p = insert_position(members, key);
        lemma_insert_position(members, key);
        members.insert_ensures(p, (key, value));
        lemma_first_index(m2, key, p);
    } else {
        lemma_first_index(m2, key, i);
    }
    lemma_member_index(m2, key);
}

proof fn lemma_member_lookup_insert(members: Seq<(Seq<char>, JsonView)>, p: int, m: (Seq<char>, JsonView), other: Seq<char>)
    requires
        0 <= p <= members.len(),
        m.0 != other,
    ensures
        member_lookup(members.insert(p, m), other) == member_lookup(members, other),
    decreases p,
{
    members.insert_ensures(p, m);
    if p > 0 {
        let rest = members.drop_first();
        rest.insert_ensures(p - 1, m);
        assert(members.insert(p, m).drop_first() =~= rest.insert(p - 1, m));
        lemma_member_lookup_insert(rest, p - 1, m, other);
    } else {
        assert(members.insert(p, m).drop_first() =~= members);
    }
}

proof fn lemma_member_lookup_update(members: Seq<(Seq<char>, JsonView)>, i: int, m: (Seq<char>, JsonView), other: Seq<char>)
    requires
        0 <= i < members.len(),
        members[i].0 == m.0,
        m.0 != other,
    ensures
        member_lookup(members.update(i, m), other) == member_lookup(members, other),
    decreases members.len(),
{
    if i > 0 {
        assert(members.update(i, m)[0] == members[0]);
        assert(members.update(i, m).drop_first() =~= members.drop_first().update(i - 1, m));
        lemma_member_lookup_update(members.drop_first(), i - 1, m, other);
    } else {
        assert(members.update(i, m).drop_first() =~= members.drop_first());
    }
}

/// Setting one key leaves the lookup of every other key unchanged.
pub proof fn lemma_member_insert_other(members: Seq<(Seq<char>, JsonView)>, key: Seq<char>, value: JsonView, other: Seq<char>)
    requires
        other != key,
    ensures
        member_lookup(member_insert(members, key, value), other) == member_lookup(members, other),
{
    lemma_member_index(members, key);
    let i = member_index(members, key);
    if i < 0 {
        lemma_insert_position(members, key);
        lemma_member_lookup_insert(members, insert_position(members, key), (key, value), other);
    } else {
        lemma_member_lookup_update(members, i, (key, value), other);
    }
}

/// Setting a key keeps the keys of an object unique.
pub proof fn lemma_member_insert_unique(members: Seq<(Seq<char>, JsonView)>, key: Seq<char>, value: JsonView)
    requires
        keys_unique(members),
    ensures
        keys_unique(member_insert(members, key, value)),
{
    lemma_member_index(members, key);
    if member_index(members, key) < 0 {
        let p = insert_position(members, key);
        lemma_insert_position(members, key);
        members.insert_ensures(p, (key, value));
        let m2 = member_insert(members, key, value);
        assert forall|i: int, j: int| 0 <= i < j < m2.len() implies m2[i].0 != m2[j].0 by {
            let oi = if i < p { i } else { i - 1 };
            let oj = if j < p { j } else { j - 1 };
            if i != p && j != p {
                assert(m2[i] == members[oi]);
                assert(m2[j] == members[oj]);
            } else if i == p {
                assert(m2[j] == members[oj]);
            } else {
                assert(m2[i] == members[oi]);
            }
        }
    }
}

/// Members sorted by key name each key at most once.
pub proof fn lemma_sorted_keys_unique(members: Seq<(Seq<char>, JsonView)>)
    requires
        keys_sorted(members),
    ensures
        keys_unique(members),
{
    assert forall|i: int, j: int| 0 <= i < j < members.len() implies members[i].0 != members[j].0 by {
        lemma_text_lt_irreflexive(members[i].0);
        assert(text_lt(members[i].0, members[j].0));
    }
}

/// Setting a key keeps the members of an object sorted by key: a new key
/// goes where it falls in the order, and an existing key keeps its place.
pub proof fn lemma_member_insert_sorted(members: Seq<(Seq<char>, JsonView)>, key: Seq<char>, value: JsonView)
    requires
        keys_sorted(members),
    ensures
        keys_sorted(member_insert(members, key, value)),
{
    lemma_member_index(members, key);
    let m2 = member_insert(members, key, value);
    if member_index(members, key) < 0 {
        let p = insert_position(members, key);
        lemma_insert_position(members, key);
        members.insert_ensures(p, (key, value));
        if p < members.len() {
            lemma_text_lt_total(members[p].0, key);
        }
        assert forall|i: int, j: int| 0 <= i < j < m2.len() implies text_lt(#[trigger] m2[i].0, #[trigger] m2[j].0) by {
            let oi = if i < p { i } else { i - 1 };
            let oj = if j < p { j } else { j - 1 };
            if i != p && j != p {
                assert(m2[i] == members[oi]);
                assert(m2[j] == members[oj]);
            } else if i == p {
                assert(m2[j] == members[oj]);
                if oj > p {
                    lemma_text_lt_transitive(key, members[p].0, members[oj].0);
                }
            } else {
                assert(m2[i] == members[oi]);
            }
        }
    } else {
        let k = member_index(members, key);
        assert forall|i: int, j: int| 0 <= i < j < m2.len() implies text_lt(#[trigger] m2[i].0, #[trigger] m2[j].0) by {
            assert(m2[i].0 == members[i].0);
            assert(m2[j].0 == members[j].0);
        }
    }
}

/// Whether `a` comes before `b` in the order of Rust strings.
fn text_before(a: &str, b: &str) -> (r: bool)
    ensures
        r == text_lt(a@, b@),
{
    let n = a.unicode_len();
    let m = b.unicode_len();
    let mut i: usize = 0;
    assert(a@.skip(0) =~= a@);
    assert(b@.skip(0) =~= b@);
    while i < n && i < m && a.get_char(i) == b.get_char(i)
        invariant
            i <= n,
            i <= m,
            n == a@.len(),
            m == b@.len(),
            text_lt(a@, b@) == text_lt(a@.skip(i as int), b@.skip(i as int)),
        decreases n - i,
    {
        proof {
            let x = a@.skip(i as int);
            let y = b@.skip(i as int);
            assert(x.drop_first() =~= a@.skip(i + 1));
            assert(y.drop_first() =~= b@.skip(i + 1));
        }
        i = i + 1;
    }
    if i == m {
        false
    } else if i == n {
        true
    } else {
        (a.get_char(i) as u32) < (b.get_char(i) as u32)
    }
}

/// An object whose keys are sorted and whose values are well formed is well formed.
pub proof fn lemma_object_well_formed(members: Seq<(Seq<char>, JsonView)>)
    requires
        keys_sorted(members),
        forall|i: int| 0 <= i < members.len() ==> #[trigger] json_well_formed(members[i].1),
    ensures
        json_well_formed(JsonView::Object(members)),
{
    lemma_member_values_well_formed(members);
}

/// Setting a key of a well-formed object to a well-formed value keeps the
/// object well formed.
pub proof fn lemma_member_insert_well_formed(members: Seq<(Seq<char>, JsonView)>, key: Seq<char>, value: JsonView)
    requires
        json_well_formed(JsonView::Object(members)),
        json_well_formed(value),
    ensures
        json_well_formed(JsonView::Object(member_insert(members, key, value))),
{
    lemma_member_values_well_formed(members);
    lemma_member_insert_sorted(members, key, value);
    lemma_member_index(members, key);
    let m2 = member_insert(members, key, value);
    lemma_member_values_well_formed(m2);
    if member_index(members, key) < 0 {
        let p = insert_position(members, key);
        lemma_insert_position(members, key);
        members.insert_ensures(p, (key, value));
        assert forall|i: int| 0 <= i < m2.len() implies #[trigger] json_well_formed(m2[i].1) by {
            if i < p {
                assert(m2[i] == members[i]);
                assert(json_well_formed(members[i].1));
            } else if i > p {
                assert(m2[i] == members[i - 1]);
                assert(json_well_formed(members[i - 1].1));
            } else {
                assert(m2[i] == (key, value));
            }
        }
    } else {
        assert forall|i: int| 0 <= i < m2.len() implies #[trigger] json_well_formed(m2[i].1) by {
            if i != member_index(members, key) {
                assert(m2[i] == members[i]);
                assert(json_well_formed(members[i].1));
            } else {
                assert(m2[i] == (key, value));
            }
        }
    }
}

impl JsonNumber {
    /// The number as an `i64`, when it is an integer that fits.
    pub open spec fn spec_as_i64(&self) -> Option<i64> {
        match self {
            JsonNumber::PosInt(n) => if *n <= i64::MAX as u64 { Some(*n as i64) } else { None },
            JsonNumber::NegInt(n) => Some(*n),
            JsonNumber::Float(_) => None,
        }
    }

    /// The number as an `i64`, when it is an integer that fits.
    pub fn as_i64(&self) -> (r: Option<i64>)
        ensures
            r == self.spec_as_i64(),
    {
        match self {
            JsonNumber::PosInt(n) => if *n <= 9223372036854775807u64 { Some(*n as i64) } else { None },
            JsonNumber::NegInt(n) => Some(*n),
            JsonNumber::Float(_) => None,
        }
    }

    /// A copy of the number.
    pub fn copy(&self) -> (r: JsonNumber)
        ensures
            r == *self,
    {
        match self {
            JsonNumber::PosInt(n) => JsonNumber::PosInt(*n),
            JsonNumber::NegInt(n) => JsonNumber::NegInt(*n),
            JsonNumber::Float(s) => JsonNumber::Float(s.clone()),
        }
    }
}

/// The number in a view, as an `i64`, when it is an integer that fits.
pub open spec fn view_as_i64(v: JsonView) -> Option<i64> {
    match v {
        JsonView::Number(NumberView::PosInt(n)) => if n <= i64::MAX as u64 { Some(n as i64) } else { None },
        JsonView::Number(NumberView::NegInt(n)) => Some(n),
        _ => None,
    }
}

/// The value of member `key` of an object view; `None` for a missing key or a non-object.
pub open spec fn view_get(v: JsonView, key: Seq<char>) -> Option<JsonView> {
    match v {
        JsonView::Object(members) => member_lookup(members, key),
        _ => None,
    }
}

impl JsonValue {
    /// The empty object `{}`.
    pub fn empty_object() -> (r: JsonValue)
        ensures
            r@ == JsonView::Object(Seq::empty()),
            json_well_formed(r@),
    {
        let r = JsonValue::Object(Vec::new());
        assert(members_view(Seq::<(String, JsonValue)>::empty()) =~= Seq::empty());
        r
    }

    /// The value of member `key` of an object; `None` for a missing key or a non-object.
    pub fn get(&self, key: &str) -> (r: Option<&JsonValue>)
        ensures
            match r {
                Some(v) => view_get(self@, key@) == Some(v@),
                None => view_get(self@, key@) is None,
            },
    {
        match self {
            JsonValue::Object(members) => {
                let ghost mv = members_view(members@);
                proof {
                    lemma_members_view(members@);
                    assert(self@ == JsonView::Object(mv));
                }
                let mut i: usize = 0;
                while i < members.len()
                    invariant
                        i <= members.len(),
                        self@ == JsonView::Object(mv),
                        mv == members_view(members@),
                        mv.len() == members@.len(),
                        forall|j: int| 0 <= j < members@.len() ==> #[trigger] mv[j] == (members@[j].0@, json_view(members@[j].1)),
                        forall|j: int| 0 <= j < i ==> mv[j].0 != key@,
                    decreases members.len() - i,
                {
                    if str_eq(members[i].0.as_str(), key) {
                        proof {
                            assert(mv[i as int].0 == key@);
                            lemma_first_index(mv, key@, i as int);
                            lemma_member_index(mv, key@);
                            assert(mv[i as int] == (members@[i as int].0@, json_view(members@[i as int].1)));
                        }
                        return Some(&members[i].1);
                    }
                    i = i + 1;
                }
                proof {
                    lemma_member_index(mv, key@);
                    if member_index(mv, key@) >= 0 {
                        assert(mv[member_index(mv, key@)].0 == key@);
                    }
                }
                None
            },
            _ => None,
        }
    }

    /// The elements of an array.
    pub fn as_array(&self) -> (r: Option<&Vec<JsonValue>>)
        ensures
            match r {
                Some(a) => self@ == JsonView::Array(items_view(a@)),
                None => !(self@ is Array),
            },
    {
        match self {
            JsonValue::Array(a) => Some(a),
            _ => None,
        }
    }

    /// The value as an `i64`, when it is an integer number that fits.
    pub fn as_i64(&self) -> (r: Option<i64>)
        ensures
            r == view_as_i64(self@),
    {
        match self {
            JsonValue::Number(n) => n.as_i64(),
            _ => None,
        }
    }

    /// Position of the first member named `key` of an object.
    fn member_position(&self, key: &str) -> (r: Option<usize>)
        ensures
            match self@ {
                JsonView::Object(members) => match r {
                    Some(i) => member_index(members, key@) == i as int,
                    None => member_index(members, key@) < 0,
                },
                _ => r is None,
            },
    {
        match self {
            JsonValue::Object(members) => {
                let ghost mv = members_view(members@);
                proof {
                    lemma_members_view(members@);
                    assert(self@ == JsonView::Object(mv));
                }
                let mut i: usize = 0;
                while i < members.len()
                    invariant
                        i <= members.len(),
                        self@ == JsonView::Object(mv),
                        mv == members_view(members@),
                        mv.len() == members@.len(),
                        forall|j: int| 0 <= j < members@.len() ==> #[trigger] mv[j] == (members@[j].0@, json_view(members@[j].1)),
                        forall|j: int| 0 <= j < i ==> mv[j].0 != key@,
                    decreases members.len() - i,
                {
                    if str_eq(members[i].0.as_str(), key) {
                        proof {
                            assert(mv[i as int].0 == key@);
                            lemma_first_index(mv, key@, i as int);
                        }
                        return Some(i);
                    }
                    i = i + 1;
                }
                proof {
                    lemma_member_index(mv, key@);
                    if member_index(mv, key@) >= 0 {
                        assert(mv[member_index(mv, key@)].0 == key@);
                    }
                }
                None
            },
            _ => None,
        }
    }

    /// Sets member `key` of an object to `value`: the member of that name
    /// gets the new value, and otherwise a new member is placed where its key
    /// falls in the key order. A non-object is left unchanged.
    pub fn insert(&mut self, key: String, value: JsonValue)
        ensures
            match old(self)@ {
                JsonView::Object(members) => final(self)@ == JsonView::Object(member_insert(members, key@, value@)),
                _ => final(self)@ == old(self)@,
            },
            json_well_formed(old(self)@) && json_well_formed(value@) ==> json_well_formed(final(self)@),
    {
        let pos = self.member_position(key.as_str());
        let ghost before = *self;
        let ghost key_view = key@;
        let ghost value_view = value@;
        if let JsonValue::Object(members) = self {
            let ghost old_members = members@;
            let ghost mv = members_view(old_members);
            proof {
                lemma_members_view(old_members);
                lemma_member_index(mv, key@);
            }
            match pos {
                Some(i) => {
                    members.set(i, (key, value));
                    proof {
                        lemma_members_view(members@);
                        assert(members_view(members@) =~= member_insert(mv, key@, value@));
                    }
                },
                None => {
                    let mut p: usize = 0;
                    while p < members.len() && text_before(members[p].0.as_str(), key.as_str())
                        invariant
                            p <= members.len(),
                            members@ == old_members,
                            mv == members_view(old_members),
                            mv.len() == old_members.len(),
                            forall|j: int| 0 <= j < old_members.len() ==> #[trigger] mv[j] == (old_members[j].0@, json_view(old_members[j].1)),
                            forall|j: int| 0 <= j < p ==> text_lt(#[trigger] mv[j].0, key@),
                        decreases members.len() - p,
                    {
                        p = p + 1;
                    }
                    proof {
                        lemma_insert_position_at(mv, key@, p as int);
                    }
                    let ghost new_member = (key@, value@);
                    members.insert(p, (key, value));
                    proof {
                        lemma_members_view(members@);
                        mv.insert_ensures(p as int, new_member);
                        old_members.insert_ensures(p as int, members@[p as int]);
                        assert(members_view(members@) =~= member_insert(mv, key@, new_member.1));
                    }
                },
            }
        }
        proof {
            if before is Object {
                assert(self@ == JsonView::Object(members_view(self->Object_0@)));
                if json_well_formed(before@) && json_well_formed(value_view) {
                    lemma_member_insert_well_formed(before@->Object_0, key_view, value_view);
                }
            }
        }
    }

    /// A copy of the value.
    pub fn copy(&self) -> (r: JsonValue)
        ensures
            r@ == self@,
        decreases self,
    {
        match self {
            JsonValue::Null => JsonValue::Null,
            JsonValue::Bool(b) => JsonValue::Bool(*b),
            JsonValue::Number(n) => JsonValue::Number(n.copy()),
            JsonValue::String(s) => JsonValue::String(s.clone()),
            JsonValue::Array(items) => {
                let mut out: Vec<JsonValue> = Vec::new();
                let mut i: usize = 0;
                proof {
                    assert(items@.take(0) =~= Seq::<JsonValue>::empty());
                }
                while i < items.len()
                    invariant
                        i <= items.len(),
                        self is Array && self->Array_0 == *items,
                        items_view(out@) == items_view(items@.take(i as int)),
                    decreases items.len() - i,
                {
                    proof {
                        vstd::std_specs::vec::axiom_vec_index_decreases(*items, i as int);
                        assert(decreases_to!(*self => self->Array_0));
                    }
                    let item = items[i].copy();
                    let ghost prev = out@;
                    out.push(item);
                    proof {
                        assert(out@.drop_last() =~= prev);
                        assert(items@.take(i + 1).drop_last() =~= items@.take(i as int));
                    }
                    i = i + 1;
                }
                assert(items@.take(items.len() as int) =~= items@);
                JsonValue::Array(out)
            },
            JsonValue::Object(members) => {
                let mut out: Vec<(String, JsonValue)> = Vec::new();
                let mut i: usize = 0;
                proof {
                    assert(members@.take(0) =~= Seq::<(String, JsonValue)>::empty());
                }
                while i < members.len()
                    invariant
                        i <= members.len(),
                        self is Object && self->Object_0 == *members,
                        members_view(out@) == members_view(members@.take(i as int)),
                    decreases members.len() - i,
                {
                    proof {
                        vstd::std_specs::vec::axiom_vec_index_decreases(*members, i as int);
                        assert(decreases_to!(*self => self->Object_0));
                        assert(decreases_to!(members[i as int] => members[i as int].1));
                    }
                    let value = members[i].1.copy();
                    let ghost prev = out@;
                    out.push((members[i].0.clone(), value));
                    proof {
                        assert(out@.drop_last() =~= prev);
                        assert(members@.take(i + 1).drop_last() =~= members@.take(i as int));
                    }
                    i = i + 1;
                }
                assert(members@.take(members.len() as int) =~= members@);
                JsonValue::Object(out)
            },
        }
    }
}

} // verus!
