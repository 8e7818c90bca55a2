//! A JSON value model for the metadata, configuration and payload documents
//! the services read and rewrite.

use vstd::prelude::*;

verus! {

/// A JSON number: a non-negative integer, a negative integer, or any other
/// number kept as its JSON text. A well-formed document (`json_well_formed`)
/// holds a negative integer as `NegInt` and only then, as `serde_json` does.
#[derive(Clone, Debug, PartialEq, Eq)]
pub enum JsonNumber {
    PosInt(u64),
    NegInt(i64),
    Float(String),
}

/// A JSON document. Object entries keep their order; a well-formed
/// document (`json_well_formed`) repeats no key in any object.
#[derive(Debug, PartialEq, Eq)]
pub enum JsonValue {
    Null,
    Bool(bool),
    Number(JsonNumber),
    String(String),
    Array(Vec<JsonValue>),
    Object(Vec<(String, JsonValue)>),
}

/// A JSON number as the contracts see it.
pub enum NumberView {
    PosInt(u64),
    NegInt(i64),
    Float(Seq<char>),
}

/// A JSON document as the contracts see it.
pub enum JsonView {
    Null,
    Bool(bool),
    Number(NumberView),
    String(Seq<char>),
    Array(Seq<JsonView>),
    Object(Seq<(Seq<char>, JsonView)>),
}

pub open spec fn number_view(n: JsonNumber) -> NumberView {
    match n {
        JsonNumber::PosInt(u) => NumberView::PosInt(u),
        JsonNumber::NegInt(i) => NumberView::NegInt(i),
        JsonNumber::Float(s) => NumberView::Float(s@),
    }
}

pub open spec fn json_view(v: JsonValue) -> JsonView
    decreases v, 1int,
{
    match v {
        JsonValue::Null => JsonView::Null,
        JsonValue::Bool(b) => JsonView::Bool(b),
        JsonValue::Number(n) => JsonView::Number(number_view(n)),
        JsonValue::String(s) => JsonView::String(s@),
        JsonValue::Array(items) => JsonView::Array(items_view(items@)),
        JsonValue::Object(entries) => JsonView::Object(entries_view(entries@)),
    }
}

pub open spec fn items_view(items: Seq<JsonValue>) -> Seq<JsonView>
    decreases items, 0int,
{
    if items.len() == 0 {
        seq![]
    } else {
        items_view(items.drop_last()).push(json_view(items.last()))
    }
}

pub open spec fn entries_view(entries: Seq<(String, JsonValue)>) -> Seq<(Seq<char>, JsonView)>
    decreases entries, 0int,
{
    if entries.len() == 0 {
        seq![]
    } else {
        entries_view(entries.drop_last()).push((entries.last().0@, json_view(entries.last().1)))
    }
}


/// Which key names count as secrets.
#[derive(Clone, Copy, Debug, PartialEq, Eq, Structural)]
pub enum SecretKeyPolicy {
    /// The keys of the fixture ingest.
    FixtureIngest,
    /// The keys of the native runtime ingest, media locators included.
    NativeRuntime,
}

/// Whether `key` names a secret under `policy`.
pub open spec fn is_secret_key(policy: SecretKeyPolicy, key: Seq<char>) -> bool {
    let k = crate::text::ascii_lower(crate::text::trim_chars(key));
    match policy {
        SecretKeyPolicy::FixtureIngest => crate::whatsapp_vocab::fixture_secret_key_name(k),
        SecretKeyPolicy::NativeRuntime => crate::whatsapp_vocab::native_secret_key_name(k),
    }
}

/// The redacted form of a document: in every object at any depth, the
/// value of a secret key becomes the string `[redacted]`; everything else
/// is kept, in order.
pub open spec fn redacted(v: JsonView, policy: SecretKeyPolicy) -> JsonView
    decreases v, 1int,
{
    match v {
        JsonView::Array(items) => JsonView::Array(redacted_items(items, policy)),
        JsonView::Object(entries) => JsonView::Object(redacted_entries(entries, policy)),
        other => other,
    }
}

pub open spec fn redacted_items(items: Seq<JsonView>, policy: SecretKeyPolicy) -> Seq<JsonView>
    decreases items, 0int,
{
    if items.len() == 0 {
        seq![]
    } else {
        redacted_items(items.drop_last(), policy).push(redacted(items.last(), policy))
    }
}

pub open spec fn redacted_entries(
    entries: Seq<(Seq<char>, JsonView)>,
    policy: SecretKeyPolicy,
) -> Seq<(Seq<char>, JsonView)>
    decreases entries, 0int,
{
    if entries.len() == 0 {
        seq![]
    } else {
        let (key, value) = entries.last();
        redacted_entries(entries.drop_last(), policy).push(
            if is_secret_key(policy, key) {
                (key, JsonView::String("[redacted]"@))
            } else {
                (key, redacted(value, policy))
            },
        )
    }
}

/// Redaction is idempotent: redacting a redacted document changes nothing.
pub proof fn lemma_redaction_is_idempotent(v: JsonView, policy: SecretKeyPolicy)
    ensures
        redacted(redacted(v, policy), policy) == redacted(v, policy),
    decreases v, 1int,
{
    match v {
        JsonView::Array(items) => {
            lemma_redacted_items_idempotent(items, policy);
        },
        JsonView::Object(entries) => {
            lemma_redacted_entries_idempotent(entries, policy);
        },
        _ => {},
    }
}

proof fn lemma_redacted_items_idempotent(items: Seq<JsonView>, policy: SecretKeyPolicy)
    ensures
        redacted_items(redacted_items(items, policy), policy) == redacted_items(items, policy),
    decreases items, 0int,
{
    if items.len() > 0 {
        let once = redacted_items(items, policy);
        assert(decreases_to!(items => items[items.len() - 1]));
        lemma_redacted_items_idempotent(items.drop_last(), policy);
        lemma_redaction_is_idempotent(items.last(), policy);
        assert(once.drop_last() =~= redacted_items(items.drop_last(), policy));
        assert(redacted_items(once, policy) =~= once);
    }
}

proof fn lemma_redacted_entries_idempotent(entries: Seq<(Seq<char>, JsonView)>, policy: SecretKeyPolicy)
    ensures
        redacted_entries(redacted_entries(entries, policy), policy) == redacted_entries(entries, policy),
    decreases entries, 0int,
{
    if entries.len() > 0 {
        let once = redacted_entries(entries, policy);
        let (key, value) = entries.last();
        assert(decreases_to!(entries => entries[entries.len() - 1]));
        assert(decreases_to!(entries[entries.len() - 1] => entries[entries.len() - 1].1));
        lemma_redacted_entries_idempotent(entries.drop_last(), policy);
        lemma_redaction_is_idempotent(value, policy);
        assert(once.drop_last() =~= redacted_entries(entries.drop_last(), policy));
        assert(redacted_entries(once, policy) =~= once);
    }
}

/// Redacts the secrets of `value` under `policy`.
pub fn redact_secrets(value: JsonValue, policy: SecretKeyPolicy) -> (out: JsonValue)
    ensures
        json_view(out) == redacted(json_view(value), policy),
    decreases value,
{
    match value {
        JsonValue::Array(items) => {
            let ghost whole = items;
            let ghost original = items@;
            assert(decreases_to!(value => whole));
            let mut rest = items;
            let mut done: Vec<JsonValue> = Vec::new();
            while rest.len() > 0
                invariant
                    whole@ == original,
                    decreases_to!(value => whole),
                    done@.len() + rest@.len() == original.len(),
                    rest@ == original.subrange(done@.len() as int, original.len() as int),
                    items_view(done@) == redacted_items(items_view(original.subrange(0, done@.len() as int)), policy),
                decreases rest@.len(),
            {
                let ghost i = done@.len() as int;
                assert(i < original.len());
                assert(whole@ == original);
                assert(decreases_to!(whole => whole@));
                assert(0 <= i < original.len());
                assert(decreases_to!(original => original[i]));
                assert(decreases_to!(value => original[i]));
                let item = rest.remove(0);
                assert(item == original[i]);
                let r = redact_secrets(item, policy);
                let ghost before = done@;
                done.push(r);
                proof {
                    assert(done@.drop_last() =~= before);
                    assert(original.subrange(0, i + 1).drop_last() =~= original.subrange(0, i));
                    let prefix_view = items_view(original.subrange(0, i + 1));
                    assert(prefix_view.drop_last() =~= items_view(original.subrange(0, i)));
                }
            }
            assert(original.subrange(0, done@.len() as int) =~= original);
            assert(json_view(value) == JsonView::Array(items_view(original)));
            assert(done@.len() == original.len());
            assert(items_view(done@) == redacted_items(items_view(original), policy));
            let out = JsonValue::Array(done);
            assert(json_view(out) == JsonView::Array(items_view(done@)));
            assert(redacted(json_view(value), policy) == JsonView::Array(
                redacted_items(items_view(original), policy),
            ));
            out
        },
        JsonValue::Object(entries) => {
            let ghost whole = entries;
            let ghost original = entries@;
            assert(decreases_to!(value => whole));
            let mut rest = entries;
            let mut done: Vec<(String, JsonValue)> = Vec::new();
            while rest.len() > 0
                invariant
                    whole@ == original,
                    decreases_to!(value => whole),
                    done@.len() + rest@.len() == original.len(),
                    rest@ == original.subrange(done@.len() as int, original.len() as int),
                    entries_view(done@) == redacted_entries(
                        entries_view(original.subrange(0, done@.len() as int)),
                        policy,
                    ),
                decreases rest@.len(),
            {
                let ghost i = done@.len() as int;
                assert(decreases_to!(whole => whole@));
                assert(0 <= i < original.len());
                assert(decreases_to!(original => original[i]));
                assert(decreases_to!(original[i] => original[i].1));
                let (key, item) = rest.remove(0);
                assert(item == original[i].1);
                assert(key == original[i].0);
                let secret = if policy == SecretKeyPolicy::FixtureIngest {
                    crate::whatsapp_vocab::is_secret_like_key(key.as_str())
                } else {
                    crate::whatsapp_vocab::is_native_runtime_secret_like_key(key.as_str())
                };
                let entry_value = if secret {
                    JsonValue::String("[redacted]".to_owned())
                } else {
                    redact_secrets(item, policy)
                };
                assert(secret == is_secret_key(policy, key@));
                let ghost before = done@;
                let ghost entry_view = (key@, json_view(entry_value));
                done.push((key, entry_value));
                proof {
                    assert(done@.drop_last() =~= before);
                    assert(original.subrange(0, i + 1).drop_last() =~= original.subrange(0, i));
                    let prefix_view = entries_view(original.subrange(0, i + 1));
                    assert(prefix_view.drop_last() =~= entries_view(original.subrange(0, i)));
                    assert(entries_view(done@) == entries_view(before).push(entry_view));
                }
            }
            assert(original.subrange(0, done@.len() as int) =~= original);
            assert(json_view(value) == JsonView::Object(entries_view(original)));
            JsonValue::Object(done)
        },
        other => other,
    }
}

/// Redacts the secrets of fixture ingest metadata.
pub fn redact_secret_material(value: JsonValue) -> (out: JsonValue)
    ensures
        json_view(out) == redacted(json_view(value), SecretKeyPolicy::FixtureIngest),
{
    redact_secrets(value, SecretKeyPolicy::FixtureIngest)
}

/// Redacts the secrets of native runtime event metadata.
pub fn redact_secret_like_metadata(value: JsonValue) -> (out: JsonValue)
    ensures
        json_view(out) == redacted(json_view(value), SecretKeyPolicy::NativeRuntime),
{
    redact_secrets(value, SecretKeyPolicy::NativeRuntime)
}

/// A copy of a JSON number.
pub fn clone_number(n: &JsonNumber) -> (out: JsonNumber)
    ensures
        number_view(out) == number_view(*n),
{
    match n {
        JsonNumber::PosInt(u) => JsonNumber::PosInt(*u),
        JsonNumber::NegInt(i) => JsonNumber::NegInt(*i),
        JsonNumber::Float(text) => JsonNumber::Float(text.clone()),
    }
}

/// A deep copy of a document.
pub fn clone_json(value: &JsonValue) -> (out: JsonValue)
    ensures
        json_view(out) == json_view(*value),
    decreases value,
{
    match value {
        JsonValue::Null => JsonValue::Null,
        JsonValue::Bool(b) => JsonValue::Bool(*b),
        JsonValue::Number(n) => JsonValue::Number(clone_number(n)),
        JsonValue::String(text) => JsonValue::String(text.clone()),
        JsonValue::Array(items) => {
            let mut done: Vec<JsonValue> = Vec::new();
            let mut i: usize = 0;
            while i < items.len()
                invariant
                    i <= items@.len(),
                    done@.len() == i,
                    decreases_to!(*value => *items),
                    items_view(done@) == items_view(items@.subrange(0, i as int)),
                decreases items@.len() - i,
            {
                assert(decreases_to!(*items => items@));
                assert(decreases_to!(items@ => items@[i as int]));
                let copy = clone_json(&items[i]);
                let ghost before = done@;
                done.push(copy);
                proof {
                    assert(done@.drop_last() =~= before);
                    assert(items@.subrange(0, i + 1).drop_last() =~= items@.subrange(0, i as int));
                }
                i = i + 1;
            }
            assert(items@.subrange(0, i as int) =~= items@);
            JsonValue::Array(done)
        },
        JsonValue::Object(entries) => {
            let mut done: Vec<(String, JsonValue)> = Vec::new();
            let mut i: usize = 0;
            while i < entries.len()
                invariant
                    i <= entries@.len(),
                    done@.len() == i,
                    decreases_to!(*value => *entries),
                    entries_view(done@) == entries_view(entries@.subrange(0, i as int)),
                decreases entries@.len() - i,
            {
                assert(decreases_to!(*entries => entries@));
                assert(decreases_to!(entries@ => entries@[i as int]));
                assert(decreases_to!(entries@[i as int] => entries@[i as int].1));
                let key = entries[i].0.clone();
                let copy = clone_json(&entries[i].1);
                let ghost before = done@;
                done.push((key, copy));
                proof {
                    assert(done@.drop_last() =~= before);
                    assert(entries@.subrange(0, i + 1).drop_last() =~= entries@.subrange(
                        0,
                        i as int,
                    ));
                }
                i = i + 1;
            }
            assert(entries@.subrange(0, i as int) =~= entries@);
            JsonValue::Object(done)
        },
    }
}

/// The value under `key` in `entries`: the first entry with that key.
pub open spec fn entry_lookup(entries: Seq<(Seq<char>, JsonView)>, key: Seq<char>) -> Option<
    JsonView,
>
    decreases entries.len(),
{
    if entries.len() == 0 {
        None
    } else if entries[0].0 == key {
        Some(entries[0].1)
    } else {
        entry_lookup(entries.drop_first(), key)
    }
}

/// The value under `key` when `v` is an object; `None` otherwise.
pub open spec fn lookup(v: JsonView, key: Seq<char>) -> Option<JsonView> {
    match v {
        JsonView::Object(entries) => entry_lookup(entries, key),
        _ => None,
    }
}

/// The view of an optional borrowed value.
pub open spec fn opt_view(v: Option<&JsonValue>) -> Option<JsonView> {
    match v {
        Some(x) => Some(json_view(*x)),
        None => None,
    }
}

/// The value under `key` when `value` is an object (`Value::get`).
pub fn json_get<'a>(value: &'a JsonValue, key: &str) -> (found: Option<&'a JsonValue>)
    ensures
        opt_view(found) == lookup(json_view(*value), key@),
{
    match value {
        JsonValue::Object(entries) => {
            let mut i: usize = 0;
            proof {
                lemma_entries_view_len(entries@);
                assert(entries_view(entries@).subrange(0, entries@.len() as int) =~= entries_view(
                    entries@,
                ));
            }
            while i < entries.len()
                invariant
                    *value == JsonValue::Object(*entries),
                    i <= entries@.len(),
                    entry_lookup(entries_view(entries@), key@) == entry_lookup(
                        entries_view(entries@).subrange(i as int, entries@.len() as int),
                        key@,
                    ),
                    entries_view(entries@).len() == entries@.len(),
                decreases entries@.len() - i,
            {
                proof {
                    lemma_entries_view_index(entries@, i as int);
                }
                let ghost sub = entries_view(entries@).subrange(i as int, entries@.len() as int);
                assert(sub[0] == (entries@[i as int].0@, json_view(entries@[i as int].1)));
                if crate::text::text_equal(entries[i].0.as_str(), key) {
                    assert(json_view(*value) == JsonView::Object(entries_view(entries@)));
                    assert(sub.len() > 0);
                    assert(entry_lookup(sub, key@) == Some(json_view(entries@[i as int].1)));
                    return Some(&entries[i].1);
                }
                assert(entries_view(entries@).subrange(i as int, entries@.len() as int).drop_first()
                    =~= entries_view(entries@).subrange(i as int + 1, entries@.len() as int));
                i = i + 1;
            }
            None
        },
        _ => None,
    }
}

/// The view of `entries` has one element per entry, each the entry's view.
pub proof fn lemma_entries_view_index(entries: Seq<(String, JsonValue)>, i: int)
    requires
        0 <= i < entries.len(),
    ensures
        entries_view(entries).len() == entries.len(),
        entries_view(entries)[i] == (entries[i].0@, json_view(entries[i].1)),
    decreases entries.len(),
{
    lemma_entries_view_len(entries);
    if i < entries.len() - 1 {
        lemma_entries_view_index(entries.drop_last(), i);
    }
}

pub proof fn lemma_entries_view_len(entries: Seq<(String, JsonValue)>)
    ensures
        entries_view(entries).len() == entries.len(),
    decreases entries.len(),
{
    if entries.len() > 0 {
        lemma_entries_view_len(entries.drop_last());
    }
}

/// The position of the first entry with `key`, or -1.
pub open spec fn key_position(entries: Seq<(Seq<char>, JsonView)>, key: Seq<char>) -> int
    decreases entries.len(),
{
    if entries.len() == 0 {
        -1
    } else if entries[0].0 == key {
        0
    } else {
        let rest = key_position(entries.drop_first(), key);
        if rest < 0 {
            -1
        } else {
            rest + 1
        }
    }
}

/// `entries` with `key` set to `value`: the first entry with `key` gets the
/// new value in place; without one, the entry is appended.
pub open spec fn entry_insert(
    entries: Seq<(Seq<char>, JsonView)>,
    key: Seq<char>,
    value: JsonView,
) -> Seq<(Seq<char>, JsonView)> {
    let i = key_position(entries, key);
    if i < 0 {
        entries.push((key, value))
    } else {
        entries.update(i, (key, value))
    }
}

/// `key_position` finds the first entry with the key.
pub proof fn lemma_key_position(entries: Seq<(Seq<char>, JsonView)>, key: Seq<char>)
    ensures
        -1 <= key_position(entries, key) < entries.len(),
        key_position(entries, key) >= 0 ==> entries[key_position(entries, key)].0 == key,
        forall|j: int|
            0 <= j < entries.len() && (key_position(entries, key) < 0 || j < key_position(
                entries,
                key,
            )) ==> #[trigger] entries[j].0 != key,
        entry_lookup(entries, key) == if key_position(entries, key) < 0 {
            None
        } else {
            Some(entries[key_position(entries, key)].1)
        },
    decreases entries.len(),
{
    if entries.len() > 0 && entries[0].0 != key {
        lemma_key_position(entries.drop_first(), key);
        assert forall|j: int|
            0 <= j < entries.len() && (key_position(entries, key) < 0 || j < key_position(
                entries,
                key,
            )) implies #[trigger] entries[j].0 != key by {
            if j > 0 {
                assert(entries[j] == entries.drop_first()[j - 1]);
            }
        }
    }
}

/// A position is the first with `key` when the entry there has the key and
/// no earlier one does.
pub proof fn lemma_first_position(entries: Seq<(Seq<char>, JsonView)>, key: Seq<char>, i: int)
    requires
        -1 <= i <= entries.len(),
        i < entries.len() ==> i >= 0 && entries[i].0 == key,
        forall|j: int| 0 <= j < entries.len() && (i < 0 || i == entries.len() || j < i) ==> #[trigger] entries[j].0 != key,
    ensures
        key_position(entries, key) == if 0 <= i < entries.len() { i } else { -1 },
{
    lemma_key_position(entries, key);
    let p = key_position(entries, key);
    if p >= 0 {
        assert(entries[p].0 == key);
    }
    if 0 <= i < entries.len() {
        assert(entries[i].0 == key);
    }
}

/// Appends the entry `key: value`.
pub(crate) fn push_entry(entries: &mut Vec<(String, JsonValue)>, key: &str, value: JsonValue)
    ensures
        entries_view(final(entries)@) == entries_view(old(entries)@).push((key@, json_view(value))),
{
    let ghost before = entries@;
    entries.push((key.to_owned(), value));
    assert(entries@.drop_last() =~= before);
}

/// Sets `key` to `value` in `entries` (`Map::insert`).
pub fn insert_entry(entries: &mut Vec<(String, JsonValue)>, key: String, value: JsonValue)
    ensures
        entries_view(final(entries)@) == entry_insert(
            entries_view(old(entries)@),
            key@,
            json_view(value),
        ),
{
    let ghost before = entries_view(entries@);
    proof {
        lemma_entries_view_len(entries@);
    }
    let mut i: usize = 0;
    while i < entries.len()
        invariant
            entries@ == old(entries)@,
            before == entries_view(entries@),
            before.len() == entries@.len(),
            i <= entries@.len(),
            forall|j: int| 0 <= j < i ==> #[trigger] before[j].0 != key@,
        decreases entries@.len() - i,
    {
        proof {
            lemma_entries_view_index(entries@, i as int);
        }
        if crate::text::text_equal(entries[i].0.as_str(), key.as_str()) {
            proof {
                lemma_first_position(before, key@, i as int);
            }
            let ghost old_entries = entries@;
            let ghost pair = (key, value);
            entries.set(i, (key, value));
            proof {
                assert(entries@ == old_entries.update(i as int, pair));
                lemma_entries_view_update(old_entries, i as int, pair);
                assert(key_position(before, pair.0@) == i);
                assert(entry_insert(before, pair.0@, json_view(pair.1)) == before.update(
                    i as int,
                    (pair.0@, json_view(pair.1)),
                ));
                assert(entries_view(entries@) == before.update(i as int, (pair.0@, json_view(pair.1))));
            }
            return;
        }
        i = i + 1;
    }
    proof {
        lemma_first_position(before, key@, before.len() as int);
    }
    let ghost old_entries = entries@;
    entries.push((key, value));
    assert(entries@.drop_last() =~= old_entries);
}

/// Replacing one entry replaces its view.
pub proof fn lemma_entries_view_update(
    entries: Seq<(String, JsonValue)>,
    i: int,
    entry: (String, JsonValue),
)
    requires
        0 <= i < entries.len(),
    ensures
        entries_view(entries.update(i, entry)) == entries_view(entries).update(
            i,
            (entry.0@, json_view(entry.1)),
        ),
    decreases entries.len(),
{
    lemma_entries_view_len(entries);
    lemma_entries_view_len(entries.update(i, entry));
    if i < entries.len() - 1 {
        lemma_entries_view_update(entries.drop_last(), i, entry);
        assert(entries.update(i, entry).drop_last() =~= entries.drop_last().update(i, entry));
    } else {
        assert(entries.update(i, entry).drop_last() =~= entries.drop_last());
    }
    assert(entries_view(entries.update(i, entry)) =~= entries_view(entries).update(
        i,
        (entry.0@, json_view(entry.1)),
    ));
}

/// Law: reading a key after setting it gives the value set; every other
/// key reads as before.
pub proof fn lemma_insert_then_lookup(
    entries: Seq<(Seq<char>, JsonView)>,
    key: Seq<char>,
    value: JsonView,
    other: Seq<char>,
)
    ensures
        entry_lookup(entry_insert(entries, key, value), key) == Some(value),
        other != key ==> entry_lookup(entry_insert(entries, key, value), other) == entry_lookup(
            entries,
            other,
        ),
{
    let n = entry_insert(entries, key, value);
    lemma_key_position(entries, key);
    lemma_key_position(entries, other);
    let i = key_position(entries, key);
    if i < 0 {
        lemma_first_position(n, key, entries.len() as int);
    } else {
        assert forall|j: int| 0 <= j < n.len() && j < i implies #[trigger] n[j].0 != key by {
            assert(n[j] == entries[j]);
        }
        lemma_first_position(n, key, i);
    }
    lemma_key_position(n, key);
    if other != key {
        let p = key_position(entries, other);
        if p >= 0 {
            assert(n[p] == entries[p]);
            assert forall|j: int| 0 <= j < n.len() && j < p implies #[trigger] n[j].0 != other by {
                assert(n[j].0 == entries[j].0);
            }
            lemma_first_position(n, other, p);
        } else {
            assert forall|j: int| 0 <= j < n.len() implies #[trigger] n[j].0 != other by {
                if j < entries.len() {
                    assert(n[j].0 == entries[j].0);
                }
            }
            lemma_first_position(n, other, n.len() as int);
        }
        lemma_key_position(n, other);
    }
}

/// `base` with every entry of `extra` set in turn, first to last
/// (`Map::extend`).
pub open spec fn merged_entries(
    base: Seq<(Seq<char>, JsonView)>,
    extra: Seq<(Seq<char>, JsonView)>,
) -> Seq<(Seq<char>, JsonView)>
    decreases extra.len(),
{
    if extra.len() == 0 {
        base
    } else {
        entry_insert(merged_entries(base, extra.drop_last()), extra.last().0, extra.last().1)
    }
}

/// Sets every entry of `extra` into `base`, first to last.
pub fn extend_entries(base: &mut Vec<(String, JsonValue)>, extra: Vec<(String, JsonValue)>)
    ensures
        entries_view(final(base)@) == merged_entries(
            entries_view(old(base)@),
            entries_view(extra@),
        ),
{
    let ghost start = entries_view(base@);
    let ghost original = extra@;
    let total = extra.len();
    let mut rest = extra;
    let mut i: usize = 0;
    while rest.len() > 0
        invariant
            original.len() == total,
            i + rest@.len() == original.len(),
            rest@ == original.subrange(i as int, original.len() as int),
            entries_view(base@) == merged_entries(
                start,
                entries_view(original.subrange(0, i as int)),
            ),
        decreases rest@.len(),
    {
        let (key, value) = rest.remove(0);
        assert((key, value) == original[i as int]);
        insert_entry(base, key, value);
        proof {
            let next = entries_view(original.subrange(0, i + 1));
            assert(original.subrange(0, i + 1).drop_last() =~= original.subrange(0, i as int));
            assert(next.drop_last() =~= entries_view(original.subrange(0, i as int)));
        }
        i = i + 1;
    }
    assert(original.subrange(0, i as int) =~= original);
}

/// What merging `extra` into `base` gives: both objects merge; otherwise
/// `base` is kept as it is.
pub open spec fn merge_objects_view(base: JsonView, extra: JsonView) -> JsonView {
    match (base, extra) {
        (JsonView::Object(b), JsonView::Object(e)) => JsonView::Object(merged_entries(b, e)),
        _ => base,
    }
}

/// Sets every entry of `extra` into `base` when both are objects; returns
/// `base` unchanged otherwise.
pub fn merge_json_objects(base: JsonValue, extra: JsonValue) -> (out: JsonValue)
    ensures
        json_view(out) == merge_objects_view(json_view(base), json_view(extra)),
{
    match base {
        JsonValue::Object(mut entries) => match extra {
            JsonValue::Object(extra_entries) => {
                extend_entries(&mut entries, extra_entries);
                JsonValue::Object(entries)
            },
            _ => JsonValue::Object(entries),
        },
        other => other,
    }
}

/// Merges a metadata patch into current metadata: both must be objects;
/// the patch's entries win.
pub fn merged_object_metadata(current: &JsonValue, patch: JsonValue) -> (result: Result<
    JsonValue,
    crate::whatsapp_vocab::CommunicationFixtureIngestError,
>)
    ensures
        match (json_view(*current), json_view(patch)) {
            (JsonView::Object(c), JsonView::Object(p)) => result matches Ok(merged) && json_view(
                merged,
            ) == JsonView::Object(merged_entries(c, p)),
            (JsonView::Object(_), _) => result matches Err(
                crate::whatsapp_vocab::CommunicationFixtureIngestError::SignalControlBlocked(m),
            ) && m@ == "metadata patch is not a JSON object"@,
            _ => result matches Err(
                crate::whatsapp_vocab::CommunicationFixtureIngestError::SignalControlBlocked(m),
            ) && m@ == "metadata is not a JSON object"@,
        },
{
    let copy = clone_json(current);
    let mut current_entries = match copy {
        JsonValue::Object(entries) => entries,
        _ => {
            return Err(
                crate::whatsapp_vocab::CommunicationFixtureIngestError::SignalControlBlocked(
                    "metadata is not a JSON object".to_owned(),
                ),
            );
        },
    };
    let patch_entries = match patch {
        JsonValue::Object(entries) => entries,
        _ => {
            return Err(
                crate::whatsapp_vocab::CommunicationFixtureIngestError::SignalControlBlocked(
                    "metadata patch is not a JSON object".to_owned(),
                ),
            );
        },
    };
    extend_entries(&mut current_entries, patch_entries);
    Ok(JsonValue::Object(current_entries))
}

/// The keys of `entries` are pairwise different, as in any JSON object.
pub open spec fn keys_distinct(entries: Seq<(Seq<char>, JsonView)>) -> bool {
    forall|i: int, j: int| 0 <= i < j < entries.len() ==> #[trigger] entries[i].0 != #[trigger] entries[j].0
}

/// Law: after a merge, a key the patch holds reads as the patch's value and
/// any other key reads as before.
pub proof fn lemma_merge_then_lookup(
    base: Seq<(Seq<char>, JsonView)>,
    patch: Seq<(Seq<char>, JsonView)>,
    key: Seq<char>,
)
    requires
        keys_distinct(patch),
    ensures
        entry_lookup(merged_entries(base, patch), key) == match entry_lookup(patch, key) {
            Some(v) => Some(v),
            None => entry_lookup(base, key),
        },
    decreases patch.len(),
{
    if patch.len() > 0 {
        let front = patch.drop_last();
        let (k, v) = patch.last();
        assert forall|i: int, j: int| 0 <= i < j < front.len() implies #[trigger] front[i].0
            != #[trigger] front[j].0 by {
            assert(front[i] == patch[i] && front[j] == patch[j]);
        }
        lemma_merge_then_lookup(base, front, key);
        lemma_insert_then_lookup(merged_entries(base, front), k, v, key);
        lemma_key_position(patch, key);
        lemma_key_position(front, key);
        if key == k {
            assert forall|j: int| 0 <= j < patch.len() && j < patch.len() - 1 implies #[trigger] patch[j].0
                != key by {
                assert(patch[j].0 != patch[patch.len() - 1].0);
            }
            lemma_first_position(patch, key, patch.len() - 1);
            assert forall|j: int| 0 <= j < front.len() implies #[trigger] front[j].0 != key by {
                assert(front[j] == patch[j]);
            }
            lemma_first_position(front, key, front.len() as int);
        } else {
            let p = key_position(front, key);
            if p >= 0 {
                assert(patch[p] == front[p]);
                assert forall|j: int| 0 <= j < patch.len() && j < p implies #[trigger] patch[j].0
                    != key by {
                    assert(patch[j] == front[j]);
                }
                lemma_first_position(patch, key, p);
            } else {
                assert forall|j: int| 0 <= j < patch.len() implies #[trigger] patch[j].0 != key by {
                    if j < front.len() {
                        assert(patch[j] == front[j]);
                    }
                }
                lemma_first_position(patch, key, patch.len() as int);
            }
        }
    }
}

/// The text of a string value (`Value::as_str`).
pub open spec fn as_str_view(v: Option<JsonView>) -> Option<Seq<char>> {
    match v {
        Some(JsonView::String(s)) => Some(s),
        _ => None,
    }
}

/// The flag of a boolean value (`Value::as_bool`).
pub open spec fn as_bool_view(v: Option<JsonView>) -> Option<bool> {
    match v {
        Some(JsonView::Bool(b)) => Some(b),
        _ => None,
    }
}

/// The value of an integer that fits `i64` (`Value::as_i64`).
pub open spec fn as_i64_view(v: Option<JsonView>) -> Option<i64> {
    match v {
        Some(JsonView::Number(NumberView::PosInt(u))) => if u <= i64::MAX {
            Some(u as i64)
        } else {
            None
        },
        Some(JsonView::Number(NumberView::NegInt(i))) => Some(i),
        _ => None,
    }
}

/// The value of a non-negative integer (`Value::as_u64`).
pub open spec fn as_u64_view(v: Option<JsonView>) -> Option<u64> {
    match v {
        Some(JsonView::Number(NumberView::PosInt(u))) => Some(u),
        _ => None,
    }
}

/// The text of an optional borrowed string.
pub open spec fn opt_str_view(s: Option<&str>) -> Option<Seq<char>> {
    match s {
        Some(x) => Some(x@),
        None => None,
    }
}

/// The text of `value` when it is a string.
pub fn json_as_str(value: Option<&JsonValue>) -> (text: Option<&str>)
    ensures
        opt_str_view(text) == as_str_view(opt_view(value)),
{
    match value {
        Some(JsonValue::String(s)) => Some(s.as_str()),
        _ => None,
    }
}

/// The flag of `value` when it is a boolean.
pub fn json_as_bool(value: Option<&JsonValue>) -> (flag: Option<bool>)
    ensures
        flag == as_bool_view(opt_view(value)),
{
    match value {
        Some(JsonValue::Bool(b)) => Some(*b),
        _ => None,
    }
}

/// The value of `value` when it is an integer that fits `i64`.
pub fn json_as_i64(value: Option<&JsonValue>) -> (n: Option<i64>)
    ensures
        n == as_i64_view(opt_view(value)),
{
    match value {
        Some(JsonValue::Number(JsonNumber::PosInt(u))) => if *u <= 0x7fff_ffff_ffff_ffffu64 {
            Some(*u as i64)
        } else {
            None
        },
        Some(JsonValue::Number(JsonNumber::NegInt(i))) => Some(*i),
        _ => None,
    }
}

/// The value of `value` when it is a non-negative integer.
pub fn json_as_u64(value: Option<&JsonValue>) -> (n: Option<u64>)
    ensures
        n == as_u64_view(opt_view(value)),
{
    match value {
        Some(JsonValue::Number(JsonNumber::PosInt(u))) => Some(*u),
        _ => None,
    }
}

/// The trimmed text under `key` when it is a non-empty string.
pub open spec fn trimmed_string_field(v: JsonView, key: Seq<char>) -> Option<Seq<char>> {
    match as_str_view(lookup(v, key)) {
        Some(s) => if crate::text::trim_chars(s).len() > 0 {
            Some(crate::text::trim_chars(s))
        } else {
            None
        },
        None => None,
    }
}

/// The trimmed text under `key` when it is a string that is not blank.
pub fn trimmed_string_field_of(value: &JsonValue, key: &str) -> (text: Option<String>)
    ensures
        match text {
            Some(t) => trimmed_string_field(json_view(*value), key@) == Some(t@),
            None => trimmed_string_field(json_view(*value), key@) is None,
        },
{
    match json_as_str(json_get(value, key)) {
        Some(s) => {
            let t = crate::text::trim_text(s);
            if t.as_str().is_empty() {
                None
            } else {
                Some(t)
            }
        },
        None => None,
    }
}

/// A well-formed document, as every `serde_json` value is: a negative
/// integer is held as `NegInt` and only then, and no object repeats a key.
/// On a well-formed object `lookup` finds the only entry of a key, which is
/// the one `serde_json` keeps. The library's documents are built well formed
/// and its rewrites keep them so (see the laws below).
pub open spec fn json_well_formed(v: JsonView) -> bool
    decreases v, 1int,
{
    match v {
        JsonView::Number(NumberView::NegInt(n)) => n < 0,
        JsonView::Array(items) => items_well_formed(items),
        JsonView::Object(entries) => keys_distinct(entries) && entries_well_formed(entries),
        _ => true,
    }
}

pub open spec fn items_well_formed(items: Seq<JsonView>) -> bool
    decreases items, 0int,
{
    if items.len() == 0 {
        true
    } else {
        items_well_formed(items.drop_last()) && json_well_formed(items.last())
    }
}

pub open spec fn entries_well_formed(entries: Seq<(Seq<char>, JsonView)>) -> bool
    decreases entries, 0int,
{
    if entries.len() == 0 {
        true
    } else {
        entries_well_formed(entries.drop_last()) && json_well_formed(entries.last().1)
    }
}

/// Redaction keeps a document well formed.
pub proof fn lemma_redaction_keeps_well_formed(v: JsonView, policy: SecretKeyPolicy)
    requires
        json_well_formed(v),
    ensures
        json_well_formed(redacted(v, policy)),
    decreases v, 1int,
{
    match v {
        JsonView::Array(items) => {
            lemma_redacted_items_well_formed(items, policy);
        },
        JsonView::Object(entries) => {
            lemma_redacted_entries_well_formed(entries, policy);
        },
        _ => {},
    }
}

proof fn lemma_redacted_items_well_formed(items: Seq<JsonView>, policy: SecretKeyPolicy)
    requires
        items_well_formed(items),
    ensures
        items_well_formed(redacted_items(items, policy)),
    decreases items, 0int,
{
    if items.len() > 0 {
        let once = redacted_items(items, policy);
        assert(decreases_to!(items => items[items.len() - 1]));
        lemma_redacted_items_well_formed(items.drop_last(), policy);
        lemma_redaction_keeps_well_formed(items.last(), policy);
        assert(once.drop_last() =~= redacted_items(items.drop_last(), policy));
    }
}

/// Redaction keeps every key in place.
proof fn lemma_redacted_entries_keys(entries: Seq<(Seq<char>, JsonView)>, policy: SecretKeyPolicy)
    ensures
        redacted_entries(entries, policy).len() == entries.len(),
        forall|i: int| 0 <= i < entries.len() ==> #[trigger] redacted_entries(entries, policy)[i].0 == entries[i].0,
    decreases entries.len(),
{
    if entries.len() > 0 {
        lemma_redacted_entries_keys(entries.drop_last(), policy);
        let once = redacted_entries(entries, policy);
        assert forall|i: int| 0 <= i < entries.len() implies #[trigger] once[i].0 == entries[i].0 by {
            if i < entries.len() - 1 {
                assert(once[i] == redacted_entries(entries.drop_last(), policy)[i]);
                assert(entries[i] == entries.drop_last()[i]);
            }
        }
    }
}

proof fn lemma_redacted_entries_values(entries: Seq<(Seq<char>, JsonView)>, policy: SecretKeyPolicy)
    requires
        entries_well_formed(entries),
    ensures
        entries_well_formed(redacted_entries(entries, policy)),
    decreases entries, 0int,
{
    if entries.len() > 0 {
        let once = redacted_entries(entries, policy);
        assert(decreases_to!(entries => entries[entries.len() - 1]));
        assert(decreases_to!(entries[entries.len() - 1] => entries[entries.len() - 1].1));
        lemma_redacted_entries_values(entries.drop_last(), policy);
        lemma_redaction_keeps_well_formed(entries.last().1, policy);
        assert(once.drop_last() =~= redacted_entries(entries.drop_last(), policy));
        if is_secret_key(policy, entries.last().0) {
            assert(once.last().1 == JsonView::String("[redacted]"@));
        } else {
            assert(once.last().1 == redacted(entries.last().1, policy));
        }
        assert(json_well_formed(once.last().1));
    }
}

proof fn lemma_redacted_entries_well_formed(entries: Seq<(Seq<char>, JsonView)>, policy: SecretKeyPolicy)
    requires
        keys_distinct(entries),
        entries_well_formed(entries),
    ensures
        keys_distinct(redacted_entries(entries, policy)),
        entries_well_formed(redacted_entries(entries, policy)),
    decreases entries, 1int,
{
    lemma_redacted_entries_keys(entries, policy);
    lemma_redacted_entries_values(entries, policy);
    let once = redacted_entries(entries, policy);
    assert forall|i: int, j: int| 0 <= i < j < once.len() implies #[trigger] once[i].0 != #[trigger] once[j].0 by {
        assert(once[i].0 == entries[i].0);
        assert(once[j].0 == entries[j].0);
    }
}

/// Setting a key keeps the keys of an object distinct.
pub proof fn lemma_insert_keeps_keys_distinct(entries: Seq<(Seq<char>, JsonView)>, key: Seq<char>, value: JsonView)
    requires
        keys_distinct(entries),
    ensures
        keys_distinct(entry_insert(entries, key, value)),
{
    lemma_key_position(entries, key);
    let n = entry_insert(entries, key, value);
    let p = key_position(entries, key);
    assert forall|i: int, j: int| 0 <= i < j < n.len() implies #[trigger] n[i].0 != #[trigger] n[j].0 by {
        if p < 0 {
            if j == entries.len() {
                assert(n[i].0 == entries[i].0);
            } else {
                assert(n[i] == entries[i] && n[j] == entries[j]);
            }
        } else {
            if i == p {
                assert(n[j] == entries[j]);
                assert(entries[p].0 == key);
            } else if j == p {
                assert(n[i] == entries[i]);
                assert(entries[p].0 == key);
            } else {
                assert(n[i] == entries[i] && n[j] == entries[j]);
            }
        }
    }
}

/// Merging a patch keeps the keys of an object distinct.
pub proof fn lemma_merge_keeps_keys_distinct(base: Seq<(Seq<char>, JsonView)>, extra: Seq<(Seq<char>, JsonView)>)
    requires
        keys_distinct(base),
    ensures
        keys_distinct(merged_entries(base, extra)),
    decreases extra.len(),
{
    if extra.len() > 0 {
        lemma_merge_keeps_keys_distinct(base, extra.drop_last());
        lemma_insert_keeps_keys_distinct(merged_entries(base, extra.drop_last()), extra.last().0, extra.last().1);
    }
}

/// Law: redaction keeps every entry of an object in place under its key;
/// the value of a secret key becomes the string `[redacted]`, and any other
/// value is redacted in turn.
pub proof fn lemma_redaction_entry_by_entry(entries: Seq<(Seq<char>, JsonView)>, policy: SecretKeyPolicy, i: int)
    requires
        0 <= i < entries.len(),
    ensures
        redacted_entries(entries, policy).len() == entries.len(),
        redacted_entries(entries, policy)[i].0 == entries[i].0,
        is_secret_key(policy, entries[i].0) ==> redacted_entries(entries, policy)[i].1 == JsonView::String(
            "[redacted]"@,
        ),
        !is_secret_key(policy, entries[i].0) ==> redacted_entries(entries, policy)[i].1 == redacted(
            entries[i].1,
            policy,
        ),
    decreases entries.len(),
{
    lemma_redacted_entries_keys(entries, policy);
    if i < entries.len() - 1 {
        lemma_redaction_entry_by_entry(entries.drop_last(), policy, i);
        assert(redacted_entries(entries, policy)[i] == redacted_entries(entries.drop_last(), policy)[i]);
        assert(entries[i] == entries.drop_last()[i]);
    }
}

} // verus!
