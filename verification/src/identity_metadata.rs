//! Metadata that the fixture ingest keeps about identities and edits:
//! the display-name history and local edit diffs.

use vstd::prelude::*;
use crate::json::{
    clone_json, entry_insert, insert_entry, items_view, json_get, json_view, lookup,
    merged_entries, merged_object_metadata, JsonValue, JsonView,
};
use crate::text::{text_equal, trim_chars, trim_text};
use crate::whatsapp_vocab::CommunicationFixtureIngestError;

verus! {

/// `items` with the string `value` appended unless some item already is
/// that string.
pub open spec fn push_string_once(items: Seq<JsonView>, value: Seq<char>) -> Seq<JsonView> {
    if exists|i: int| 0 <= i < items.len() && #[trigger] items[i] == JsonView::String(value) {
        items
    } else {
        items.push(JsonView::String(value))
    }
}

/// The items of a view sequence have one view per item.
proof fn lemma_items_view_index(items: Seq<JsonValue>, i: int)
    requires
        0 <= i < items.len(),
    ensures
        items_view(items).len() == items.len(),
        items_view(items)[i] == json_view(items[i]),
    decreases items.len(),
{
    lemma_items_view_len(items);
    if i < items.len() - 1 {
        lemma_items_view_index(items.drop_last(), i);
    }
}

proof fn lemma_items_view_len(items: Seq<JsonValue>)
    ensures
        items_view(items).len() == items.len(),
    decreases items.len(),
{
    if items.len() > 0 {
        lemma_items_view_len(items.drop_last());
    }
}

/// Appends the string `value` to `items` unless some item already is that
/// string.
pub fn push_json_string_once(items: &mut Vec<JsonValue>, value: &str)
    ensures
        items_view(final(items)@) == push_string_once(items_view(old(items)@), value@),
{
    let ghost before = items_view(items@);
    proof {
        lemma_items_view_len(items@);
    }
    let mut i: usize = 0;
    while i < items.len()
        invariant
            items@ == old(items)@,
            before == items_view(items@),
            before.len() == items@.len(),
            i <= items@.len(),
            forall|j: int| 0 <= j < i ==> #[trigger] before[j] != JsonView::String(value@),
        decreases items@.len() - i,
    {
        proof {
            lemma_items_view_index(items@, i as int);
        }
        let same = match &items[i] {
            JsonValue::String(s) => text_equal(s.as_str(), value),
            _ => false,
        };
        if same {
            assert(before[i as int] == JsonView::String(value@));
            return;
        }
        i = i + 1;
    }
    let ghost old_items = items@;
    let text = value.to_owned();
    assert(json_view(JsonValue::String(text)) == JsonView::String(value@));
    items.push(JsonValue::String(text));
    assert(items@.drop_last() =~= old_items);
    assert(items_view(items@) == before.push(JsonView::String(value@)));
    assert(!(exists|k: int| 0 <= k < before.len() && #[trigger] before[k] == JsonView::String(value@)));
}

/// The items of a document that is an array; empty otherwise.
pub open spec fn array_items_or_empty(v: Option<JsonView>) -> Seq<JsonView> {
    match v {
        Some(JsonView::Array(items)) => items,
        _ => seq![],
    }
}

/// The trimmed text of an optional name when it is not blank.
pub open spec fn present_name(name: Option<Seq<char>>) -> Option<Seq<char>> {
    match name {
        Some(n) => if trim_chars(n).len() > 0 {
            Some(trim_chars(n))
        } else {
            None
        },
        None => None,
    }
}

/// The identity metadata after merging `patch` and observing a display
/// name: the history gains the previous and the new name once each; a
/// changed name records the previous name and when it changed; every
/// observation records when it was made.
pub open spec fn display_name_entries(
    merged: Seq<(Seq<char>, JsonView)>,
    previous: Option<Seq<char>>,
    new_name: Seq<char>,
    observed_at: JsonView,
) -> Seq<(Seq<char>, JsonView)> {
    let history = array_items_or_empty(
        crate::json::entry_lookup(merged, "display_name_history"@),
    );
    let (m1, h1) = match previous {
        Some(p) => {
            let h = push_string_once(history, p);
            if p != new_name {
                (
                    entry_insert(
                        entry_insert(merged, "previous_display_name"@, JsonView::String(p)),
                        "display_name_changed_at"@,
                        observed_at,
                    ),
                    h,
                )
            } else {
                (merged, h)
            }
        },
        None => (merged, history),
    };
    let h2 = push_string_once(h1, new_name);
    entry_insert(
        entry_insert(m1, "display_name_history"@, JsonView::Array(h2)),
        "display_name_observed_at"@,
        observed_at,
    )
}

/// The text of an optional borrowed string.
pub open spec fn opt_text(s: Option<&str>) -> Option<Seq<char>> {
    match s {
        Some(x) => Some(x@),
        None => None,
    }
}

/// Merges `patch` into an identity's metadata and records a newly observed
/// display name; `observed_at` is the observation time as a JSON document.
pub fn merged_identity_display_name_metadata(
    current_display_name: Option<&str>,
    current_metadata: &JsonValue,
    new_display_name: Option<&str>,
    patch: JsonValue,
    observed_at: &JsonValue,
) -> (result: Result<JsonValue, CommunicationFixtureIngestError>)
    ensures
        match (json_view(*current_metadata), json_view(patch)) {
            (JsonView::Object(c), JsonView::Object(p)) => result matches Ok(out) && json_view(out)
                == JsonView::Object(
                match present_name(opt_text(new_display_name)) {
                    None => merged_entries(c, p),
                    Some(new_name) => display_name_entries(
                        merged_entries(c, p),
                        present_name(opt_text(current_display_name)),
                        new_name,
                        json_view(*observed_at),
                    ),
                },
            ),
            _ => result is Err,
        },
{
    let merged = match merged_object_metadata(current_metadata, patch) {
        Ok(m) => m,
        Err(e) => return Err(e),
    };
    let new_name = match new_display_name {
        Some(n) => {
            let t = trim_text(n);
            if t.as_str().is_empty() {
                return Ok(merged);
            }
            t
        },
        None => return Ok(merged),
    };
    let mut history: Vec<JsonValue> = match json_get(&merged, "display_name_history") {
        Some(found) => match clone_json(found) {
            JsonValue::Array(copy) => copy,
            _ => Vec::new(),
        },
        None => Vec::new(),
    };
    let mut entries = match merged {
        JsonValue::Object(entries) => entries,
        _ => Vec::new(),
    };
    let previous = match current_display_name {
        Some(n) => {
            let t = trim_text(n);
            if t.as_str().is_empty() {
                None
            } else {
                Some(t)
            }
        },
        None => None,
    };
    if let Some(p) = previous {
        push_json_string_once(&mut history, p.as_str());
        if !text_equal(p.as_str(), new_name.as_str()) {
            insert_entry(&mut entries, "previous_display_name".to_owned(), JsonValue::String(p));
            insert_entry(&mut entries, "display_name_changed_at".to_owned(), clone_json(observed_at));
        }
    }
    push_json_string_once(&mut history, new_name.as_str());
    insert_entry(&mut entries, "display_name_history".to_owned(), JsonValue::Array(history));
    insert_entry(&mut entries, "display_name_observed_at".to_owned(), clone_json(observed_at));
    Ok(JsonValue::Object(entries))
}

/// The local edit diff document of a message edit.
pub open spec fn local_edit_diff_view(previous: Option<Seq<char>>, new_text: Seq<char>) -> JsonView {
    JsonView::Object(
        seq![
            ("kind"@, JsonView::String("local_edit_diff"@)),
            ("new_text"@, JsonView::String(new_text)),
            ("previous_text"@, match previous {
                Some(p) => JsonView::String(p),
                None => JsonView::Null,
            }),
        ],
    )
}

/// The diff recorded for a local edit: the previous text (`null` when it is
/// unknown) and the new text.
pub fn whatsapp_local_edit_diff(previous_text: Option<&str>, new_text: &str) -> (diff: JsonValue)
    ensures
        json_view(diff) == local_edit_diff_view(opt_text(previous_text), new_text@),
{
    let previous = match previous_text {
        Some(p) => JsonValue::String(p.to_owned()),
        None => JsonValue::Null,
    };
    let mut entries: Vec<(String, JsonValue)> = Vec::new();
    entries.push(("kind".to_owned(), JsonValue::String("local_edit_diff".to_owned())));
    entries.push(("new_text".to_owned(), JsonValue::String(new_text.to_owned())));
    entries.push(("previous_text".to_owned(), previous));
    proof {
        crate::json::lemma_entries_view_len(entries@);
        crate::json::lemma_entries_view_index(entries@, 0);
        crate::json::lemma_entries_view_index(entries@, 1);
        crate::json::lemma_entries_view_index(entries@, 2);
        let ghost expected = match local_edit_diff_view(opt_text(previous_text), new_text@) {
            JsonView::Object(es) => es,
            _ => seq![],
        };
        assert(expected.len() == 3);
        assert(crate::json::entries_view(entries@)[0] == expected[0]);
        assert(crate::json::entries_view(entries@)[1] == expected[1]);
        assert(crate::json::entries_view(entries@)[2] == expected[2]);
        assert(crate::json::entries_view(entries@) =~= expected);
    }
    let diff = JsonValue::Object(entries);
    assert(json_view(diff) == JsonView::Object(crate::json::entries_view(entries@)));
    diff
}

} // verus!
