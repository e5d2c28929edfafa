//! What an adapter's dry run parsed.

use crate::decisions;
use crate::foreign::{self, Json};
use crate::provider;
use crate::text;
use crate::wording::{Phrase, PhraseView};
use vstd::prelude::*;

verus! {

broadcast use vstd::string::group_string_axioms;

/// The number of the lists among some values.
pub open spec fn lists_among(fields: Seq<(Seq<char>, Json)>) -> nat
    decreases fields.len(),
{
    if fields.len() == 0 {
        0
    } else {
        lists_among(fields.drop_last()) + (if fields.last().1 is List {
            1nat
        } else {
            0
        })
    }
}

/// The length of the first list among some values.
pub open spec fn first_list_len(fields: Seq<(Seq<char>, Json)>) -> nat
    decreases fields.len(),
{
    if fields.len() == 0 {
        0
    } else if lists_among(fields.drop_last()) > 0 {
        first_list_len(fields.drop_last())
    } else {
        match fields.last().1 {
            Json::List(items) => items.len(),
            _ => 0,
        }
    }
}

/// How many entries a payload holds, where its shape makes that answerable: a bare
/// list, or a record with exactly one list in it.
pub open spec fn entries_of(payload: Json) -> Option<nat> {
    match payload {
        Json::List(items) => Some(items.len()),
        Json::Record(fields) => if lists_among(fields) == 1 {
            Some(first_list_len(fields))
        } else {
            None
        },
        _ => None,
    }
}

/// How many entries a dry run returned. Adapter output is adapter-defined, so a
/// shape that is not understood declines to guess rather than reporting a number
/// that it cannot stand behind.
pub fn parsed_count(value: &serde_json::Value) -> (r: Option<usize>)
    ensures
        (match r {
            Some(n) => Some(n as nat),
            None => None,
        }) == entries_of(foreign::json_of(*value)),
{
    if let Some(items) = value.as_array() {
        assert(foreign::json_list(items@).len() == items@.len());
        return Some(items.len());
    }
    let values = match foreign::field_values(value) {
        Some(values) => values,
        None => return None,
    };
    let ghost fields = foreign::json_of(*value)->Record_0;
    let mut found: Option<usize> = None;
    let mut many = false;
    let mut i: usize = 0;
    assert(fields.take(0) == Seq::<(Seq<char>, Json)>::empty());
    while i < values.len()
        invariant
            i <= values.len(),
            values@.len() == fields.len(),
            foreign::json_of(*value) == Json::Record(fields),
            forall|k: int|
                0 <= k < fields.len() ==> foreign::json_of(*#[trigger] values@[k]) == fields[k].1,
            (lists_among(fields.take(i as int)) == 0) == (found is None),
            many == (lists_among(fields.take(i as int)) > 1),
            found is Some ==> found->0 == first_list_len(fields.take(i as int)),
        decreases values.len() - i,
    {
        assert(fields.take(i + 1).drop_last() == fields.take(i as int));
        assert(fields.take(i + 1).last() == fields[i as int]);
        if let Some(items) = values[i].as_array() {
            assert(foreign::json_list(items@).len() == items@.len());
            match found {
                None => {
                    found = Some(items.len());
                },
                Some(_) => {
                    many = true;
                },
            }
        }
        i = i + 1;
    }
    assert(fields.take(fields.len() as int) == fields);
    if many {
        None
    } else {
        found
    }
}

/// How a dry run that succeeded is labelled.
pub open spec fn sample_label(payload: Json) -> PhraseView {
    match entries_of(payload) {
        Some(n) => PhraseView::plural(
            "console.providers.parsed"@,
            if n <= i64::MAX {
                n as i64
            } else {
                0
            },
        ),
        None => PhraseView::plain("console.providers.parsedOk"@),
    }
}

/// What the panel of a dry run shows.
#[derive(Debug, PartialEq, Eq)]
pub enum SampleFace {
    /// No dry run has been made: a hint.
    Hint,
    /// The dry run failed; the text says why.
    Failed(String),
    /// What was parsed, and the raw sample behind the claim.
    Parsed { label: Phrase, text: String },
}

/// What the panel of a dry run shows.
pub fn sample_face(result: &Option<Result<serde_json::Value, String>>) -> (r: SampleFace)
    ensures
        match (*result, r) {
            (None, SampleFace::Hint) => true,
            (Some(Err(message)), SampleFace::Failed(said)) => said@ == message@,
            (Some(Ok(value)), SampleFace::Parsed { label, text }) => {
                &&& label@ == sample_label(foreign::json_of(value))
                &&& text@ == decisions::shown_json(foreign::json_of(value))
            },
            _ => false,
        },
{
    match result {
        None => SampleFace::Hint,
        Some(Err(message)) => SampleFace::Failed(message.clone()),
        Some(Ok(value)) => {
            let label = match parsed_count(value) {
                Some(n) => Phrase::plural("console.providers.parsed", provider::row_count(n)),
                None => Phrase::plain("console.providers.parsedOk"),
            };
            SampleFace::Parsed { label, text: decisions::pretty(value) }
        },
    }
}

/// The path that a dry run reads: none where the operator typed only white space.
pub open spec fn path_of(typed: Seq<char>) -> Option<Seq<char>> {
    if text::trimmed(typed).len() == 0 {
        None
    } else {
        Some(text::trimmed(typed))
    }
}

/// The path that a dry run reads.
pub fn dry_run_path(typed: &str) -> (r: Option<String>)
    ensures
        text::view_of(r) == path_of(typed@),
{
    let path = text::trim(typed);
    if path.as_str().is_empty() {
        None
    } else {
        Some(path)
    }
}

/// The catalogue key of the button that starts a dry run.
pub fn dry_run_key(busy: bool) -> (r: &'static str)
    ensures
        r@ == (if busy {
            "console.adapterTest.running"@
        } else {
            "console.adapterTest.run"@
        }),
{
    if busy {
        "console.adapterTest.running"
    } else {
        "console.adapterTest.run"
    }
}

proof fn lemma_no_lists(fields: Seq<(Seq<char>, Json)>)
    requires
        forall|i: int| 0 <= i < fields.len() ==> !((#[trigger] fields[i]).1 is List),
    ensures
        lists_among(fields) == 0,
    decreases fields.len(),
{
    if fields.len() > 0 {
        let rest = fields.drop_last();
        assert forall|i: int| 0 <= i < rest.len() implies !((#[trigger] rest[i]).1 is List) by {
            assert(rest[i] == fields[i]);
        }
        lemma_no_lists(rest);
        assert(!(fields[fields.len() - 1].1 is List));
    }
}

proof fn lemma_one_list(fields: Seq<(Seq<char>, Json)>, at: int)
    requires
        0 <= at < fields.len(),
        fields[at].1 is List,
        forall|i: int| 0 <= i < fields.len() && i != at ==> !((#[trigger] fields[i]).1 is List),
    ensures
        lists_among(fields) == 1,
        first_list_len(fields) == fields[at].1->List_0.len(),
    decreases fields.len(),
{
    let rest = fields.drop_last();
    if at == fields.len() - 1 {
        assert forall|i: int| 0 <= i < rest.len() implies !((#[trigger] rest[i]).1 is List) by {
            assert(rest[i] == fields[i]);
        }
        lemma_no_lists(rest);
    } else {
        assert forall|i: int| 0 <= i < rest.len() && i != at implies !((#[trigger] rest[i]).1
            is List) by {
            assert(rest[i] == fields[i]);
        }
        assert(rest[at] == fields[at]);
        lemma_one_list(rest, at);
        assert(!(fields[fields.len() - 1].1 is List));
    }
}

proof fn lemma_some_list(fields: Seq<(Seq<char>, Json)>, at: int)
    requires
        0 <= at < fields.len(),
        fields[at].1 is List,
    ensures
        lists_among(fields) >= 1,
    decreases fields.len(),
{
    if at < fields.len() - 1 {
        assert(fields.drop_last()[at] == fields[at]);
        lemma_some_list(fields.drop_last(), at);
    }
}

proof fn lemma_two_lists(fields: Seq<(Seq<char>, Json)>, a: int, b: int)
    requires
        0 <= a < b < fields.len(),
        fields[a].1 is List,
        fields[b].1 is List,
    ensures
        lists_among(fields) >= 2,
    decreases fields.len(),
{
    let rest = fields.drop_last();
    assert(rest[a] == fields[a]);
    if b == fields.len() - 1 {
        lemma_some_list(rest, a);
    } else {
        assert(rest[b] == fields[b]);
        lemma_two_lists(rest, a, b);
    }
}

/// What a test parsed is counted where it can be told: a list by its items, and a record by
/// the items of its list where it has a single one. A record with none or with several, or
/// anything else, is not counted.
pub proof fn a_single_list_is_counted(fields: Seq<(Seq<char>, Json)>, a: int, b: int, payload: Json)
    requires
        0 <= a < b < fields.len(),
    ensures
        payload matches Json::List(items) ==> entries_of(payload) == Some(items.len()),
        !(payload is List) && !(payload is Record) ==> entries_of(payload) is None,
        (forall|i: int| 0 <= i < fields.len() ==> !((#[trigger] fields[i]).1 is List))
            ==> entries_of(Json::Record(fields)) is None,
        fields[a].1 is List && (forall|i: int|
            0 <= i < fields.len() && i != a ==> !((#[trigger] fields[i]).1 is List)) ==> entries_of(
            Json::Record(fields),
        ) == Some(fields[a].1->List_0.len()),
        fields[a].1 is List && fields[b].1 is List ==> entries_of(Json::Record(fields)) is None,
{
    if forall|i: int| 0 <= i < fields.len() ==> !((#[trigger] fields[i]).1 is List) {
        lemma_no_lists(fields);
    }
    if fields[a].1 is List && (forall|i: int|
        0 <= i < fields.len() && i != a ==> !((#[trigger] fields[i]).1 is List)) {
        lemma_one_list(fields, a);
    }
    if fields[a].1 is List && fields[b].1 is List {
        lemma_two_lists(fields, a, b);
    }
}

/// What a test shows: a hint before the first, the message of one that failed, and of one
/// that passed how much was parsed, where that can be told.
pub proof fn a_test_shows_how_it_went(
    message: String,
    value: serde_json::Value,
    before: SampleFace,
    failed: SampleFace,
    passed: SampleFace,
)
    requires
        call_ensures(sample_face, (&None,), before),
        call_ensures(sample_face, (&Some(Err(message)),), failed),
        call_ensures(sample_face, (&Some(Ok(value)),), passed),
    ensures
        before is Hint,
        failed matches SampleFace::Failed(said) && said@ == message@,
        passed is Parsed,
        passed matches SampleFace::Parsed { label, .. } ==> {
            let counted = entries_of(foreign::json_of(value));
            &&& counted is None ==> label@.key == "console.providers.parsedOk"@ && label@.count
                is None
            &&& counted is Some && counted->0 <= i64::MAX ==> label@.key
                == "console.providers.parsed"@ && label@.count == Some(counted->0 as i64)
        },
{
}

/// A path to test is what was typed without the blanks round it, and none where that is
/// nothing.
pub proof fn a_blank_path_is_none(typed: &str, path: Option<String>)
    requires
        call_ensures(dry_run_path, (typed,), path),
    ensures
        path is Some <==> text::trimmed(typed@).len() > 0,
        path is Some ==> path->0@ == text::trimmed(typed@),
{
}

} // verus!
