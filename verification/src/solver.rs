//! The providers that a challenge stands before, and the standalone adapter test.

use crate::foreign;
use crate::provider::ProviderState;
use crate::query;
use crate::text;
use crate::wording::{Phrase, PhraseView};
use vstd::prelude::*;

verus! {

broadcast use vstd::string::group_string_axioms;

/// Whether a provider is out of service, and so can be taken back into it.
pub open spec fn out_of_service(state: ProviderState) -> bool {
    state is Blocked || state is Disabled || state is Challenged
}

/// The state that the re-enable button sets, where it is shown.
pub fn reenabled(state: ProviderState) -> (r: Option<ProviderState>)
    ensures
        r == (if out_of_service(state) {
            Some(ProviderState::Active)
        } else {
            None
        }),
{
    match state {
        ProviderState::Blocked | ProviderState::Disabled | ProviderState::Challenged => Some(
            ProviderState::Active,
        ),
        _ => None,
    }
}

/// What the adapter test says where the providers cannot be had.
pub fn unavailable(message: &str) -> (r: Phrase)
    ensures
        r@ == PhraseView::plain("console.providers.unavailable"@).verbatim("message"@, message@),
{
    Phrase::plain("console.providers.unavailable").verbatim("message", message)
}

/// What a list of providers shows.
#[derive(Debug, Clone, Copy, PartialEq, Eq, Structural)]
pub enum ListFace {
    Loading,
    Failed,
    Empty,
    Rows,
}

/// What a list of providers shows: `None` while it loads, and the number of its rows once
/// it has.
pub fn list_face(loaded: Option<Result<usize, ()>>) -> (r: ListFace)
    ensures
        r == (match loaded {
            None => ListFace::Loading,
            Some(Err(_)) => ListFace::Failed,
            Some(Ok(rows)) => if rows == 0 {
                ListFace::Empty
            } else {
                ListFace::Rows
            },
        }),
{
    match loaded {
        None => ListFace::Loading,
        Some(Err(_)) => ListFace::Failed,
        Some(Ok(rows)) => {
            if rows == 0 {
                ListFace::Empty
            } else {
                ListFace::Rows
            }
        },
    }
}

/// The provider that the test is picked for, as the picker says it.
#[derive(Debug, PartialEq, Eq)]
pub struct Chosen {
    pub value: Option<String>,
}

impl Chosen {
    /// Nothing is picked.
    pub fn new() -> (r: Chosen)
        ensures
            text::view_of(r.value) == None::<Seq<char>>,
    {
        Chosen { value: None }
    }

    /// Takes what was picked; the empty choice is none.
    pub fn set(&mut self, chosen: String)
        ensures
            text::view_of(final(self).value) == query::present(chosen@),
    {
        self.value = query::non_empty(chosen);
    }

    /// Whether a provider is the one that is picked.
    pub fn is_provider(&self, id: u128) -> (r: bool)
        ensures
            r == (text::view_of(self.value) == Some(foreign::hyphenated(id))),
    {
        match &self.value {
            Some(value) => {
                let written = foreign::write_uuid(id);
                text::same(value.as_str(), written.as_str())
            },
            None => false,
        }
    }

    /// The provider to test: none where nothing, or no id, is picked.
    pub fn provider(&self) -> (r: Option<u128>)
        ensures
            r == (match self.value {
                Some(value) => match foreign::uuid_named(value@) {
                    Some(id) => Some(id as u128),
                    None => None,
                },
                None => None,
            }),
    {
        match &self.value {
            Some(value) => foreign::read_uuid(value.as_str()),
            None => None,
        }
    }
}

/// The provider that is picked is the one that is tested.
pub proof fn picked_is_tested(id: u128)
    ensures
        foreign::uuid_named(foreign::hyphenated(id)) == Some(id as nat),
{
    foreign::hyphenated_names_the_id(id);
}

/// A provider that is blocked, disabled or challenged can be put back into service, and
/// then it is active; any other is in service already.
pub proof fn what_is_out_of_service_can_be_put_back(
    state: ProviderState,
    next: Option<ProviderState>,
)
    requires
        call_ensures(reenabled, (state,), next),
    ensures
        next is Some <==> state is Blocked || state is Disabled || state is Challenged,
        next is Some ==> next->0 is Active,
{
}

/// What a list shows: that it loads, that it failed, that it is empty, or its rows.
pub proof fn a_list_says_how_it_stands(
    rows: usize,
    loading: ListFace,
    failed: ListFace,
    there: ListFace,
)
    requires
        call_ensures(list_face, (None,), loading),
        call_ensures(list_face, (Some(Err(())),), failed),
        call_ensures(list_face, (Some(Ok(rows)),), there),
    ensures
        loading is Loading,
        failed is Failed,
        there is Empty <==> rows == 0,
        there is Rows <==> rows > 0,
{
}

/// What was chosen is what is tested: a provider that was picked by its id comes back by
/// that id, it alone, and an empty choice is none.
pub proof fn the_chosen_is_the_one_tested(
    picker: &mut Chosen,
    chosen: String,
    id: u128,
    other: u128,
    stands: Chosen,
    is_it: bool,
    is_other: bool,
    tested: Option<u128>,
)
    requires
        call_ensures(Chosen::set, (picker, chosen), ()),
        stands.value is Some && stands.value->0@ == foreign::hyphenated(id),
        call_ensures(Chosen::is_provider, (&stands, id), is_it),
        call_ensures(Chosen::is_provider, (&stands, other), is_other),
        call_ensures(Chosen::provider, (&stands,), tested),
    ensures
        chosen@.len() == 0 ==> final(picker).value is None,
        chosen@.len() > 0 ==> final(picker).value is Some && final(picker).value->0@ == chosen@,
        is_it,
        is_other <==> other == id,
        tested == Some(id),
{
    foreign::hyphenated_names_the_id(id);
    foreign::hyphenated_is_unique(id, other);
}

} // verus!
