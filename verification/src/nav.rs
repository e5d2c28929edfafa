//! How the console moves: what a change does to the address and to the way back.

use crate::entity::ConsoleEntity;
use crate::query::{ConsoleQuery, QueryView};
use vstd::prelude::*;

verus! {

/// An address of the console.
#[derive(Debug, PartialEq, Eq)]
pub struct Address {
    pub entity: ConsoleEntity,
    pub query: ConsoleQuery,
}

/// An address as its characters.
#[verifier::ext_equal]
pub struct AddressView {
    pub entity: ConsoleEntity,
    pub query: QueryView,
}

impl View for Address {
    type V = AddressView;

    open spec fn view(&self) -> AddressView {
        AddressView { entity: self.entity, query: self.query@ }
    }
}

/// A move to an address.
#[derive(Debug, PartialEq, Eq)]
pub enum Move {
    /// The way back leads to where the move was made.
    Push(Address),
    /// The address takes the place of the one before, which no way leads back to.
    Replace(Address),
}

/// A move as its characters.
#[verifier::ext_equal]
pub enum MoveView {
    Push(AddressView),
    Replace(AddressView),
}

impl View for Move {
    type V = MoveView;

    open spec fn view(&self) -> MoveView {
        match *self {
            Move::Push(to) => MoveView::Push(to@),
            Move::Replace(to) => MoveView::Replace(to@),
        }
    }
}

/// A change of the selection: it is pushed, so that the way back goes from row to row.
pub fn select(entity: ConsoleEntity, next: ConsoleQuery) -> (r: Move)
    ensures
        r@ == MoveView::Push(AddressView { entity, query: next@ }),
{
    Move::Push(Address { entity, query: next })
}

/// A change of a filter: it replaces, so that a search leaves no entry for every letter.
pub fn filter(entity: ConsoleEntity, next: ConsoleQuery) -> (r: Move)
    ensures
        r@ == MoveView::Replace(AddressView { entity, query: next@ }),
{
    Move::Replace(Address { entity, query: next })
}

/// A change of the panel: the filters belong to the one that is left, and are dropped.
pub fn open(entity: ConsoleEntity) -> (r: Move)
    ensures
        r@ == MoveView::Push(AddressView { entity, query: QueryView::initial() }),
{
    Move::Push(Address { entity, query: ConsoleQuery::fresh() })
}

/// The addresses behind the reader, the one on screen last, after a move.
pub open spec fn history_after(history: Seq<AddressView>, step: MoveView) -> Seq<AddressView> {
    match step {
        MoveView::Push(to) => history.push(to),
        MoveView::Replace(to) => history.drop_last().push(to),
    }
}

/// The way back from a selection leads to the view that it was made in.
pub proof fn back_from_a_selection(history: Seq<AddressView>, to: AddressView)
    ensures
        history_after(history, MoveView::Push(to)).drop_last() == history,
        history_after(history, MoveView::Push(to)).last() == to,
{
    assert(history.push(to).drop_last() =~= history);
}

/// However often a filter changes, the way back stays as long as it was, and leads where
/// it led.
pub proof fn filters_leave_no_trace(history: Seq<AddressView>, changes: Seq<AddressView>)
    requires
        history.len() > 0,
    ensures
        history_of_filters(history, changes).len() == history.len(),
        history_of_filters(history, changes).drop_last() == history.drop_last(),
    decreases changes.len(),
{
    if changes.len() > 0 {
        filters_leave_no_trace(history, changes.drop_last());
        let before = history_of_filters(history, changes.drop_last());
        assert(before.drop_last().push(changes.last()).drop_last() =~= before.drop_last());
    }
}

/// The addresses behind the reader after some changes of a filter.
pub open spec fn history_of_filters(
    history: Seq<AddressView>,
    changes: Seq<AddressView>,
) -> Seq<AddressView>
    decreases changes.len(),
{
    if changes.len() == 0 {
        history
    } else {
        history_after(
            history_of_filters(history, changes.drop_last()),
            MoveView::Replace(changes.last()),
        )
    }
}

/// A selection and a section that is opened leave a step to go back to, a filter does not;
/// a section opens on its plain address, and the other two on what they are given.
pub proof fn only_filters_replace_the_address(
    entity: ConsoleEntity,
    next: ConsoleQuery,
    selected: Move,
    filtered: Move,
    opened: Move,
    history: Seq<AddressView>,
)
    requires
        history.len() > 0,
        call_ensures(select, (entity, next), selected),
        call_ensures(filter, (entity, next), filtered),
        call_ensures(open, (entity,), opened),
    ensures
        history_after(history, selected@) == history.push(AddressView { entity, query: next@ }),
        history_after(history, filtered@).len() == history.len(),
        history_after(history, filtered@).last() == (AddressView { entity, query: next@ }),
        history_after(history, opened@).len() == history.len() + 1,
        history_after(history, opened@).last().entity == entity,
        history_after(history, opened@).last().query.q.len() == 0,
        history_after(history, opened@).last().query.sel is None,
        history_after(history, opened@).last().query.page == 0,
{
    reveal_strlit("");
    assert(""@.len() == 0);
}

} // verus!
