//! Laws of the menu: what holds of every menu and every course of changes.
//!
//! Each law is stated over the mathematical model that the contracts of the
//! executable operations use, so it holds of whatever those operations do.

use crate::item::{Error, FoodItemView};
use crate::model::{MenuView, Step};
use crate::price::Price;
use crate::query::{matching, Filter};
use vstd::prelude::*;

verus! {

/// Identifiers only grow. Over any course of additions, updates, deletions, orders
/// and receipts that does not exhaust the counter, each identifier given to a new
/// item is above every identifier given before it and above every identifier that
/// the menu held at the start, deleted or not; the counter ends as many steps on
/// as there were additions, and the menu stays well formed.
pub proof fn lemma_issued_ids_increase(start: MenuView, steps: Seq<Step>)
    requires
        start.wf(),
        start.next_id + start.issued(steps).len() <= u64::MAX,
    ensures
        start.after_all(steps).wf(),
        start.after_all(steps).next_id == start.next_id + start.issued(steps).len(),
        forall|i: int|
            0 <= i < start.issued(steps).len() ==> #[trigger] start.issued(steps)[i] == start.next_id
                + i,
        forall|i: int, j: int|
            0 <= i < j < start.issued(steps).len() ==> #[trigger] start.issued(steps)[i]
                < #[trigger] start.issued(steps)[j],
        forall|i: int, id: u64|
            0 <= i < start.issued(steps).len() && #[trigger] start.items.contains_key(id) ==> id
                < #[trigger] start.issued(steps)[i],
    decreases steps.len(),
{
    if steps.len() > 0 {
        let earlier = steps.drop_last();
        let before = start.after_all(earlier);
        lemma_issued_ids_increase(start, earlier);
        before.lemma_step_keeps_wf(steps.last());
    }
}

/// An added item can be read back: a lookup of the identifier it was given finds
/// an available item with the name, description and price that were submitted.
pub proof fn lemma_lookup_after_add(
    menu: MenuView,
    name: Seq<char>,
    description: Seq<char>,
    price: Price,
    now: u64,
)
    ensures
        menu.added(name, description, price, now).lookup(menu.next_id) == Ok::<
            FoodItemView,
            Error,
        >(FoodItemView::created(menu.next_id, name, description, price, now)),
        FoodItemView::created(menu.next_id, name, description, price, now).available,
        FoodItemView::created(menu.next_id, name, description, price, now).name == name,
        FoodItemView::created(menu.next_id, name, description, price, now).description
            == description,
        FoodItemView::created(menu.next_id, name, description, price, now).price == price,
{
}

/// An added item takes an identifier that no stored item has, and leaves every
/// stored item as it was.
pub proof fn lemma_add_is_fresh(
    menu: MenuView,
    name: Seq<char>,
    description: Seq<char>,
    price: Price,
    now: u64,
)
    requires
        menu.wf(),
    ensures
        !menu.items.contains_key(menu.next_id),
        forall|id: u64| #[trigger]
            menu.items.contains_key(id) ==> menu.added(name, description, price, now).lookup(id)
                == menu.lookup(id),
{
    if menu.items.contains_key(menu.next_id) {
        assert(menu.next_id < menu.next_id);
    }
    assert forall|id: u64| #[trigger] menu.items.contains_key(id) implies menu.added(
        name,
        description,
        price,
        now,
    ).lookup(id) == menu.lookup(id) by {
        assert(id < menu.next_id);
    }
}

/// A deleted item is gone: a lookup of its identifier reports `NotFound`, whether
/// or not it was stored before. Every other item stays as it was.
pub proof fn lemma_lookup_after_delete(menu: MenuView, id: u64)
    ensures
        menu.deleted(id).lookup(id) == Err::<FoodItemView, Error>(Error::NotFound { id }),
        forall|other: u64| other != id ==> #[trigger] menu.deleted(id).lookup(other) == menu.lookup(other),
{
}

/// An update changes the name, the description and the price of one item and
/// nothing else: the item keeps its identifier, its availability and its time of
/// creation, every other item stays as it was, no item appears or disappears, and
/// the counter does not move.
pub proof fn lemma_update_changes_three_fields(
    menu: MenuView,
    id: u64,
    name: Seq<char>,
    description: Seq<char>,
    price: Price,
)
    ensures
        menu.updated(id, name, description, price).next_id == menu.next_id,
        menu.updated(id, name, description, price).items.dom() == menu.items.dom(),
        forall|other: u64|
            other != id ==> #[trigger] menu.updated(id, name, description, price).lookup(other)
                == menu.lookup(other),
        menu.items.contains_key(id) ==> {
            let before = menu.items[id];
            let after = menu.updated(id, name, description, price).items[id];
            &&& after.id == before.id
            &&& after.available == before.available
            &&& after.created_at == before.created_at
            &&& after.name == name
            &&& after.description == description
            &&& after.price == price
        },
        !menu.items.contains_key(id) ==> menu.updated(id, name, description, price) == menu,
{
    assert(menu.updated(id, name, description, price).items.dom() =~= menu.items.dom());
}

/// The two price searches meet at the limit: an item is found both by the search
/// for prices at most `limit` and by the search for prices at least `limit`
/// exactly when it is stored and its price equals `limit`.
pub proof fn lemma_price_searches_meet_at_limit(
    table: Map<u64, FoodItemView>,
    limit: Price,
    id: u64,
)
    ensures
        matching(table, Filter::PriceAtMost(limit)).contains_key(id) <==> table.contains_key(id)
            && table[id].price.le(limit),
        matching(table, Filter::PriceAtLeast(limit)).contains_key(id) <==> table.contains_key(id)
            && table[id].price.ge(limit),
        matching(table, Filter::PriceAtMost(limit)).contains_key(id) && matching(
            table,
            Filter::PriceAtLeast(limit),
        ).contains_key(id) <==> table.contains_key(id) && table[id].price.num_eq(limit),
{
    Price::lemma_le_and_ge_is_equal(table[id].price, limit);
}

/// Ordering twice: where the first order succeeds, it makes the item unavailable
/// and changes nothing else, and a second order of the same item fails with
/// `InvalidState` and changes nothing.
pub proof fn lemma_order_twice(menu: MenuView, id: u64)
    requires
        menu.switch_outcome(id, false) is Ok,
    ensures
        menu.ordered(id).items[id] == menu.items[id].with_available(false),
        !menu.ordered(id).items[id].available,
        menu.ordered(id).switch_outcome(id, false) == Err::<(), Error>(
            Error::InvalidState { id },
        ),
        menu.ordered(id).ordered(id) == menu.ordered(id),
{
}

/// Receiving twice: where the first receipt succeeds, it makes the item available
/// and changes nothing else, and a second receipt of the same item fails with
/// `InvalidState` and changes nothing.
pub proof fn lemma_receive_twice(menu: MenuView, id: u64)
    requires
        menu.switch_outcome(id, true) is Ok,
    ensures
        menu.received(id).items[id] == menu.items[id].with_available(true),
        menu.received(id).items[id].available,
        menu.received(id).switch_outcome(id, true) == Err::<(), Error>(
            Error::InvalidState { id },
        ),
        menu.received(id).received(id) == menu.received(id),
{
}

/// A transition succeeds exactly from the other state, and then only the
/// availability of that one item changes; in every other case the menu stays as
/// it was. An order undoes a receipt and a receipt undoes an order.
pub proof fn lemma_switch(menu: MenuView, id: u64, available: bool)
    ensures
        menu.switch_outcome(id, available) is Ok <==> menu.is_in_state(id, !available),
        menu.switch_outcome(id, available) == Err::<(), Error>(Error::NotFound { id })
            <==> !menu.items.contains_key(id),
        menu.switch_outcome(id, available) == Err::<(), Error>(Error::InvalidState { id })
            <==> menu.is_in_state(id, available),
        menu.switch_outcome(id, available) is Err ==> menu.switched(id, available) == menu,
        menu.switched(id, available).next_id == menu.next_id,
        menu.switched(id, available).items.dom() == menu.items.dom(),
        forall|other: u64|
            other != id ==> #[trigger] menu.switched(id, available).lookup(other) == menu.lookup(
                other,
            ),
        menu.switch_outcome(id, available) is Ok ==> menu.switched(id, available).switched(
            id,
            !available,
        ) == menu,
{
    let after = menu.switched(id, available);
    assert(after.items.dom() =~= menu.items.dom());
    if menu.switch_outcome(id, available) is Ok {
        let back = after.switched(id, !available);
        assert(back.items =~= menu.items);
    }
}

} // verus!
