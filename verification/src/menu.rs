//! The menu: the table of stored items together with the identifier counter, and
//! every operation that reads or changes them.

use crate::counter::IdCounter;
use crate::item::{yields, Error, FoodItem, FoodItemPayload, FoodItemView};
use crate::model::{MenuView, Step};
use crate::price::Price;
use crate::query::{lists, matching, views, Filter};
use std::collections::BTreeMap;
use vstd::std_specs::btree::increasing_seq;
use vstd::std_specs::cmp::OrdSpec;
use vstd::std_specs::iter::IteratorSpec;
use vstd::prelude::*;

verus! {

/// The stored items as mathematical values.
pub open spec fn item_views(items: Map<u64, FoodItem>) -> Map<u64, FoodItemView> {
    items.map_values(|item: FoodItem| item@)
}

/// The menu: an ordered table of items and the counter that names new ones.
pub struct Menu {
    counter: IdCounter,
    items: BTreeMap<u64, FoodItem>,
}

impl View for Menu {
    type V = MenuView;

    closed spec fn view(&self) -> MenuView {
        MenuView { next_id: self.counter.value(), items: item_views(self.items@) }
    }
}

impl Menu {
    /// The invariant of a menu; see [`MenuView::wf`].
    pub open spec fn wf(&self) -> bool {
        self@.wf()
    }

    /// An empty menu whose first item gets the identifier `next_id`: the first
    /// identifier of all on first use, and the count that was kept where items
    /// were added before.
    pub fn new(next_id: u64) -> (menu: Menu)
        ensures
            menu.wf(),
            menu@.next_id == next_id,
            menu@.items == Map::<u64, FoodItemView>::empty(),
    {
        let menu = Menu { counter: IdCounter::new(next_id), items: BTreeMap::new() };
        assert(menu@.items =~= Map::<u64, FoodItemView>::empty());
        menu
    }

    /// The identifier that the next added item will get.
    pub fn next_id(&self) -> (id: u64)
        ensures
            id == self@.next_id,
    {
        self.counter.peek()
    }

    /// The stored item with this identifier, if there is one.
    fn _get_food_item(&self, id: &u64) -> (found: Option<FoodItem>)
        ensures
            match found {
                Some(item) => self@.items.contains_key(*id) && item@ == self@.items[*id],
                None => !self@.items.contains_key(*id),
            },
    {
        match self.items.get(id) {
            Some(item) => Some(item.clone()),
            None => None,
        }
    }

    /// Stores `item` under its identifier, in place of whatever was stored there.
    fn do_insert_food_item(&mut self, item: &FoodItem)
        ensures
            final(self)@.next_id == old(self)@.next_id,
            final(self)@.items == old(self)@.items.insert(item.id, item@),
    {
        self.items.insert(item.id, item.clone());
        assert(final(self)@.items =~= old(self)@.items.insert(item.id, item@));
    }

    /// The stored item with this identifier.
    ///
    /// Fails with `NotFound` exactly when no item is stored under `id`.
    pub fn get_food_item(&self, id: u64) -> (r: Result<FoodItem, Error>)
        ensures
            yields(r, self@.lookup(id)),
    {
        match self._get_food_item(&id) {
            Some(item) => Ok(item),
            None => Err(Error::NotFound { id }),
        }
    }

    /// Stores a new item made from `payload`, created at time `now`, under a fresh
    /// identifier, and returns it as stored. The item starts out available.
    ///
    /// The counter must have an identifier left: a caller checks
    /// [`Menu::next_id`] against `u64::MAX` first, and treats exhaustion as fatal.
    pub fn add_food_item(&mut self, payload: FoodItemPayload, now: u64) -> (item: FoodItem)
        requires
            old(self).wf(),
            old(self)@.next_id < u64::MAX,
        ensures
            final(self).wf(),
            item@ == FoodItemView::created(
                old(self)@.next_id,
                payload.name@,
                payload.description@,
                payload.price,
                now,
            ),
            final(self)@ == old(self)@.added(
                payload.name@,
                payload.description@,
                payload.price,
                now,
            ),
    {
        let id = self.counter.next_id();
        let food_item = FoodItem {
            id,
            name: payload.name,
            description: payload.description,
            price: payload.price,
            available: true,
            created_at: now,
        };
        self.do_insert_food_item(&food_item);
        proof {
            old(self)@.lemma_step_keeps_wf(
                Step::Add {
                    name: payload.name@,
                    description: payload.description@,
                    price: payload.price,
                    now,
                },
            );
        }
        food_item
    }

    /// Replaces the name, description and price of the item `id` by those of
    /// `payload` and returns the item as it is now stored. Its identifier, its
    /// availability and its time of creation stay as they were.
    ///
    /// Fails with `NotFound` exactly when no item is stored under `id`; the menu is
    /// then unchanged.
    pub fn update_food_item(&mut self, id: u64, payload: FoodItemPayload) -> (r: Result<
        FoodItem,
        Error,
    >)
        requires
            old(self).wf(),
        ensures
            final(self).wf(),
            final(self)@ == old(self)@.updated(
                id,
                payload.name@,
                payload.description@,
                payload.price,
            ),
            yields(r, final(self)@.lookup(id)),
    {
        match self._get_food_item(&id) {
            Some(mut food_item) => {
                food_item.name = payload.name;
                food_item.description = payload.description;
                food_item.price = payload.price;
                self.do_insert_food_item(&food_item);
                proof {
                    old(self)@.lemma_step_keeps_wf(
                        Step::Update {
                            id,
                            name: payload.name@,
                            description: payload.description@,
                            price: payload.price,
                        },
                    );
                }
                Ok(food_item)
            },
            None => Err(Error::NotFound { id }),
        }
    }

    /// Removes the item `id` and returns it as it was stored. Its identifier is
    /// not issued again.
    ///
    /// Fails with `NotFound` exactly when no item is stored under `id`; the menu is
    /// then unchanged.
    pub fn delete_food_item(&mut self, id: u64) -> (r: Result<FoodItem, Error>)
        requires
            old(self).wf(),
        ensures
            final(self).wf(),
            final(self)@ == old(self)@.deleted(id),
            yields(r, old(self)@.lookup(id)),
    {
        match self.items.remove(&id) {
            Some(food_item) => {
                assert(final(self)@.items =~= old(self)@.items.remove(id));
                Ok(food_item)
            },
            None => {
                assert(final(self)@.items =~= old(self)@.items.remove(id));
                Err(Error::NotFound { id })
            },
        }
    }

    /// Moves the item `id` to the state `available`, provided that it is stored
    /// and in the other state.
    fn switch_food_item(&mut self, id: u64, available: bool) -> (r: Result<(), Error>)
        requires
            old(self).wf(),
        ensures
            final(self).wf(),
            final(self)@ == old(self)@.switched(id, available),
            r == old(self)@.switch_outcome(id, available),
    {
        match self._get_food_item(&id) {
            Some(mut food_item) => {
                if food_item.available == available {
                    Err(Error::InvalidState { id })
                } else {
                    food_item.available = available;
                    self.do_insert_food_item(&food_item);
                    proof {
                        if available {
                            old(self)@.lemma_step_keeps_wf(Step::Receive { id });
                        } else {
                            old(self)@.lemma_step_keeps_wf(Step::Order { id });
                        }
                    }
                    Ok(())
                }
            },
            None => Err(Error::NotFound { id }),
        }
    }

    /// Orders the item `id`: it goes from available to unavailable, and nothing
    /// else about it changes.
    ///
    /// Fails with `NotFound` exactly when no item is stored under `id`, and with
    /// `InvalidState` exactly when the item is stored and already unavailable. On
    /// failure the menu is unchanged.
    pub fn order_food_item(&mut self, id: u64) -> (r: Result<(), Error>)
        requires
            old(self).wf(),
        ensures
            final(self).wf(),
            final(self)@ == old(self)@.ordered(id),
            r == old(self)@.switch_outcome(id, false),
    {
        self.switch_food_item(id, false)
    }

    /// Receives the item `id`: it goes from unavailable to available, and nothing
    /// else about it changes.
    ///
    /// Fails with `NotFound` exactly when no item is stored under `id`, and with
    /// `InvalidState` exactly when the item is stored and already available. On
    /// failure the menu is unchanged.
    pub fn receive_food_item(&mut self, id: u64) -> (r: Result<(), Error>)
        requires
            old(self).wf(),
        ensures
            final(self).wf(),
            final(self)@ == old(self)@.received(id),
            r == old(self)@.switch_outcome(id, true),
    {
        self.switch_food_item(id, true)
    }

    /// The stored items that meet `filter`, in ascending order of identifier.
    pub fn select(&self, filter: &Filter) -> (found: Vec<FoodItem>)
        requires
            self.wf(),
        ensures
            lists(views(found@), matching(self@.items, *filter)),
    {
        let mut found: Vec<FoodItem> = Vec::new();
        let entries = self.items.iter();
        let ghost table = self.items@;
        let ghost all = entries.remaining();
        // For each item found, the place in the walk that it came from.
        let ghost mut origin: Seq<int> = Seq::empty();
        let ghost mut done: int = 0;
        proof {
            let keys = all.map_values(|entry: (&u64, &FoodItem)| *entry.0);
            assert(increasing_seq(keys));
            assert forall|i: int, j: int| 0 <= i < j < all.len() implies *(#[trigger] all[i]).0 < *(
            #[trigger] all[j]).0 by {
                assert(keys[i].cmp_spec(&keys[j]) is Less);
            }
        }
        for entry in walk: entries
            invariant
                walk.seq() == all,
                done == walk.index(),
                forall|i: int|
                    0 <= i < all.len() ==> table.contains_key(*(#[trigger] all[i]).0) && table[*all[i].0]
                        == *all[i].1,
                origin.len() == found.len(),
                forall|a: int|
                    0 <= a < origin.len() ==> 0 <= (#[trigger] origin[a]) < done && found[a]
                        == *all[origin[a]].1,
                forall|a: int, b: int|
                    0 <= a < b < origin.len() ==> (#[trigger] origin[a]) < (#[trigger] origin[b]),
                forall|i: int|
                    0 <= i < done && filter.admits((*(#[trigger] all[i]).1)@) ==> exists|a: int|
                        0 <= a < origin.len() && (#[trigger] origin[a]) == i,
                forall|a: int| 0 <= a < found.len() ==> filter.admits((#[trigger] found[a])@),
        {
            let (id, item) = entry;
            let ghost earlier = origin;
            if filter.accepts(item) {
                found.push(item.clone());
                proof {
                    origin = origin.push(done);
                }
            }
            proof {
                assert forall|i: int|
                    0 <= i < done + 1 && filter.admits((*(#[trigger] all[i]).1)@) implies exists|a: int|
                    0 <= a < origin.len() && (#[trigger] origin[a]) == i by {
                    if i < done {
                        let a = choose|a: int| 0 <= a < earlier.len() && (#[trigger] earlier[a]) == i;
                        assert(origin[a] == i);
                    } else {
                        assert(origin[origin.len() - 1] == i);
                    }
                }
                done = done + 1;
            }
        }
        proof {
            let listing = views(found@);
            let wanted = matching(self@.items, *filter);
            assert(done == all.len());
            assert forall|a: int| 0 <= a < listing.len() implies wanted.contains_key(
                (#[trigger] listing[a]).id,
            ) && wanted[listing[a].id] == listing[a] by {
                let i = origin[a];
                assert(table.contains_key(*all[i].0));
                assert(found[a] == table[*all[i].0]);
                assert(self@.items.contains_key(*all[i].0));
            }
            assert forall|a: int, b: int| 0 <= a < b < listing.len() implies (#[trigger] listing[a]).id
                < (#[trigger] listing[b]).id by {
                let i = origin[a];
                let j = origin[b];
                assert(i < j);
                assert(*all[i].0 < *all[j].0);
                assert(self@.items.contains_key(*all[i].0));
                assert(self@.items.contains_key(*all[j].0));
            }
            assert forall|id: u64| #[trigger] wanted.contains_key(id) implies exists|a: int|
                0 <= a < listing.len() && (#[trigger] listing[a]).id == id by {
                assert(table.contains_key(id));
                assert(all.contains((&id, &table[id])));
                let i = choose|i: int| 0 <= i < all.len() && all[i] == (&id, &table[id]);
                assert(*all[i].0 == id);
                assert(filter.admits((*all[i].1)@));
                let a = choose|a: int| 0 <= a < origin.len() && (#[trigger] origin[a]) == i;
                assert(listing[a].id == id);
            }
        }
        found
    }

    /// Every stored item, in ascending order of identifier.
    pub fn get_menu(&self) -> (menu: Vec<FoodItem>)
        requires
            self.wf(),
        ensures
            lists(views(menu@), self@.items),
    {
        let menu = self.select(&Filter::Everything);
        assert(matching(self@.items, Filter::Everything) =~= self@.items);
        menu
    }

    /// The stored items whose name contains `name`, compared literally and with
    /// regard to case, in ascending order of identifier.
    pub fn search_food_item_by_name(&self, name: String) -> (found: Vec<FoodItem>)
        requires
            self.wf(),
        ensures
            lists(views(found@), matching(self@.items, Filter::NameContains(name))),
    {
        self.select(&Filter::NameContains(name))
    }

    /// The stored items whose price is at most `price`, that price included, in
    /// ascending order of identifier.
    pub fn search_food_item_by_below_price(&self, price: Price) -> (found: Vec<FoodItem>)
        requires
            self.wf(),
        ensures
            lists(views(found@), matching(self@.items, Filter::PriceAtMost(price))),
    {
        self.select(&Filter::PriceAtMost(price))
    }

    /// The stored items whose price is at least `price`, that price included, in
    /// ascending order of identifier.
    pub fn search_food_item_by_above_price(&self, price: Price) -> (found: Vec<FoodItem>)
        requires
            self.wf(),
        ensures
            lists(views(found@), matching(self@.items, Filter::PriceAtLeast(price))),
    {
        self.select(&Filter::PriceAtLeast(price))
    }
}

} // verus!
