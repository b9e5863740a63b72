//! The menu as a mathematical value, and what each operation makes of it.
//!
//! The contracts of the executable operations are stated over these functions, and
//! the laws of the menu are proved of them.

use crate::item::{Error, FoodItemView};
use crate::price::Price;
use vstd::prelude::*;

verus! {

/// The menu as a mathematical value: the identifier that will be issued next and
/// the stored items by identifier.
pub struct MenuView {
    pub next_id: u64,
    pub items: Map<u64, FoodItemView>,
}

impl MenuView {
    /// The menu holds finitely many items, every item is stored under its own
    /// identifier, and every stored identifier was issued before: it lies below
    /// the counter.
    pub open spec fn wf(self) -> bool {
        &&& self.items.dom().finite()
        &&& forall|id: u64| #[trigger]
            self.items.contains_key(id) ==> self.items[id].id == id && id < self.next_id
    }

    /// What a lookup of `id` gives: the stored item, or `NotFound`.
    pub open spec fn lookup(self, id: u64) -> Result<FoodItemView, Error> {
        if self.items.contains_key(id) {
            Ok(self.items[id])
        } else {
            Err(Error::NotFound { id })
        }
    }

    /// The menu after a new item was stored under the next identifier.
    pub open spec fn added(
        self,
        name: Seq<char>,
        description: Seq<char>,
        price: Price,
        now: u64,
    ) -> MenuView {
        MenuView {
            next_id: (self.next_id + 1) as u64,
            items: self.items.insert(
                self.next_id,
                FoodItemView::created(self.next_id, name, description, price, now),
            ),
        }
    }

    /// The menu after the item `id`, if stored, got a new name, description and
    /// price. Nothing else about it changes, and no other item is touched.
    pub open spec fn updated(
        self,
        id: u64,
        name: Seq<char>,
        description: Seq<char>,
        price: Price,
    ) -> MenuView {
        if self.items.contains_key(id) {
            MenuView {
                items: self.items.insert(id, self.items[id].revised(name, description, price)),
                ..self
            }
        } else {
            self
        }
    }

    /// The menu after the item `id` was removed. The counter stays where it is, so
    /// the identifier is not issued again.
    pub open spec fn deleted(self, id: u64) -> MenuView {
        MenuView { items: self.items.remove(id), ..self }
    }

    /// Whether the item `id` is stored and its availability is `available`.
    pub open spec fn is_in_state(self, id: u64, available: bool) -> bool {
        self.items.contains_key(id) && self.items[id].available == available
    }

    /// The menu after the item `id` went from `!available` to `available`, if it
    /// is stored and was in the state that the transition starts from.
    pub open spec fn switched(self, id: u64, available: bool) -> MenuView {
        if self.is_in_state(id, !available) {
            MenuView {
                items: self.items.insert(id, self.items[id].with_available(available)),
                ..self
            }
        } else {
            self
        }
    }

    /// The menu after an attempt to order the item `id`: available to unavailable.
    pub open spec fn ordered(self, id: u64) -> MenuView {
        self.switched(id, false)
    }

    /// The menu after an attempt to receive the item `id`: unavailable to available.
    pub open spec fn received(self, id: u64) -> MenuView {
        self.switched(id, true)
    }

    /// What a transition to `available` reports for the item `id`.
    pub open spec fn switch_outcome(self, id: u64, available: bool) -> Result<(), Error> {
        if !self.items.contains_key(id) {
            Err(Error::NotFound { id })
        } else if self.items[id].available == available {
            Err(Error::InvalidState { id })
        } else {
            Ok(())
        }
    }
}

/// One change to a menu, as a value.
pub enum Step {
    /// A new item is added at time `now`.
    Add { name: Seq<char>, description: Seq<char>, price: Price, now: u64 },
    /// The item `id` gets a new name, description and price.
    Update { id: u64, name: Seq<char>, description: Seq<char>, price: Price },
    /// The item `id` is removed.
    Delete { id: u64 },
    /// The item `id` is ordered.
    Order { id: u64 },
    /// The item `id` is received.
    Receive { id: u64 },
}

impl MenuView {
    /// The menu after one change.
    pub open spec fn after(self, step: Step) -> MenuView {
        match step {
            Step::Add { name, description, price, now } => self.added(
                name,
                description,
                price,
                now,
            ),
            Step::Update { id, name, description, price } => self.updated(
                id,
                name,
                description,
                price,
            ),
            Step::Delete { id } => self.deleted(id),
            Step::Order { id } => self.ordered(id),
            Step::Receive { id } => self.received(id),
        }
    }

    /// One change keeps the menu well formed and never moves the counter back, so
    /// long as an addition does not exhaust the counter.
    pub proof fn lemma_step_keeps_wf(self, step: Step)
        requires
            self.wf(),
            step is Add ==> self.next_id < u64::MAX,
        ensures
            self.after(step).wf(),
            self.after(step).next_id == self.next_id + if step is Add {
                1int
            } else {
                0int
            },
    {
        let after = self.after(step);
        assert forall|id: u64| #[trigger] after.items.contains_key(id) implies after.items[id].id
            == id && id < after.next_id by {
            if self.items.contains_key(id) {
                assert(self.items[id].id == id && id < self.next_id);
            }
        }
    }

    /// The menu after a sequence of changes, applied from first to last.
    pub open spec fn after_all(self, steps: Seq<Step>) -> MenuView
        decreases steps.len(),
    {
        if steps.len() == 0 {
            self
        } else {
            self.after_all(steps.drop_last()).after(steps.last())
        }
    }

    /// The identifiers that the additions among `steps` were given, in the order
    /// in which they were made.
    pub open spec fn issued(self, steps: Seq<Step>) -> Seq<u64>
        decreases steps.len(),
    {
        if steps.len() == 0 {
            Seq::empty()
        } else {
            let earlier = self.issued(steps.drop_last());
            match steps.last() {
                Step::Add { .. } => earlier.push(self.after_all(steps.drop_last()).next_id),
                _ => earlier,
            }
        }
    }
}

} // verus!
