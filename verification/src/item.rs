//! The menu item, what a caller submits to create or change one, and the errors
//! that the catalog reports.

use crate::price::Price;
use vstd::prelude::*;

verus! {

/// One record of the menu.
///
/// `id` and `created_at` are set when the item is added and never change.
/// `available` changes only when the item is ordered or received.
#[derive(Debug)]
pub struct FoodItem {
    pub id: u64,
    pub name: String,
    pub description: String,
    pub price: Price,
    pub available: bool,
    pub created_at: u64,
}

/// A menu item as a mathematical value.
pub struct FoodItemView {
    pub id: u64,
    pub name: Seq<char>,
    pub description: Seq<char>,
    pub price: Price,
    pub available: bool,
    pub created_at: u64,
}

impl View for FoodItem {
    type V = FoodItemView;

    open spec fn view(&self) -> FoodItemView {
        FoodItemView {
            id: self.id,
            name: self.name@,
            description: self.description@,
            price: self.price,
            available: self.available,
            created_at: self.created_at,
        }
    }
}

impl Clone for FoodItem {
    fn clone(&self) -> (copy: Self)
        ensures
            copy == *self,
    {
        FoodItem {
            id: self.id,
            name: self.name.clone(),
            description: self.description.clone(),
            price: self.price,
            available: self.available,
            created_at: self.created_at,
        }
    }
}

impl PartialEq for FoodItem {
    fn eq(&self, other: &Self) -> (same: bool) {
        self.id == other.id && self.name == other.name && self.description == other.description
            && self.price == other.price && self.available == other.available && self.created_at
            == other.created_at
    }
}

impl vstd::std_specs::cmp::PartialEqSpecImpl for FoodItem {
    open spec fn obeys_eq_spec() -> bool {
        true
    }

    open spec fn eq_spec(&self, other: &Self) -> bool {
        self@ == other@
    }
}

/// The fields of a menu item that a caller chooses.
#[derive(Debug)]
pub struct FoodItemPayload {
    pub name: String,
    pub description: String,
    pub price: Price,
}

/// Why an operation on one item was refused.
#[derive(Clone, Copy, Debug, PartialEq, Eq, Structural)]
pub enum Error {
    /// No item with this identifier is stored.
    NotFound { id: u64 },
    /// The item is stored, but not in the state that the transition starts from.
    InvalidState { id: u64 },
}

/// Whether an operation's result `r` is the expected one: the same error, or an
/// item with the expected value.
pub open spec fn yields(r: Result<FoodItem, Error>, expected: Result<FoodItemView, Error>) -> bool {
    match r {
        Ok(item) => expected == Ok::<FoodItemView, Error>(item@),
        Err(e) => expected == Err::<FoodItemView, Error>(e),
    }
}

impl FoodItemView {
    /// The item that is stored when `name`, `description` and `price` are submitted
    /// at time `now` and `id` is issued for them.
    pub open spec fn created(
        id: u64,
        name: Seq<char>,
        description: Seq<char>,
        price: Price,
        now: u64,
    ) -> FoodItemView {
        FoodItemView { id, name, description, price, available: true, created_at: now }
    }

    /// This item with the three fields that a caller chooses replaced.
    pub open spec fn revised(self, name: Seq<char>, description: Seq<char>, price: Price)
        -> FoodItemView {
        FoodItemView { name, description, price, ..self }
    }

    /// This item with its availability set.
    pub open spec fn with_available(self, available: bool) -> FoodItemView {
        FoodItemView { available, ..self }
    }
}

} // verus!
