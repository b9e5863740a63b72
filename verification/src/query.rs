//! What a search asks for, and what it means for a sequence of items to be the
//! answer: the matching items, each once, in ascending order of identifier.

use crate::item::{FoodItem, FoodItemView};
use crate::price::Price;
use crate::text::{contains, occurs_in};
use vstd::prelude::*;

verus! {

/// A condition on one item.
#[derive(Debug)]
pub enum Filter {
    /// Every item.
    Everything,
    /// Items whose name contains the text, compared literally.
    NameContains(String),
    /// Items whose price is at most the limit, the limit included.
    PriceAtMost(Price),
    /// Items whose price is at least the limit, the limit included.
    PriceAtLeast(Price),
}

impl Filter {
    /// Whether `item` meets the condition.
    pub open spec fn admits(&self, item: FoodItemView) -> bool {
        match self {
            Filter::Everything => true,
            Filter::NameContains(text) => occurs_in(text@, item.name),
            Filter::PriceAtMost(limit) => item.price.le(*limit),
            Filter::PriceAtLeast(limit) => item.price.ge(*limit),
        }
    }

    /// Whether `item` meets the condition.
    pub fn accepts(&self, item: &FoodItem) -> (r: bool)
        ensures
            r == self.admits(item@),
    {
        match self {
            Filter::Everything => true,
            Filter::NameContains(text) => contains(&item.name, text),
            Filter::PriceAtMost(limit) => item.price.at_most(limit),
            Filter::PriceAtLeast(limit) => item.price.at_least(limit),
        }
    }
}

/// The items of `table` that meet `filter`.
pub open spec fn matching(table: Map<u64, FoodItemView>, filter: Filter) -> Map<u64, FoodItemView> {
    Map::new(
        |id: u64| table.contains_key(id) && filter.admits(table[id]),
        |id: u64| table[id],
    )
}

/// The items of a vector as mathematical values.
pub open spec fn views(items: Seq<FoodItem>) -> Seq<FoodItemView> {
    items.map_values(|item: FoodItem| item@)
}

/// Whether `listing` holds exactly the items of `table`, each once, in ascending
/// order of identifier.
pub open spec fn lists(listing: Seq<FoodItemView>, table: Map<u64, FoodItemView>) -> bool {
    &&& forall|i: int, j: int|
        0 <= i < j < listing.len() ==> (#[trigger] listing[i]).id < (#[trigger] listing[j]).id
    &&& forall|i: int|
        0 <= i < listing.len() ==> table.contains_key((#[trigger] listing[i]).id)
            && table[listing[i].id] == listing[i]
    &&& forall|id: u64| #[trigger]
        table.contains_key(id) ==> exists|i: int|
            0 <= i < listing.len() && (#[trigger] listing[i]).id == id
}

/// Where the item `id` of `table` stands in `listing`.
pub open spec fn position(listing: Seq<FoodItemView>, id: u64) -> int {
    choose|i: int| 0 <= i < listing.len() && (#[trigger] listing[i]).id == id
}

/// A table has one listing only: two sequences that list the same table are the
/// same sequence.
pub proof fn lemma_listing_unique(
    a: Seq<FoodItemView>,
    b: Seq<FoodItemView>,
    table: Map<u64, FoodItemView>,
)
    requires
        lists(a, table),
        lists(b, table),
    ensures
        a == b,
    decreases a.len(),
{
    if a.len() == 0 {
        if b.len() > 0 {
            assert(table.contains_key(b[0].id));
        }
        assert(a =~= b);
    } else if b.len() == 0 {
        assert(table.contains_key(a[0].id));
    } else {
        // The last entries carry the largest identifier of the table on both
        // sides, so they agree; the rest list the table without it.
        let la = a.last();
        let lb = b.last();
        assert(table.contains_key(la.id) && table.contains_key(lb.id));
        let ia = position(a, lb.id);
        let ib = position(b, la.id);
        assert(a[ia].id == lb.id && b[ib].id == la.id);
        assert(la.id == lb.id) by {
            if ia < a.len() - 1 {
                assert(a[ia].id < a[a.len() - 1].id);
            }
            if ib < b.len() - 1 {
                assert(b[ib].id < b[b.len() - 1].id);
            }
        }
        assert(la == lb);
        let rest = table.remove(la.id);
        lemma_listing_drop_last(a, table);
        lemma_listing_drop_last(b, table);
        lemma_listing_unique(a.drop_last(), b.drop_last(), rest);
        assert(a =~= a.drop_last().push(la));
        assert(b =~= b.drop_last().push(lb));
    }
}

/// Without its last entry, a listing lists the table without that item.
proof fn lemma_listing_drop_last(a: Seq<FoodItemView>, table: Map<u64, FoodItemView>)
    requires
        lists(a, table),
        a.len() > 0,
    ensures
        lists(a.drop_last(), table.remove(a.last().id)),
{
    let short = a.drop_last();
    let rest = table.remove(a.last().id);
    assert forall|i: int| 0 <= i < short.len() implies rest.contains_key((#[trigger] short[i]).id)
        && rest[short[i].id] == short[i] by {
        assert(short[i] == a[i]);
        assert(a[i].id < a[a.len() - 1].id);
    }
    assert forall|id: u64| #[trigger] rest.contains_key(id) implies exists|i: int|
        0 <= i < short.len() && (#[trigger] short[i]).id == id by {
        assert(table.contains_key(id));
        let i = position(a, id);
        assert(a[i].id == id);
        assert(i < a.len() - 1);
        assert(short[i].id == id);
    }
    assert forall|i: int, j: int| 0 <= i < j < short.len() implies (#[trigger] short[i]).id < (
    #[trigger] short[j]).id by {
        assert(short[i] == a[i] && short[j] == a[j]);
    }
}

} // verus!
