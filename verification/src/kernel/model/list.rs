//! One page of a longer listing.
use vstd::prelude::*;

verus! {

/// A page of items, with the window that selected it and the size of the
/// whole listing.
#[derive(Debug)]
pub struct PaginatedList<T> {
    pub items: Vec<T>,
    pub total: i64,
    pub limit: i64,
    pub offset: i64,
}

impl<T> PaginatedList<T> {
    /// Gives up the window and keeps the items, in order.
    pub fn into_inner(self) -> (items: Vec<T>)
        ensures
            items == self.items,
    {
        self.items
    }
}

} // verus!
