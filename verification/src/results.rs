//! The result store: the ordered list of search results currently on show,
//! replaced wholesale by each successful search.

use vstd::prelude::*;

verus! {

/// One search hit merged with its detail lookup. All fields are opaque text;
/// an item has no identity beyond its position in the owning store.
pub struct ResultItem {
    pub title: String,
    pub channel: String,
    pub published_at: String,
    pub duration: String,
    pub view_count: String,
    pub link: String,
    pub description: String,
}

/// The ordered results of the most recent successful search, in the order the
/// collaborator returned them; never re-sorted and never partially updated.
pub struct ResultStore {
    pub items: Vec<ResultItem>,
}

impl View for ResultStore {
    type V = Seq<ResultItem>;

    open spec fn view(&self) -> Seq<ResultItem> {
        self.items@
    }
}

impl ResultStore {
    /// The empty store the application starts with.
    pub fn new() -> (r: ResultStore)
        ensures
            r@ == Seq::<ResultItem>::empty(),
    {
        ResultStore { items: Vec::new() }
    }

    /// How many results are on show.
    pub fn len(&self) -> (r: usize)
        ensures
            r == self@.len(),
    {
        self.items.len()
    }

    /// Discard the whole old list and put `items` in its place.
    pub fn replace(&mut self, items: Vec<ResultItem>)
        ensures
            final(self)@ == items@,
    {
        self.items = items;
    }

    /// The item at position `i`.
    pub fn get(&self, i: usize) -> (r: &ResultItem)
        requires
            i < self@.len(),
        ensures
            *r == self@[i as int],
    {
        &self.items[i]
    }
}

} // verus!
