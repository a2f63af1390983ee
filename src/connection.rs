use vstd::prelude::*;

use crate::cursor::{decimal, encode_cursor};

verus! {

/// A slice of the ordered row set: `limit` rows starting at position `offset`.
#[derive(Clone, Copy, Debug, PartialEq, Eq, Structural)]
pub struct Window {
    pub limit: usize,
    pub offset: usize,
}

/// A row of a page, with its absolute position in the row set.
#[derive(Debug)]
pub struct Edge<T> {
    pub position: usize,
    pub node: T,
}

impl<T> Edge<T> {
    /// The opaque cursor of this edge.
    pub fn cursor(&self) -> (r: String)
        ensures
            r@ == decimal(self.position as nat),
    {
        encode_cursor(self.position)
    }
}

/// A page of rows, in ascending position, with its navigation flags.
#[derive(Debug)]
pub struct Page<T> {
    pub edges: Vec<Edge<T>>,
    pub has_previous_page: bool,
    pub has_next_page: bool,
}

/// Builds the page for the rows fetched with `window` out of `total_count`
/// rows. The row at index `i` becomes the edge at position `window.offset + i`
/// whose node is `map_to` of that row.
pub fn assemble<R, T, F: Fn(R) -> T>(window: Window, rows: Vec<R>, total_count: usize, map_to: F) -> (page: Page<T>)
    requires
        rows.len() <= window.limit,
        window.offset + rows.len() <= usize::MAX,
        forall|r: R| map_to.requires((r,)),
    ensures
        page.has_previous_page == (window.offset > 0),
        page.has_next_page == (window.offset + rows.len() < total_count),
        page.edges.len() == rows.len(),
        forall|i: int|
            0 <= i < rows.len() ==> {
                &&& (#[trigger] page.edges@[i]).position == window.offset + i
                &&& map_to.ensures((rows@[i],), page.edges@[i].node)
            },
{
    let ghost all = rows@;
    let n: usize = rows.len();
    let has_previous_page = window.offset > 0;
    let has_next_page = window.offset + n < total_count;

    // Take the rows off the back, so that `pending` holds them last to first.
    let mut rows = rows;
    let mut pending: Vec<R> = Vec::new();
    while rows.len() > 0
        invariant
            rows@ == all.subrange(0, rows.len() as int),
            pending.len() + rows.len() == n,
            n == all.len(),
            forall|j: int| 0 <= j < pending.len() ==> pending@[j] == all[n - 1 - j],
        decreases rows.len(),
    {
        let row = rows.pop().unwrap();
        pending.push(row);
    }

    let mut edges: Vec<Edge<T>> = Vec::new();
    while pending.len() > 0
        invariant
            edges.len() + pending.len() == n,
            n == all.len(),
            window.offset + n <= usize::MAX,
            forall|r: R| map_to.requires((r,)),
            forall|j: int| 0 <= j < pending.len() ==> pending@[j] == all[n - 1 - j],
            forall|k: int|
                0 <= k < edges.len() ==> {
                    &&& (#[trigger] edges@[k]).position == window.offset + k
                    &&& map_to.ensures((all[k],), edges@[k].node)
                },
        decreases pending.len(),
    {
        let row = pending.pop().unwrap();
        let position: usize = window.offset + edges.len();
        let node = map_to(row);
        edges.push(Edge { position, node });
    }

    Page { edges, has_previous_page, has_next_page }
}

} // verus!
