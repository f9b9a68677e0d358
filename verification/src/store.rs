//! The storage port: what the service needs from a table of posts.

use vstd::prelude::*;
use crate::ident::is_random_form;
use crate::models::{created_row, Post, PostData};

verus! {

/// Why a storage operation failed.
#[derive(Debug)]
pub enum StoreError {
    /// A read by identifier matched no row.
    NotFound,
    /// No connection to the backend could be had.
    BackendUnavailable(String),
    /// A read reached the backend and failed there.
    QueryFailure(String),
    /// A write reached the backend and failed there.
    WriteFailure(String),
}

impl StoreError {
    /// The text that describes the failure to a caller.
    pub open spec fn description(self) -> Seq<char> {
        match self {
            StoreError::NotFound => "Record not found"@,
            StoreError::BackendUnavailable(text) => text@,
            StoreError::QueryFailure(text) => text@,
            StoreError::WriteFailure(text) => text@,
        }
    }

    /// The text that describes the failure to a caller.
    pub fn describe(self) -> (r: String)
        ensures
            r@ == self.description(),
    {
        match self {
            StoreError::NotFound => "Record not found".to_owned(),
            StoreError::BackendUnavailable(text) => text,
            StoreError::QueryFailure(text) => text,
            StoreError::WriteFailure(text) => text,
        }
    }
}

/// The rows of a table, by identifier.
pub type Table = Map<u128, PostData>;

/// The row under `id`, if the table has one.
pub open spec fn lookup(table: Table, id: u128) -> Option<PostData> {
    if table.contains_key(id) {
        Some(table[id])
    } else {
        None
    }
}

/// The table after `row` was created in it.
pub open spec fn after_create(table: Table, row: PostData) -> Table {
    table.insert(row.id, row)
}

/// The table after an update with `row`: the row under the same identifier is
/// replaced whole; a table without such a row stays as it is.
pub open spec fn after_update(table: Table, row: PostData) -> Table {
    if table.contains_key(row.id) {
        table.insert(row.id, row)
    } else {
        table
    }
}

/// The table after the row under `id` was deleted.
pub open spec fn after_delete(table: Table, id: u128) -> Table {
    table.remove(id)
}

/// How many rows an update or a delete aimed at `id` alters.
pub open spec fn affected(table: Table, id: u128) -> usize {
    if table.contains_key(id) {
        1
    } else {
        0
    }
}

/// Whether the table holds a row under an identifier that a random draw can
/// give: only such a row can stand in the way of a creation.
pub open spec fn holds_random_key(table: Table) -> bool {
    exists|id: u128| is_random_form(id) && #[trigger] table.contains_key(id)
}

/// Whether `posts` lists the rows of `table` whose flag is `published`: each
/// listed post is such a row, each such row is listed, and none twice. The
/// order is free.
pub open spec fn is_listing(posts: Seq<Post>, table: Table, published: bool) -> bool {
    &&& forall|k: int|
        0 <= k < posts.len() ==> {
            &&& table.contains_key((#[trigger] posts[k]).id)
            &&& table[posts[k].id] == posts[k]@
            &&& posts[k].published == published
        }
    &&& forall|id: u128|
        #[trigger] table.contains_key(id) && table[id].published == published ==> exists|k: int|
            0 <= k < posts.len() && (#[trigger] posts[k]).id == id
    &&& forall|j: int, k: int|
        0 <= j < k < posts.len() ==> (#[trigger] posts[j]).id != (#[trigger] posts[k]).id
}

/// The operations that the service needs from the persistence backend.
///
/// An implementation stands for a table of posts with at most one row under
/// each identifier. Every operation acts on one row, or reads; one that fails
/// leaves the table as it was. Each takes the store by `&mut`, so that a store
/// may keep count of its calls or hold a connection for the time of one.
///
/// The three functions that describe a store have bodies, so that a store
/// can be written where they cannot be: such a store carries the promises of
/// the operations unproved.
pub trait DataStoreService {
    /// The invariant of the implementation.
    open spec fn valid(&self) -> bool {
        true
    }

    /// The rows that the store holds.
    open spec fn table(&self) -> Table {
        Map::empty()
    }

    /// Whether every operation reaches the table: a read, an update or a
    /// delete then fails only with [`StoreError::NotFound`], and only on a
    /// read by identifier that matches no row; a creation fails only where
    /// the identifier drawn for it is taken, which takes a stored row under
    /// an identifier of random form.
    open spec fn dependable(&self) -> bool {
        false
    }

    /// The posts whose flag is `is_published`, in no particular order.
    fn get_posts(&mut self, is_published: bool) -> (r: Result<Vec<Post>, StoreError>)
        requires
            old(self).valid(),
        ensures
            final(self).valid(),
            final(self).table() == old(self).table(),
            final(self).dependable() == old(self).dependable(),
            r matches Ok(posts) ==> is_listing(posts@, old(self).table(), is_published),
            old(self).dependable() ==> r is Ok,
    ;

    /// Creates a published post with the given title and body under an
    /// identifier of the store's choosing, which no row had before.
    fn create_post(&mut self, post_title: &str, post_body: &str) -> (r: Result<Post, StoreError>)
        requires
            old(self).valid(),
        ensures
            final(self).valid(),
            final(self).dependable() == old(self).dependable(),
            match r {
                Ok(post) => {
                    &&& post@ == created_row(post.id, post_title@, post_body@)
                    &&& !old(self).table().contains_key(post.id)
                    &&& final(self).table() == after_create(old(self).table(), post@)
                },
                Err(_) => final(self).table() == old(self).table(),
            },
            old(self).dependable() && r is Err ==> holds_random_key(old(self).table()),
    ;

    /// Replaces the row under the post's identifier by the post and tells how
    /// many rows that altered.
    fn update_post(&mut self, post: &Post) -> (r: Result<usize, StoreError>)
        requires
            old(self).valid(),
        ensures
            final(self).valid(),
            final(self).dependable() == old(self).dependable(),
            match r {
                Ok(count) => {
                    &&& count == affected(old(self).table(), post.id)
                    &&& final(self).table() == after_update(old(self).table(), post@)
                },
                Err(_) => final(self).table() == old(self).table(),
            },
            old(self).dependable() ==> r is Ok,
    ;

    /// Deletes the row under `post_id` and tells how many rows that removed.
    fn delete_post(&mut self, post_id: u128) -> (r: Result<usize, StoreError>)
        requires
            old(self).valid(),
        ensures
            final(self).valid(),
            final(self).dependable() == old(self).dependable(),
            match r {
                Ok(count) => {
                    &&& count == affected(old(self).table(), post_id)
                    &&& final(self).table() == after_delete(old(self).table(), post_id)
                },
                Err(_) => final(self).table() == old(self).table(),
            },
            old(self).dependable() ==> r is Ok,
    ;

    /// The row under `post_id`.
    fn get_post(&mut self, post_id: u128) -> (r: Result<Post, StoreError>)
        requires
            old(self).valid(),
        ensures
            final(self).valid(),
            final(self).table() == old(self).table(),
            final(self).dependable() == old(self).dependable(),
            r matches Ok(post) ==> post.id == post_id && lookup(old(self).table(), post_id) == Some(
                post@,
            ),
            r matches Err(StoreError::NotFound) ==> lookup(old(self).table(), post_id) is None,
            old(self).dependable() ==> (r is Ok || r matches Err(StoreError::NotFound)),
    ;
}

} // verus!
