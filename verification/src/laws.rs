//! What holds of a table of posts across several operations.

use vstd::prelude::*;
use crate::models::{created_row, PostData};
use crate::server::{post_not_found, read_outcome};
use crate::posts::wire_form;
use crate::store::{affected, after_create, after_delete, after_update, lookup, Table};

verus! {

/// A post that was created is read back under its identifier as it was
/// created: same identifier, title and body, and published.
pub proof fn created_post_is_read_back(table: Table, id: u128, title: Seq<char>, body: Seq<char>)
    ensures
        lookup(after_create(table, created_row(id, title, body)), id) == Some(
            created_row(id, title, body),
        ),
        read_outcome(lookup(after_create(table, created_row(id, title, body)), id)) == Ok::<
            crate::posts::PostText,
            crate::status::StatusData,
        >(wire_form(created_row(id, title, body))),
        created_row(id, title, body).published,
{
}

/// A read under an identifier that the table does not hold is answered with
/// the not-found status, whether the identifier was never there or its row
/// was deleted.
pub proof fn absent_post_is_not_found(table: Table, id: u128)
    ensures
        !table.contains_key(id) ==> read_outcome(lookup(table, id)) == Err::<
            crate::posts::PostText,
            crate::status::StatusData,
        >(post_not_found()),
        read_outcome(lookup(after_delete(table, id), id)) == Err::<
            crate::posts::PostText,
            crate::status::StatusData,
        >(post_not_found()),
{
}

/// An update of a stored post alters one row, and the post is then read back
/// as the update gave it, every field replaced.
pub proof fn updated_post_is_read_back(table: Table, row: PostData)
    requires
        table.contains_key(row.id),
    ensures
        affected(table, row.id) == 1,
        lookup(after_update(table, row), row.id) == Some(row),
{
}

/// An update or a delete aimed at an identifier that the table does not hold
/// alters no row and leaves the table as it was.
pub proof fn missing_row_is_left_alone(table: Table, row: PostData)
    requires
        !table.contains_key(row.id),
    ensures
        affected(table, row.id) == 0,
        after_update(table, row) == table,
        after_delete(table, row.id) == table,
{
    assert(table.remove(row.id) =~= table);
}

/// Creating, updating or deleting one post leaves every other post as it was.
pub proof fn other_posts_stay(table: Table, row: PostData, other: u128)
    requires
        other != row.id,
    ensures
        lookup(after_create(table, row), other) == lookup(table, other),
        lookup(after_update(table, row), other) == lookup(table, other),
        lookup(after_delete(table, row.id), other) == lookup(table, other),
{
}

} // verus!
