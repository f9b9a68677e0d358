//! The stored record.

use vstd::prelude::*;
use crate::ident::{is_random_form, random_uuid};

verus! {

/// A post as the storage port holds it.
#[derive(Debug)]
pub struct Post {
    pub id: u128,
    pub title: String,
    pub body: String,
    pub published: bool,
}

/// The mathematical value of a stored post.
pub struct PostData {
    pub id: u128,
    pub title: Seq<char>,
    pub body: Seq<char>,
    pub published: bool,
}

impl View for Post {
    type V = PostData;

    open spec fn view(&self) -> PostData {
        PostData { id: self.id, title: self.title@, body: self.body@, published: self.published }
    }
}

/// The row that creation makes: always published, whatever the caller may
/// have wished.
pub open spec fn created_row(id: u128, title: Seq<char>, body: Seq<char>) -> PostData {
    PostData { id, title, body, published: true }
}

impl Post {
    /// The post that creation makes under the identifier `id`.
    pub fn with_id(id: u128, title: &str, body: &str) -> (r: Post)
        ensures
            r@ == created_row(id, title@, body@),
    {
        Post { id, title: title.to_owned(), body: body.to_owned(), published: true }
    }

    /// The post that creation makes under a freshly drawn random identifier.
    pub fn fresh(title: &str, body: &str) -> (r: Post)
        ensures
            r@ == created_row(r.id, title@, body@),
            is_random_form(r.id),
    {
        Post::with_id(random_uuid(), title, body)
    }
}

impl Clone for Post {
    fn clone(&self) -> (r: Post)
        ensures
            r@ == self@,
    {
        Post {
            id: self.id,
            title: self.title.clone(),
            body: self.body.clone(),
            published: self.published,
        }
    }
}

} // verus!
