//! The wire messages of the five calls.

use vstd::prelude::*;
use crate::ident::{hyphenated, render_uuid, uuid_parse};
use crate::models::PostData;

verus! {

/// A post as it travels: the identifier is text.
#[derive(Debug)]
pub struct Post {
    pub id: String,
    pub title: String,
    pub body: String,
    pub published: bool,
}

/// The mathematical value of a wire post.
pub struct PostText {
    pub id: Seq<char>,
    pub title: Seq<char>,
    pub body: Seq<char>,
    pub published: bool,
}

impl View for Post {
    type V = PostText;

    open spec fn view(&self) -> PostText {
        PostText { id: self.id@, title: self.title@, body: self.body@, published: self.published }
    }
}

#[derive(Debug)]
pub struct PostListRequest {
    pub published: bool,
}

#[derive(Debug)]
pub struct PostListResponse {
    pub posts: Vec<Post>,
}

#[derive(Debug)]
pub struct CreatePostRequest {
    pub title: String,
    pub body: String,
}

#[derive(Debug)]
pub struct CreatePostResponse {
    pub id: String,
}

#[derive(Debug)]
pub struct UpdatePostRequest {
    pub post: Option<Post>,
}

#[derive(Debug)]
pub struct SuccessResponse {
    pub success: bool,
}

#[derive(Debug)]
pub struct DeletePostRequest {
    pub id: String,
}

#[derive(Debug)]
pub struct GetPostRequest {
    pub id: String,
}

#[derive(Debug)]
pub struct GetPostResponse {
    pub post: Option<Post>,
}

/// The wire form of a stored post: the identifier in its canonical text, the
/// other fields as they are.
pub open spec fn wire_form(row: PostData) -> PostText {
    PostText {
        id: hyphenated(row.id),
        title: row.title,
        body: row.body,
        published: row.published,
    }
}

/// The wire form of a stored post. Its identifier text reads back as the
/// post's identifier.
pub fn to_wire(post: &crate::models::Post) -> (r: Post)
    ensures
        r@ == wire_form(post@),
        uuid_parse(r.id@) == Some(post.id),
{
    Post {
        id: render_uuid(post.id),
        title: post.title.clone(),
        body: post.body.clone(),
        published: post.published,
    }
}

} // verus!
