//! The service adapter: one method for each call, which decodes the request,
//! asks the storage port, and encodes the answer or classifies the failure.

use vstd::prelude::*;
use crate::ident::{hyphenated, parse_uuid, uuid_parse};
use crate::posts::{
    to_wire, wire_form, CreatePostRequest, CreatePostResponse, DeletePostRequest, GetPostRequest,
    GetPostResponse, PostListRequest, PostListResponse, SuccessResponse, UpdatePostRequest,
};
use crate::status::{Code, Status, StatusData};
use crate::models::created_row;
use crate::store::{
    affected, after_create, after_delete, after_update, holds_random_key, lookup,
    DataStoreService, StoreError, Table,
};

verus! {

/// The status of a request whose identifier text is no identifier.
pub open spec fn malformed_id() -> StatusData {
    StatusData { code: Code::Internal, message: "Cannot parse post_id to UUID"@ }
}

/// The status of a read by identifier that matched no row.
pub open spec fn post_not_found() -> StatusData {
    StatusData { code: Code::NotFound, message: "Post not found"@ }
}

/// The status of a storage failure that is no miss: internal, with the
/// failure's description.
pub open spec fn storage_failure(error: StoreError) -> StatusData {
    StatusData { code: Code::Internal, message: error.description() }
}

/// The answer to a read by identifier when the store reached its table and
/// found `found` there: the row in wire form, or the not-found status.
pub open spec fn read_outcome(found: Option<crate::models::PostData>) -> Result<
    crate::posts::PostText,
    StatusData,
> {
    match found {
        Some(row) => Ok(wire_form(row)),
        None => Err(post_not_found()),
    }
}

/// Whether `posts` is the wire form of the rows of `table` whose flag is
/// `published`: each listed post is the wire form of such a row, under an
/// identifier text that reads back as the row's key, each such row is
/// listed, and no two listed posts have the same identifier.
pub open spec fn is_wire_listing(posts: Seq<crate::posts::Post>, table: Table, published: bool) -> bool {
    &&& forall|k: int|
        0 <= k < posts.len() ==> {
            &&& uuid_parse((#[trigger] posts[k]).id@) matches Some(id)
            &&& table.contains_key(id)
            &&& posts[k]@ == wire_form(table[id])
            &&& posts[k].published == published
        }
    &&& forall|id: u128|
        #[trigger] table.contains_key(id) && table[id].published == published ==> exists|k: int|
            0 <= k < posts.len() && (#[trigger] posts[k])@ == wire_form(table[id])
    &&& forall|j: int, k: int|
        0 <= j < k < posts.len() ==> (#[trigger] posts[j]).id@ != (#[trigger] posts[k]).id@
}

/// The identifier that a request names, given what parsing its text gave: the
/// parsed value, or the malformed-identifier status where there is none.
pub fn identifier_or_status(parsed: Option<u128>) -> (r: Result<u128, Status>)
    ensures
        match parsed {
            Some(id) => r matches Ok(value) && value == id,
            None => r matches Err(status) && status@ == malformed_id(),
        },
{
    match parsed {
        Some(id) => Ok(id),
        None => Err(Status::internal("Cannot parse post_id to UUID".to_owned())),
    }
}

/// Reads the identifier of a request from its text.
pub fn decode_id(text: &str) -> (r: Result<u128, Status>)
    ensures
        match uuid_parse(text@) {
            Some(id) => r matches Ok(value) && value == id,
            None => r matches Err(status) && status@ == malformed_id(),
        },
{
    identifier_or_status(parse_uuid(text))
}

/// The answer to a list call, given what the storage port returned: the wire
/// form of each post, in the port's order, or an internal failure with the
/// port's description.
pub fn list_reply(result: Result<Vec<crate::models::Post>, StoreError>) -> (r: Result<
    PostListResponse,
    Status,
>)
    ensures
        match result {
            Ok(posts) => {
                &&& r matches Ok(response)
                &&& response.posts@.len() == posts@.len()
                &&& forall|k: int|
                    0 <= k < posts@.len() ==> {
                        &&& (#[trigger] response.posts@[k])@ == wire_form(posts@[k]@)
                        &&& uuid_parse(response.posts@[k].id@) == Some(posts@[k].id)
                    }
            },
            Err(error) => r matches Err(status) && status@ == storage_failure(error),
        },
{
    match result {
        Ok(posts) => {
            let mut wire: Vec<crate::posts::Post> = Vec::new();
            let mut i: usize = 0;
            while i < posts.len()
                invariant
                    i <= posts@.len(),
                    wire@.len() == i,
                    forall|k: int|
                        0 <= k < i ==> {
                            &&& (#[trigger] wire@[k])@ == wire_form(posts@[k]@)
                            &&& uuid_parse(wire@[k].id@) == Some(posts@[k].id)
                        },
                decreases posts@.len() - i,
            {
                wire.push(to_wire(&posts[i]));
                i += 1;
            }
            Ok(PostListResponse { posts: wire })
        },
        Err(error) => Err(Status::internal(error.describe())),
    }
}

/// The answer to a create call, given what the storage port returned: the new
/// identifier as text, or an internal failure with the port's description.
pub fn create_reply(result: Result<crate::models::Post, StoreError>) -> (r: Result<
    CreatePostResponse,
    Status,
>)
    ensures
        match result {
            Ok(post) => {
                &&& r matches Ok(response)
                &&& response.id@ == hyphenated(post.id)
                &&& uuid_parse(response.id@) == Some(post.id)
            },
            Err(error) => r matches Err(status) && status@ == storage_failure(error),
        },
{
    match result {
        Ok(post) => Ok(CreatePostResponse { id: to_wire(&post).id }),
        Err(error) => Err(Status::internal(error.describe())),
    }
}

/// The answer to an update or delete call, given what the storage port
/// returned: success exactly where a row was altered, or an internal failure
/// with the port's description. A count of zero is an answer, not a failure.
pub fn success_reply(result: Result<usize, StoreError>) -> (r: Result<SuccessResponse, Status>)
    ensures
        match result {
            Ok(count) => r matches Ok(response) && response.success == (count > 0),
            Err(error) => r matches Err(status) && status@ == storage_failure(error),
        },
{
    match result {
        Ok(count) => Ok(SuccessResponse { success: count > 0 }),
        Err(error) => Err(Status::internal(error.describe())),
    }
}

/// The answer to a get call, given what the storage port returned: the post in
/// wire form; the not-found status where the port reported a miss; or an
/// internal failure with the port's description.
pub fn get_reply(result: Result<crate::models::Post, StoreError>) -> (r: Result<
    GetPostResponse,
    Status,
>)
    ensures
        match result {
            Ok(post) => {
                &&& r matches Ok(response)
                &&& response.post matches Some(wire)
                &&& wire@ == wire_form(post@)
                &&& uuid_parse(wire.id@) == Some(post.id)
            },
            Err(StoreError::NotFound) => r matches Err(status) && status@ == post_not_found(),
            Err(error) => r matches Err(status) && status@ == storage_failure(error),
        },
{
    match result {
        Ok(post) => Ok(GetPostResponse { post: Some(to_wire(&post)) }),
        Err(StoreError::NotFound) => Err(Status::not_found("Post not found".to_owned())),
        Err(error) => Err(Status::internal(error.describe())),
    }
}

/// The service over a storage port of type `S`.
pub struct PostsServiceImp<S: DataStoreService> {
    pub store: S,
}

impl<S: DataStoreService> PostsServiceImp<S> {
    /// A service over the given store.
    pub fn new(store: Box<S>) -> (r: Self)
        ensures
            r.store == *store,
    {
        Self { store: *store }
    }

    /// Lists the posts whose flag is the requested one.
    ///
    /// No listed post has the other flag. A failure of the port is reported as
    /// internal; a dependable port always gives a list.
    pub fn get_post_list(&mut self, request: PostListRequest) -> (r: Result<
        PostListResponse,
        Status,
    >)
        requires
            old(self).store.valid(),
        ensures
            final(self).store.valid(),
            final(self).store.table() == old(self).store.table(),
            final(self).store.dependable() == old(self).store.dependable(),
            r matches Ok(response) ==> is_wire_listing(
                response.posts@,
                old(self).store.table(),
                request.published,
            ),
            r matches Err(status) ==> status.code == Code::Internal,
            old(self).store.dependable() ==> r is Ok,
    {
        let result = self.store.get_posts(request.published);
        let ghost listed = result;
        let reply = list_reply(result);
        proof {
            if listed is Ok && reply is Ok {
                let posts = listed->Ok_0;
                let response = reply->Ok_0;
                let table = old(self).store.table();
                assert forall|id: u128|
                    #[trigger] table.contains_key(id) && table[id].published
                        == request.published implies exists|k: int|
                    0 <= k < response.posts@.len() && (#[trigger] response.posts@[k])@
                        == wire_form(table[id]) by {
                    let k = choose|k: int| 0 <= k < posts@.len() && (#[trigger] posts@[k]).id == id;
                    assert(response.posts@[k]@ == wire_form(posts@[k]@));
                }
            }
        }
        reply
    }

    /// Creates a published post with the requested title and body and answers
    /// with its identifier, which no row had before.
    ///
    /// A failure of the store is reported as internal. A dependable store
    /// fails only where the identifier drawn is taken, so it succeeds on every
    /// table that holds no row under an identifier of random form.
    pub fn create_post(&mut self, request: CreatePostRequest) -> (r: Result<
        CreatePostResponse,
        Status,
    >)
        requires
            old(self).store.valid(),
        ensures
            final(self).store.valid(),
            final(self).store.dependable() == old(self).store.dependable(),
            match r {
                Ok(response) => {
                    &&& uuid_parse(response.id@) matches Some(id)
                    &&& response.id@ == hyphenated(id)
                    &&& !old(self).store.table().contains_key(id)
                    &&& final(self).store.table() == after_create(
                        old(self).store.table(),
                        created_row(id, request.title@, request.body@),
                    )
                },
                Err(status) => {
                    &&& status.code == Code::Internal
                    &&& final(self).store.table() == old(self).store.table()
                },
            },
            old(self).store.dependable() && r is Err ==> holds_random_key(old(self).store.table()),
    {
        let result = self.store.create_post(request.title.as_str(), request.body.as_str());
        create_reply(result)
    }

    /// Replaces the post under the request's identifier by the request's post.
    ///
    /// A malformed identifier is refused before the store is touched. Success
    /// is reported exactly where a row was replaced; that no row matched is an
    /// answer, not a failure.
    pub fn update_post(&mut self, request: UpdatePostRequest) -> (r: Result<
        SuccessResponse,
        Status,
    >)
        requires
            old(self).store.valid(),
            request.post is Some,
        ensures
            final(self).store.valid(),
            final(self).store.dependable() == old(self).store.dependable(),
            r matches Err(status) ==> status.code == Code::Internal,
            match uuid_parse(request.post->0.id@) {
                None => {
                    &&& r matches Err(status) && status@ == malformed_id()
                    &&& *final(self) == *old(self)
                },
                Some(id) => {
                    let row = crate::models::PostData {
                        id,
                        title: request.post->0.title@,
                        body: request.post->0.body@,
                        published: request.post->0.published,
                    };
                    &&& old(self).store.dependable() ==> r is Ok
                    &&& match r {
                        Ok(response) => {
                            &&& response.success == (affected(old(self).store.table(), id) > 0)
                            &&& final(self).store.table() == after_update(
                                old(self).store.table(),
                                row,
                            )
                        },
                        Err(_) => final(self).store.table() == old(self).store.table(),
                    }
                },
            },
    {
        let post = request.post.unwrap();
        let id = match decode_id(post.id.as_str()) {
            Ok(id) => id,
            Err(status) => { return Err(status); },
        };
        let stored = crate::models::Post {
            id,
            title: post.title,
            body: post.body,
            published: post.published,
        };
        let result = self.store.update_post(&stored);
        success_reply(result)
    }

    /// Deletes the post under the request's identifier.
    ///
    /// A malformed identifier is refused before the store is touched. Success
    /// is reported exactly where a row was removed; that no row matched is an
    /// answer, not a failure.
    pub fn delete_post(&mut self, request: DeletePostRequest) -> (r: Result<
        SuccessResponse,
        Status,
    >)
        requires
            old(self).store.valid(),
        ensures
            final(self).store.valid(),
            final(self).store.dependable() == old(self).store.dependable(),
            r matches Err(status) ==> status.code == Code::Internal,
            match uuid_parse(request.id@) {
                None => {
                    &&& r matches Err(status) && status@ == malformed_id()
                    &&& *final(self) == *old(self)
                },
                Some(id) => {
                    &&& old(self).store.dependable() ==> r is Ok
                    &&& match r {
                        Ok(response) => {
                            &&& response.success == (affected(old(self).store.table(), id) > 0)
                            &&& final(self).store.table() == after_delete(
                                old(self).store.table(),
                                id,
                            )
                        },
                        Err(_) => final(self).store.table() == old(self).store.table(),
                    }
                },
            },
    {
        let id = match decode_id(request.id.as_str()) {
            Ok(id) => id,
            Err(status) => { return Err(status); },
        };
        let result = self.store.delete_post(id);
        success_reply(result)
    }

    /// Reads the post under the request's identifier.
    ///
    /// A malformed identifier is refused before the store is touched. The
    /// not-found status is given only where no row matched; a dependable port
    /// gives the row where there is one and the not-found status where there
    /// is none.
    pub fn get_post(&mut self, request: GetPostRequest) -> (r: Result<GetPostResponse, Status>)
        requires
            old(self).store.valid(),
        ensures
            final(self).store.valid(),
            final(self).store.table() == old(self).store.table(),
            final(self).store.dependable() == old(self).store.dependable(),
            match uuid_parse(request.id@) {
                None => {
                    &&& r matches Err(status) && status@ == malformed_id()
                    &&& *final(self) == *old(self)
                },
                Some(id) => {
                    let found = lookup(old(self).store.table(), id);
                    &&& r matches Ok(response) ==> {
                        &&& found matches Some(row)
                        &&& row.id == id
                        &&& response.post matches Some(wire)
                        &&& wire@ == wire_form(row)
                        &&& uuid_parse(wire.id@) == Some(id)
                    }
                    &&& r matches Err(status) ==> (status.code == Code::NotFound ==> found is None
                        && status@ == post_not_found())
                    &&& old(self).store.dependable() ==> match read_outcome(found) {
                        Ok(text) => r matches Ok(response) && response.post matches Some(wire)
                            && wire@ == text,
                        Err(miss) => r matches Err(status) && status@ == miss,
                    }
                },
            },
    {
        let id = match decode_id(request.id.as_str()) {
            Ok(id) => id,
            Err(status) => { return Err(status); },
        };
        let result = self.store.get_post(id);
        get_reply(result)
    }
}

} // verus!
