//! A storage port that keeps its table in memory.

use vstd::prelude::*;
use crate::ident::is_random_form;
use crate::models::{created_row, Post};
use crate::store::{after_create, holds_random_key, DataStoreService, StoreError, Table};

verus! {

/// A table of posts in memory. It is dependable: only a clash of a freshly
/// drawn identifier with a stored one makes an operation fail, so a creation
/// succeeds on every table that holds no row under an identifier of random
/// form.
pub struct MemoryStore {
    rows: Vec<Post>,
    shadow: Ghost<Table>,
}

impl MemoryStore {
    /// Whether the rows and the table that they stand for agree: every row is
    /// in the table under its identifier, every key of the table has a row,
    /// and no two rows share an identifier.
    spec fn agrees(&self) -> bool {
        &&& forall|k: int|
            0 <= k < self.rows@.len() ==> {
                &&& self.shadow@.contains_key((#[trigger] self.rows@[k]).id)
                &&& self.shadow@[self.rows@[k].id] == self.rows@[k]@
            }
        &&& forall|id: u128| #[trigger]
            self.shadow@.contains_key(id) ==> exists|k: int|
                0 <= k < self.rows@.len() && (#[trigger] self.rows@[k]).id == id
        &&& forall|j: int, k: int|
            0 <= j < k < self.rows@.len() ==> (#[trigger] self.rows@[j]).id != (
            #[trigger] self.rows@[k]).id
    }

    /// An empty store.
    pub fn new() -> (r: MemoryStore)
        ensures
            r.valid(),
            r.table() == Map::<u128, crate::models::PostData>::empty(),
    {
        MemoryStore { rows: Vec::new(), shadow: Ghost(Map::empty()) }
    }

    /// Creates a published post under `id`, which the caller drew.
    ///
    /// Where the table has a row under `id` already, nothing changes and the
    /// write fails; else the new row is added and returned.
    pub fn create_with_id(&mut self, id: u128, post_title: &str, post_body: &str) -> (r: Result<
        Post,
        StoreError,
    >)
        requires
            old(self).valid(),
        ensures
            final(self).valid(),
            match r {
                Ok(post) => {
                    &&& !old(self).table().contains_key(id)
                    &&& post@ == created_row(id, post_title@, post_body@)
                    &&& final(self).table() == after_create(old(self).table(), post@)
                },
                Err(error) => {
                    &&& old(self).table().contains_key(id)
                    &&& error is WriteFailure
                    &&& error.description() == "identifier already in use"@
                    &&& final(self).table() == old(self).table()
                },
            },
    {
        match self.find(id) {
            Some(_) => Err(StoreError::WriteFailure("identifier already in use".to_owned())),
            None => {
                let post = Post::with_id(id, post_title, post_body);
                let ghost before = self.rows@;
                self.rows.push(post.clone());
                self.shadow = Ghost(self.shadow@.insert(id, post@));
                proof {
                    assert forall|k: int| 0 <= k < self.rows@.len() implies {
                        &&& self.shadow@.contains_key((#[trigger] self.rows@[k]).id)
                        &&& self.shadow@[self.rows@[k].id] == self.rows@[k]@
                    } by {
                        if k < before.len() {
                            assert(self.rows@[k] == before[k]);
                        }
                    }
                    assert forall|key: u128| #[trigger]
                        self.shadow@.contains_key(key) implies exists|k: int|
                        0 <= k < self.rows@.len() && (#[trigger] self.rows@[k]).id == key by {
                        if key == id {
                            assert(self.rows@[before.len() as int].id == key);
                        } else {
                            let k = choose|k: int|
                                0 <= k < before.len() && (#[trigger] before[k]).id == key;
                            assert(self.rows@[k] == before[k]);
                        }
                    }
                    assert forall|j: int, k: int| 0 <= j < k < self.rows@.len() implies (
                    #[trigger] self.rows@[j]).id != (#[trigger] self.rows@[k]).id by {
                        assert(self.rows@[j] == before[j]);
                        if k < before.len() {
                            assert(self.rows@[k] == before[k]);
                        }
                    }
                }
                Ok(post)
            },
        }
    }

    /// The place of the row under `id`, if there is one.
    fn find(&self, id: u128) -> (r: Option<usize>)
        requires
            self.agrees(),
        ensures
            match r {
                Some(k) => k < self.rows@.len() && self.rows@[k as int].id == id
                    && self.shadow@.contains_key(id),
                None => !self.shadow@.contains_key(id),
            },
    {
        let mut i: usize = 0;
        while i < self.rows.len()
            invariant
                self.agrees(),
                i <= self.rows@.len(),
                forall|k: int| 0 <= k < i ==> (#[trigger] self.rows@[k]).id != id,
            decreases self.rows@.len() - i,
        {
            if self.rows[i].id == id {
                return Some(i);
            }
            i += 1;
        }
        None
    }
}

impl DataStoreService for MemoryStore {
    closed spec fn valid(&self) -> bool {
        self.agrees()
    }

    closed spec fn table(&self) -> Table {
        self.shadow@
    }

    open spec fn dependable(&self) -> bool {
        true
    }

    fn get_posts(&mut self, is_published: bool) -> (r: Result<Vec<Post>, StoreError>)
        ensures
            *final(self) == *old(self),
    {
        let mut out: Vec<Post> = Vec::new();
        let ghost mut origin: Seq<int> = Seq::empty();
        let mut i: usize = 0;
        while i < self.rows.len()
            invariant
                self.agrees(),
                i <= self.rows@.len(),
                origin.len() == out@.len(),
                forall|k: int|
                    0 <= k < out@.len() ==> {
                        &&& 0 <= #[trigger] origin[k] < i
                        &&& out@[k]@ == self.rows@[origin[k]]@
                        &&& out@[k].published == is_published
                    },
                forall|j: int, k: int| 0 <= j < k < origin.len() ==> origin[j] < origin[k],
                forall|j: int|
                    0 <= j < i && (#[trigger] self.rows@[j]).published == is_published
                        ==> exists|k: int| 0 <= k < origin.len() && #[trigger] origin[k] == j,
            decreases self.rows@.len() - i,
        {
            if self.rows[i].published == is_published {
                let ghost before = origin;
                out.push(self.rows[i].clone());
                proof {
                    origin = origin.push(i as int);
                    assert forall|j: int|
                        0 <= j < i + 1 && (#[trigger] self.rows@[j]).published
                            == is_published implies exists|k: int|
                        0 <= k < origin.len() && #[trigger] origin[k] == j by {
                        if j < i {
                            let k = choose|k: int| 0 <= k < before.len() && #[trigger] before[k] == j;
                            assert(origin[k] == j);
                        } else {
                            assert(origin[before.len() as int] == j);
                        }
                    }
                }
            }
            i += 1;
        }
        proof {
            let posts = out@;
            let table = self.shadow@;
            assert forall|k: int| 0 <= k < posts.len() implies {
                &&& table.contains_key((#[trigger] posts[k]).id)
                &&& table[posts[k].id] == posts[k]@
                &&& posts[k].published == is_published
            } by {
                assert(posts[k]@ == self.rows@[origin[k]]@);
            }
            assert forall|id: u128|
                #[trigger] table.contains_key(id) && table[id].published
                    == is_published implies exists|k: int|
                0 <= k < posts.len() && (#[trigger] posts[k]).id == id by {
                let j = choose|j: int|
                    0 <= j < self.rows@.len() && (#[trigger] self.rows@[j]).id == id;
                assert(self.rows@[j].published == is_published);
                let k = choose|k: int| 0 <= k < origin.len() && #[trigger] origin[k] == j;
                assert(posts[k]@ == self.rows@[origin[k]]@);
            }
            assert forall|j: int, k: int| 0 <= j < k < posts.len() implies (#[trigger] posts[j]).id
                != (#[trigger] posts[k]).id by {
                assert(posts[j]@ == self.rows@[origin[j]]@);
                assert(posts[k]@ == self.rows@[origin[k]]@);
                assert(origin[j] < origin[k]);
            }
        }
        Ok(out)
    }

    fn create_post(&mut self, post_title: &str, post_body: &str) -> (r: Result<Post, StoreError>)
        ensures
            r matches Ok(post) ==> is_random_form(post.id),
            r matches Err(error) ==> error is WriteFailure && error.description()
                == "identifier already in use"@,
            r is Err ==> holds_random_key(old(self).table()),
            !holds_random_key(old(self).table()) ==> r is Ok,
    {
        let post = Post::fresh(post_title, post_body);
        let result = self.create_with_id(post.id, post.title.as_str(), post.body.as_str());
        proof {
            if result is Err {
                assert(is_random_form(post.id) && old(self).table().contains_key(post.id));
            }
        }
        result
    }

    fn update_post(&mut self, post: &Post) -> (r: Result<usize, StoreError>)
        ensures
            r is Ok,
    {
        match self.find(post.id) {
            Some(k) => {
                let ghost before = self.rows@;
                self.rows.set(k, post.clone());
                self.shadow = Ghost(self.shadow@.insert(post.id, post@));
                proof {
                    assert forall|i: int| 0 <= i < self.rows@.len() implies {
                        &&& self.shadow@.contains_key((#[trigger] self.rows@[i]).id)
                        &&& self.shadow@[self.rows@[i].id] == self.rows@[i]@
                    } by {
                        if i != k {
                            assert(self.rows@[i] == before[i]);
                            assert(before[i].id != before[k as int].id);
                        }
                    }
                    assert forall|key: u128| #[trigger]
                        self.shadow@.contains_key(key) implies exists|i: int|
                        0 <= i < self.rows@.len() && (#[trigger] self.rows@[i]).id == key by {
                        if key == post.id {
                            assert(self.rows@[k as int].id == key);
                        } else {
                            let i = choose|i: int|
                                0 <= i < before.len() && (#[trigger] before[i]).id == key;
                            assert(self.rows@[i] == before[i]);
                        }
                    }
                    assert forall|i: int, j: int| 0 <= i < j < self.rows@.len() implies (
                    #[trigger] self.rows@[i]).id != (#[trigger] self.rows@[j]).id by {
                        assert(self.rows@[i].id == before[i].id);
                        assert(self.rows@[j].id == before[j].id);
                    }
                }
                Ok(1)
            },
            None => Ok(0),
        }
    }

    fn delete_post(&mut self, post_id: u128) -> (r: Result<usize, StoreError>)
        ensures
            r is Ok,
    {
        match self.find(post_id) {
            Some(k) => {
                let ghost before = self.rows@;
                self.rows.remove(k);
                self.shadow = Ghost(self.shadow@.remove(post_id));
                proof {
                    assert forall|i: int| 0 <= i < self.rows@.len() implies {
                        &&& self.shadow@.contains_key((#[trigger] self.rows@[i]).id)
                        &&& self.shadow@[self.rows@[i].id] == self.rows@[i]@
                    } by {
                        if i < k {
                            assert(self.rows@[i] == before[i]);
                            assert(before[i].id != before[k as int].id);
                        } else {
                            assert(self.rows@[i] == before[i + 1]);
                            assert(before[k as int].id != before[i + 1].id);
                        }
                    }
                    assert forall|key: u128| #[trigger]
                        self.shadow@.contains_key(key) implies exists|i: int|
                        0 <= i < self.rows@.len() && (#[trigger] self.rows@[i]).id == key by {
                        let i = choose|i: int|
                            0 <= i < before.len() && (#[trigger] before[i]).id == key;
                        if i < k {
                            assert(self.rows@[i] == before[i]);
                        } else {
                            assert(self.rows@[i - 1] == before[i]);
                        }
                    }
                    assert forall|i: int, j: int| 0 <= i < j < self.rows@.len() implies (
                    #[trigger] self.rows@[i]).id != (#[trigger] self.rows@[j]).id by {
                        let a = if i < k { i } else { i + 1 };
                        let b = if j < k { j } else { j + 1 };
                        assert(self.rows@[i] == before[a]);
                        assert(self.rows@[j] == before[b]);
                    }
                }
                Ok(1)
            },
            None => Ok(0),
        }
    }

    fn get_post(&mut self, post_id: u128) -> (r: Result<Post, StoreError>)
        ensures
            *final(self) == *old(self),
            r is Ok <==> old(self).table().contains_key(post_id),
            r matches Err(error) ==> error is NotFound,
    {
        match self.find(post_id) {
            Some(k) => Ok(self.rows[k].clone()),
            None => Err(StoreError::NotFound),
        }
    }
}

} // verus!
