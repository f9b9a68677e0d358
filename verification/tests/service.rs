use simple_crud::memory::MemoryStore;
use simple_crud::models::Post;
use simple_crud::posts::{
    CreatePostRequest, DeletePostRequest, GetPostRequest, PostListRequest, UpdatePostRequest,
};
use simple_crud::server::{
    create_reply, decode_id, get_reply, identifier_or_status, list_reply, success_reply,
    PostsServiceImp,
};
use simple_crud::status::{Code, Status};
use simple_crud::store::{DataStoreService, StoreError};
use uuid::Uuid;

/// A store that counts the calls it gets and answers each with what it was
/// given beforehand.
struct ScriptedStore {
    calls: usize,
    list: Option<Result<Vec<Post>, StoreError>>,
    created: Option<Result<Post, StoreError>>,
    count: Option<Result<usize, StoreError>>,
    found: Option<Result<Post, StoreError>>,
    seen_flag: Option<bool>,
    seen_post: Option<Post>,
    seen_id: Option<u128>,
}

impl ScriptedStore {
    fn new() -> Self {
        ScriptedStore {
            calls: 0,
            list: None,
            created: None,
            count: None,
            found: None,
            seen_flag: None,
            seen_post: None,
            seen_id: None,
        }
    }
}

impl DataStoreService for ScriptedStore {
    fn get_posts(&mut self, is_published: bool) -> Result<Vec<Post>, StoreError> {
        self.calls += 1;
        self.seen_flag = Some(is_published);
        self.list.take().unwrap()
    }

    fn create_post(&mut self, _post_title: &str, _post_body: &str) -> Result<Post, StoreError> {
        self.calls += 1;
        self.created.take().unwrap()
    }

    fn update_post(&mut self, post: &Post) -> Result<usize, StoreError> {
        self.calls += 1;
        self.seen_post = Some(post.clone());
        self.count.take().unwrap()
    }

    fn delete_post(&mut self, post_id: u128) -> Result<usize, StoreError> {
        self.calls += 1;
        self.seen_id = Some(post_id);
        self.count.take().unwrap()
    }

    fn get_post(&mut self, post_id: u128) -> Result<Post, StoreError> {
        self.calls += 1;
        self.seen_id = Some(post_id);
        self.found.take().unwrap()
    }
}

fn memory_service() -> PostsServiceImp<MemoryStore> {
    PostsServiceImp::new(Box::new(MemoryStore::new()))
}

fn wire_post(id: &str, title: &str, body: &str, published: bool) -> simple_crud::posts::Post {
    simple_crud::posts::Post {
        id: id.to_string(),
        title: title.to_string(),
        body: body.to_string(),
        published,
    }
}

fn create(service: &mut PostsServiceImp<MemoryStore>, title: &str, body: &str) -> String {
    service
        .create_post(CreatePostRequest { title: title.to_string(), body: body.to_string() })
        .unwrap()
        .id
}

fn expect_status<T>(result: Result<T, Status>, code: Code, message: &str) {
    match result {
        Ok(_) => panic!("a failure was expected"),
        Err(status) => {
            assert_eq!(status.code, code);
            assert_eq!(status.message, message);
        }
    }
}

#[test]
fn get_post_list() {
    let mut store_mock = ScriptedStore::new();
    let mut posts: Vec<Post> = Vec::new();
    let uuid = Uuid::new_v4();
    let mock_post = Post {
        id: uuid.as_u128(),
        title: "title".to_string(),
        body: "body".to_string(),
        published: true,
    };
    let id = uuid.to_string();
    posts.push(mock_post);
    store_mock.list = Some(Ok(posts));

    let mut server = PostsServiceImp::new(Box::new(store_mock));
    let req = PostListRequest { published: true };
    let response = server.get_post_list(req);

    match response {
        Ok(posts) => {
            let posts = posts.posts;
            let post = posts.get(0).unwrap();
            assert_eq!(post.id, id)
        }
        Err(err) => panic!("{}", err.message),
    }
    assert_eq!(server.store.seen_flag, Some(true));
    assert_eq!(server.store.calls, 1);
}

#[test]
fn list_keeps_every_field_and_the_order() {
    let posts = vec![
        Post { id: 1, title: "a".to_string(), body: "x".to_string(), published: false },
        Post { id: 2, title: "b".to_string(), body: "y".to_string(), published: false },
    ];
    let response = list_reply(Ok(posts)).unwrap();
    assert_eq!(response.posts.len(), 2);
    assert_eq!(response.posts[0].id, "00000000-0000-0000-0000-000000000001");
    assert_eq!(response.posts[0].title, "a");
    assert_eq!(response.posts[0].body, "x");
    assert!(!response.posts[0].published);
    assert_eq!(response.posts[1].id, "00000000-0000-0000-0000-000000000002");
    assert_eq!(response.posts[1].title, "b");
}

#[test]
fn identifier_text_is_hyphenated_lower_case() {
    let post = Post {
        id: 0xa1a2a3a4_b1b2_c1c2_d1d2_d3d4d5d6d7d8u128,
        title: String::new(),
        body: String::new(),
        published: true,
    };
    let wire = simple_crud::posts::to_wire(&post);
    assert_eq!(wire.id, "a1a2a3a4-b1b2-c1c2-d1d2-d3d4d5d6d7d8");
    let response = create_reply(Ok(post)).unwrap();
    assert_eq!(response.id, "a1a2a3a4-b1b2-c1c2-d1d2-d3d4d5d6d7d8");
}

#[test]
fn identifier_is_read_from_its_text() {
    let value = 0xa1a2a3a4_b1b2_c1c2_d1d2_d3d4d5d6d7d8u128;
    assert_eq!(decode_id("a1a2a3a4-b1b2-c1c2-d1d2-d3d4d5d6d7d8").unwrap(), value);
    assert_eq!(decode_id("A1A2A3A4-B1B2-C1C2-D1D2-D3D4D5D6D7D8").unwrap(), value);
    assert_eq!(decode_id("a1a2a3a4b1b2c1c2d1d2d3d4d5d6d7d8").unwrap(), value);
    assert_eq!(decode_id("urn:uuid:a1a2a3a4-b1b2-c1c2-d1d2-d3d4d5d6d7d8").unwrap(), value);
    expect_status(decode_id("not-a-uuid"), Code::Internal, "Cannot parse post_id to UUID");
    expect_status(decode_id(""), Code::Internal, "Cannot parse post_id to UUID");
    expect_status(
        decode_id("a1a2a3a4-b1b2-c1c2-d1d2-d3d4d5d6d7d"),
        Code::Internal,
        "Cannot parse post_id to UUID",
    );
}

#[test]
fn parsed_identifier_or_status() {
    assert_eq!(identifier_or_status(Some(7)).unwrap(), 7);
    expect_status(identifier_or_status(None), Code::Internal, "Cannot parse post_id to UUID");
}

#[test]
fn status_constructors() {
    let internal = Status::internal("boom".to_string());
    assert_eq!(internal.code, Code::Internal);
    assert_eq!(internal.message, "boom");
    let missing = Status::not_found("gone".to_string());
    assert_eq!(missing.code, Code::NotFound);
    assert_eq!(missing.message, "gone");
}

#[test]
fn store_error_descriptions() {
    assert_eq!(StoreError::NotFound.describe(), "Record not found");
    assert_eq!(StoreError::BackendUnavailable("timed out".to_string()).describe(), "timed out");
    assert_eq!(StoreError::QueryFailure("bad query".to_string()).describe(), "bad query");
    assert_eq!(StoreError::WriteFailure("bad write".to_string()).describe(), "bad write");
}

#[test]
fn create_then_get() {
    let mut service = memory_service();
    let id = create(&mut service, "t", "b");
    let post = service.get_post(GetPostRequest { id: id.clone() }).unwrap().post.unwrap();
    assert_eq!(post.id, id);
    assert_eq!(post.title, "t");
    assert_eq!(post.body, "b");
    assert!(post.published);
}

#[test]
fn created_identifier_is_a_random_uuid() {
    let mut service = memory_service();
    let first = create(&mut service, "t", "b");
    let second = create(&mut service, "t", "b");
    assert_ne!(first, second);
    assert_eq!(first.len(), 36);
    let parsed = Uuid::parse_str(&first).unwrap();
    assert_eq!(parsed.get_version_num(), 4);
    assert_eq!(first.as_bytes()[14], b'4');
    assert!(matches!(first.as_bytes()[19], b'8' | b'9' | b'a' | b'b'));
}

#[test]
fn get_after_create_equals_what_create_returned() {
    let mut store = MemoryStore::new();
    let created = store.create_post("title", "body").unwrap();
    let other = store.create_post("other", "text").unwrap();
    let read = store.get_post(created.id).unwrap();
    assert_eq!(read.id, created.id);
    assert_eq!(read.title, created.title);
    assert_eq!(read.body, created.body);
    assert_eq!(read.published, created.published);
    assert_eq!(read.title, "title");
    assert_eq!(read.body, "body");
    assert!(read.published);
    assert_ne!(other.id, created.id);
}

#[test]
fn update_then_get() {
    let mut service = memory_service();
    let id = create(&mut service, "t", "b");
    let response = service
        .update_post(UpdatePostRequest { post: Some(wire_post(&id, "t2", "b2", false)) })
        .unwrap();
    assert!(response.success);
    let post = service.get_post(GetPostRequest { id: id.clone() }).unwrap().post.unwrap();
    assert_eq!(post.id, id);
    assert_eq!(post.title, "t2");
    assert_eq!(post.body, "b2");
    assert!(!post.published);
}

#[test]
fn delete_then_get() {
    let mut service = memory_service();
    let id = create(&mut service, "t", "b");
    let kept = create(&mut service, "k", "k");
    let response = service.delete_post(DeletePostRequest { id: id.clone() }).unwrap();
    assert!(response.success);
    expect_status(service.get_post(GetPostRequest { id }), Code::NotFound, "Post not found");
    let post = service.get_post(GetPostRequest { id: kept }).unwrap().post.unwrap();
    assert_eq!(post.title, "k");
}

#[test]
fn get_of_unknown_identifier_is_not_found() {
    let mut service = memory_service();
    create(&mut service, "t", "b");
    let unknown = Uuid::new_v4().to_string();
    expect_status(service.get_post(GetPostRequest { id: unknown }), Code::NotFound, "Post not found");
}

#[test]
fn update_and_delete_of_unknown_identifier_report_no_success() {
    let mut service = memory_service();
    let id = create(&mut service, "t", "b");
    let unknown = Uuid::new_v4().to_string();
    let updated = service
        .update_post(UpdatePostRequest { post: Some(wire_post(&unknown, "x", "y", false)) })
        .unwrap();
    assert!(!updated.success);
    let deleted = service.delete_post(DeletePostRequest { id: unknown }).unwrap();
    assert!(!deleted.success);
    let post = service.get_post(GetPostRequest { id }).unwrap().post.unwrap();
    assert_eq!(post.title, "t");
}

#[test]
fn malformed_identifier_never_reaches_the_store() {
    let mut service = PostsServiceImp::new(Box::new(ScriptedStore::new()));
    expect_status(
        service.update_post(UpdatePostRequest { post: Some(wire_post("nope", "x", "y", true)) }),
        Code::Internal,
        "Cannot parse post_id to UUID",
    );
    expect_status(
        service.delete_post(DeletePostRequest { id: "1234".to_string() }),
        Code::Internal,
        "Cannot parse post_id to UUID",
    );
    assert_eq!(service.store.calls, 0);
}

#[test]
fn get_with_malformed_identifier() {
    let mut service = PostsServiceImp::new(Box::new(ScriptedStore::new()));
    expect_status(
        service.get_post(GetPostRequest { id: "not-a-uuid".to_string() }),
        Code::Internal,
        "Cannot parse post_id to UUID",
    );
    assert_eq!(service.store.calls, 0);
}

#[test]
fn list_gives_only_the_requested_flag() {
    let mut service = memory_service();
    let first = create(&mut service, "one", "1");
    let second = create(&mut service, "two", "2");
    let third = create(&mut service, "three", "3");
    service
        .update_post(UpdatePostRequest { post: Some(wire_post(&second, "two", "2", false)) })
        .unwrap();
    let published = service.get_post_list(PostListRequest { published: true }).unwrap().posts;
    assert_eq!(published.len(), 2);
    assert!(published.iter().all(|post| post.published));
    assert!(published.iter().any(|post| post.id == first));
    assert!(published.iter().any(|post| post.id == third));
    let drafts = service.get_post_list(PostListRequest { published: false }).unwrap().posts;
    assert_eq!(drafts.len(), 1);
    assert!(!drafts[0].published);
    assert_eq!(drafts[0].id, second);
    assert_eq!(drafts[0].title, "two");
}

#[test]
fn list_of_empty_store_is_empty() {
    let mut service = memory_service();
    assert!(service.get_post_list(PostListRequest { published: true }).unwrap().posts.is_empty());
    assert!(service.get_post_list(PostListRequest { published: false }).unwrap().posts.is_empty());
}

#[test]
fn update_hands_the_whole_post_to_the_store() {
    let mut store = ScriptedStore::new();
    store.count = Some(Ok(1));
    let mut service = PostsServiceImp::new(Box::new(store));
    let text = "a1a2a3a4-b1b2-c1c2-d1d2-d3d4d5d6d7d8";
    let response = service
        .update_post(UpdatePostRequest { post: Some(wire_post(text, "t2", "b2", false)) })
        .unwrap();
    assert!(response.success);
    let seen = service.store.seen_post.take().unwrap();
    assert_eq!(seen.id, 0xa1a2a3a4_b1b2_c1c2_d1d2_d3d4d5d6d7d8u128);
    assert_eq!(seen.title, "t2");
    assert_eq!(seen.body, "b2");
    assert!(!seen.published);
    assert_eq!(service.store.calls, 1);
}

#[test]
fn delete_and_get_hand_the_parsed_identifier_to_the_store() {
    let text = "a1a2a3a4-b1b2-c1c2-d1d2-d3d4d5d6d7d8";
    let value = 0xa1a2a3a4_b1b2_c1c2_d1d2_d3d4d5d6d7d8u128;
    let mut store = ScriptedStore::new();
    store.count = Some(Ok(0));
    let mut service = PostsServiceImp::new(Box::new(store));
    let response = service.delete_post(DeletePostRequest { id: text.to_string() }).unwrap();
    assert!(!response.success);
    assert_eq!(service.store.seen_id, Some(value));

    let mut store = ScriptedStore::new();
    store.found = Some(Err(StoreError::NotFound));
    let mut service = PostsServiceImp::new(Box::new(store));
    expect_status(
        service.get_post(GetPostRequest { id: text.to_string() }),
        Code::NotFound,
        "Post not found",
    );
    assert_eq!(service.store.seen_id, Some(value));
}

#[test]
fn storage_failures_become_internal() {
    let mut store = ScriptedStore::new();
    store.list = Some(Err(StoreError::BackendUnavailable("pool timed out".to_string())));
    store.created = Some(Err(StoreError::WriteFailure("insert failed".to_string())));
    store.count = Some(Err(StoreError::WriteFailure("update failed".to_string())));
    store.found = Some(Err(StoreError::QueryFailure("select failed".to_string())));
    let mut service = PostsServiceImp::new(Box::new(store));
    let text = "a1a2a3a4-b1b2-c1c2-d1d2-d3d4d5d6d7d8";
    expect_status(
        service.get_post_list(PostListRequest { published: true }),
        Code::Internal,
        "pool timed out",
    );
    expect_status(
        service.create_post(CreatePostRequest { title: "t".to_string(), body: "b".to_string() }),
        Code::Internal,
        "insert failed",
    );
    expect_status(
        service.update_post(UpdatePostRequest { post: Some(wire_post(text, "t", "b", true)) }),
        Code::Internal,
        "update failed",
    );
    expect_status(
        service.get_post(GetPostRequest { id: text.to_string() }),
        Code::Internal,
        "select failed",
    );
    assert_eq!(service.store.calls, 4);
}

#[test]
fn replies_classify_each_failure() {
    expect_status(list_reply(Err(StoreError::NotFound)), Code::Internal, "Record not found");
    expect_status(create_reply(Err(StoreError::NotFound)), Code::Internal, "Record not found");
    expect_status(success_reply(Err(StoreError::NotFound)), Code::Internal, "Record not found");
    expect_status(get_reply(Err(StoreError::NotFound)), Code::NotFound, "Post not found");
    expect_status(
        get_reply(Err(StoreError::BackendUnavailable("no connection".to_string()))),
        Code::Internal,
        "no connection",
    );
    expect_status(
        success_reply(Err(StoreError::BackendUnavailable("no connection".to_string()))),
        Code::Internal,
        "no connection",
    );
}

#[test]
fn success_follows_the_count() {
    assert!(!success_reply(Ok(0)).unwrap().success);
    assert!(success_reply(Ok(1)).unwrap().success);
    assert!(success_reply(Ok(2)).unwrap().success);
}

#[test]
fn memory_store_counts_affected_rows() {
    let mut store = MemoryStore::new();
    let created = store.create_post("t", "b").unwrap();
    let absent = Post {
        id: created.id ^ 1,
        title: "x".to_string(),
        body: "y".to_string(),
        published: false,
    };
    assert_eq!(store.update_post(&absent).unwrap(), 0);
    assert_eq!(store.delete_post(absent.id).unwrap(), 0);
    assert!(matches!(store.get_post(absent.id), Err(StoreError::NotFound)));
    let replaced = Post {
        id: created.id,
        title: "t2".to_string(),
        body: "b2".to_string(),
        published: false,
    };
    assert_eq!(store.update_post(&replaced).unwrap(), 1);
    assert_eq!(store.get_posts(false).unwrap().len(), 1);
    assert_eq!(store.get_posts(true).unwrap().len(), 0);
    assert_eq!(store.delete_post(created.id).unwrap(), 1);
    assert_eq!(store.delete_post(created.id).unwrap(), 0);
    assert!(store.get_posts(false).unwrap().is_empty());
    assert!(store.get_posts(true).unwrap().is_empty());
}

#[test]
fn create_under_a_taken_identifier_fails() {
    let mut store = MemoryStore::new();
    let first = store.create_with_id(7, "t", "b").unwrap();
    assert_eq!(first.id, 7);
    assert_eq!(first.title, "t");
    assert_eq!(first.body, "b");
    assert!(first.published);
    match store.create_with_id(7, "x", "y") {
        Ok(_) => panic!("a failure was expected"),
        Err(error) => {
            assert!(matches!(error, StoreError::WriteFailure(_)));
            assert_eq!(error.describe(), "identifier already in use");
        }
    }
    let kept = store.get_post(7).unwrap();
    assert_eq!(kept.title, "t");
    assert_eq!(store.get_posts(true).unwrap().len(), 1);
    expect_status(create_reply(store.create_with_id(7, "x", "y")), Code::Internal, "identifier already in use");
}

#[test]
fn new_posts_are_published() {
    let post = Post::with_id(9, "title", "body");
    assert_eq!(post.id, 9);
    assert_eq!(post.title, "title");
    assert_eq!(post.body, "body");
    assert!(post.published);
    let fresh = Post::fresh("t", "b");
    assert_eq!(fresh.title, "t");
    assert_eq!(fresh.body, "b");
    assert!(fresh.published);
    assert_eq!(Uuid::from_u128(fresh.id).get_version_num(), 4);
    assert_ne!(Post::fresh("t", "b").id, fresh.id);
}

#[test]
fn create_succeeds_beside_rows_that_no_draw_can_give() {
    let mut store = MemoryStore::new();
    assert!(store.create_post("first", "1").is_ok());
    let mut store = MemoryStore::new();
    store.create_with_id(0, "zero", "0").unwrap();
    store.create_with_id(7, "seven", "7").unwrap();
    let created = store.create_post("t", "b").unwrap();
    assert_ne!(created.id, 0);
    assert_ne!(created.id, 7);
    assert_eq!(Uuid::from_u128(created.id).get_version_num(), 4);
    assert_eq!(store.get_posts(true).unwrap().len(), 3);
    let mut service = PostsServiceImp::new(Box::new(store));
    let response = service
        .create_post(CreatePostRequest { title: "t".to_string(), body: "b".to_string() })
        .unwrap();
    assert_eq!(response.id.len(), 36);
}
