use blog_posts::errors::AppError;
use blog_posts::handlers::create_post_core;
use blog_posts::handlers::create_post_handler;
use blog_posts::handlers::health_handler;
use blog_posts::handlers::list_posts_handler;
use blog_posts::post::CreatePostRequest;
use blog_posts::store::BlogPosts;

fn request(title: &str, description: &str, image_url: Option<&str>, content: &str) -> CreatePostRequest {
    CreatePostRequest {
        title: title.to_string(),
        description: description.to_string(),
        image_url: image_url.map(|u| u.to_string()),
        content: content.to_string(),
    }
}

#[test]
fn create_valid_post_returns_created() {
    let mut store = BlogPosts::new();
    let req = request("First post", "A long enough description", None, "Hello, world");
    let resp = create_post_handler(&mut store, req).expect("valid request must succeed");
    assert_eq!(resp.status_code, 201);
    assert_eq!(resp.message, "Post created successfully 🚀");
    assert_eq!(resp.data.title, "First post");
    assert_eq!(resp.data.description, "A long enough description");
    assert_eq!(resp.data.content, "Hello, world");
    assert_eq!(store.len(), 1);
}

#[test]
fn create_post_generates_distinct_ids() {
    let mut store = BlogPosts::new();
    let first = create_post_handler(&mut store, request("a", "abcde", None, "x"))
        .expect("valid request must succeed");
    let second = create_post_handler(&mut store, request("b", "fghij", None, "y"))
        .expect("valid request must succeed");
    assert_ne!(first.data.id, second.data.id);
    assert_eq!(store.len(), 2);
}

#[test]
fn empty_title_is_rejected() {
    let mut store = BlogPosts::new();
    let result = create_post_handler(&mut store, request("", "abcde", None, "x"));
    match result {
        Err(AppError::ValidationError(failure)) => {
            assert_eq!(failure.fields.len(), 1);
            assert_eq!(failure.fields[0].field, "title");
            assert_eq!(failure.fields[0].messages, vec!["Title cannot be empty".to_string()]);
        }
        _ => panic!("an empty title must be rejected as a validation error"),
    }
    assert_eq!(store.len(), 0);
}

#[test]
fn short_description_is_rejected() {
    let mut store = BlogPosts::new();
    let result = create_post_handler(&mut store, request("t", "abcd", None, "x"));
    match result {
        Err(AppError::ValidationError(failure)) => {
            assert_eq!(failure.fields.len(), 1);
            assert_eq!(failure.fields[0].field, "description");
            assert_eq!(
                failure.fields[0].messages,
                vec!["Description must be at least 5 characters long".to_string()]
            );
        }
        _ => panic!("a short description must be rejected as a validation error"),
    }
    assert_eq!(store.len(), 0);
}

#[test]
fn both_invalid_fields_are_cited() {
    let mut store = BlogPosts::new();
    let result = create_post_handler(&mut store, request("", "abc", None, "x"));
    match result {
        Err(AppError::ValidationError(failure)) => {
            assert_eq!(failure.fields.len(), 2);
            assert_eq!(failure.fields[0].field, "title");
            assert_eq!(failure.fields[1].field, "description");
        }
        _ => panic!("both fields must be cited"),
    }
}

#[test]
fn omitted_image_url_gets_placeholder() {
    let mut store = BlogPosts::new();
    let resp = create_post_handler(&mut store, request("t", "abcde", None, "x"))
        .expect("valid request must succeed");
    assert_eq!(resp.data.image_url, "https://placehold.net/400x400.png");
    let listed = list_posts_handler(&store);
    assert_eq!(listed.data.len(), 1);
    assert_eq!(listed.data[0].image_url, "https://placehold.net/400x400.png");
}

#[test]
fn provided_image_url_is_kept() {
    let mut store = BlogPosts::new();
    let resp = create_post_handler(
        &mut store,
        request("t", "abcde", Some("https://example.com/cat.png"), "x"),
    )
    .expect("valid request must succeed");
    assert_eq!(resp.data.image_url, "https://example.com/cat.png");
}

#[test]
fn timestamps_are_set_once_and_equal() {
    let mut store = BlogPosts::new();
    let resp = create_post_handler(&mut store, request("t", "abcde", None, "x"))
        .expect("valid request must succeed");
    assert_eq!(resp.data.created_at, resp.data.updated_at);
}

#[test]
fn two_creates_then_list_returns_both() {
    let mut store = BlogPosts::new();
    let first = create_post_handler(&mut store, request("one", "first post", None, "body one"))
        .expect("valid request must succeed");
    let second = create_post_handler(&mut store, request("two", "second post", None, "body two"))
        .expect("valid request must succeed");
    let listed = list_posts_handler(&store);
    assert_eq!(listed.status_code, 200);
    assert_eq!(listed.message, "Posts retrieved successfully");
    assert_eq!(listed.data.len(), 2);
    for post in &listed.data {
        if post.id == first.data.id {
            assert_eq!(post.title, "one");
            assert_eq!(post.description, "first post");
            assert_eq!(post.content, "body one");
        } else {
            assert_eq!(post.id, second.data.id);
            assert_eq!(post.title, "two");
            assert_eq!(post.description, "second post");
            assert_eq!(post.content, "body two");
        }
    }
}

#[test]
fn health_check_is_fixed_regardless_of_store() {
    assert_eq!(health_handler(), "App sarted running successfully!");
    let mut store = BlogPosts::new();
    create_post_handler(&mut store, request("t", "abcde", None, "x"))
        .expect("valid request must succeed");
    assert_eq!(health_handler(), "App sarted running successfully!");
}

#[test]
fn create_core_rejects_taken_identifier() {
    let mut store = BlogPosts::new();
    create_post_core(&mut store, request("t", "abcde", None, "x"), 7, "now".to_string())
        .expect("a free identifier must succeed");
    let result = create_post_core(&mut store, request("u", "fghij", None, "y"), 7, "later".to_string());
    match result {
        Err(AppError::BadRequest(message)) => {
            assert_eq!(message, "An Error Occured while creating post");
        }
        _ => panic!("a taken identifier must fail as a bad request"),
    }
    assert_eq!(store.len(), 1);
}

#[test]
fn many_successful_creates_keep_store_consistent() {
    let mut store = BlogPosts::new();
    let mut ids = Vec::new();
    for i in 0..10 {
        let resp = create_post_handler(
            &mut store,
            request(&format!("title {i}"), &format!("description {i}"), None, "body"),
        )
        .expect("valid request must succeed");
        ids.push(resp.data.id);
    }
    assert_eq!(store.len(), 10);
    let listed = list_posts_handler(&store);
    assert_eq!(listed.data.len(), 10);
    for a in 0..ids.len() {
        for b in (a + 1)..ids.len() {
            assert_ne!(ids[a], ids[b]);
        }
    }
}
