use blog_posts::config::resolve_port;
use blog_posts::errors::AppError;
use blog_posts::errors::ErrorResponse;
use blog_posts::errors::ResponseBody;
use blog_posts::errors::ValidationFailure;
use blog_posts::errors::response_parts_at;
use blog_posts::post::CreatePostRequest;
use blog_posts::store::BlogPosts;
use blog_posts::validate::validate_create_post_request;

#[test]
fn port_parses_exact_values() {
    assert_eq!(resolve_port(Some("8080")), 8080);
    assert_eq!(resolve_port(Some("0")), 0);
    assert_eq!(resolve_port(Some("65535")), 65535);
    assert_eq!(resolve_port(Some("+80")), 80);
    assert_eq!(resolve_port(Some("0080")), 80);
}

#[test]
fn port_falls_back_to_default() {
    assert_eq!(resolve_port(None), 8080);
    assert_eq!(resolve_port(Some("")), 8080);
    assert_eq!(resolve_port(Some("+")), 8080);
    assert_eq!(resolve_port(Some("65536")), 8080);
    assert_eq!(resolve_port(Some("abc")), 8080);
    assert_eq!(resolve_port(Some("80a")), 8080);
    assert_eq!(resolve_port(Some("-1")), 8080);
    assert_eq!(resolve_port(Some("999999999999999999999")), 8080);
}

#[test]
fn status_codes_match_error_kinds() {
    assert_eq!(AppError::BadRequest("m".to_string()).status_code(), 400);
    assert_eq!(AppError::NotFound("m".to_string()).status_code(), 404);
    assert_eq!(AppError::InternalServer("m".to_string()).status_code(), 500);
    assert_eq!(AppError::UnAuthorized("m".to_string()).status_code(), 401);
    assert_eq!(
        AppError::ValidationError(ValidationFailure { fields: Vec::new() }).status_code(),
        400
    );
}

#[test]
fn error_envelope_keeps_message_and_is_unsuccessful() {
    let (status, body) = response_parts_at(
        AppError::NotFound("Environment variable PORT not found".to_string()),
        "2024-01-01T00:00:00+00:00".to_string(),
    );
    assert_eq!(status, 404);
    match body {
        ResponseBody::Error(envelope) => {
            assert_eq!(envelope.message, "Environment variable PORT not found");
            assert_eq!(envelope.status_code, 404);
            assert_eq!(envelope.timestamp, "2024-01-01T00:00:00+00:00");
            assert!(!envelope.success);
        }
        ResponseBody::Validation(_) => panic!("a not-found error renders the error envelope"),
    }
}

#[test]
fn validation_envelope_keeps_fields() {
    let req = CreatePostRequest {
        title: String::new(),
        description: "abcde".to_string(),
        image_url: None,
        content: String::new(),
    };
    let failure = validate_create_post_request(&req).expect_err("empty title must fail");
    let (status, body) = response_parts_at(
        AppError::ValidationError(failure),
        "2024-01-01T00:00:00+00:00".to_string(),
    );
    assert_eq!(status, 400);
    match body {
        ResponseBody::Validation(envelope) => {
            assert_eq!(envelope.fields.len(), 1);
            assert_eq!(envelope.fields[0].field, "title");
            assert_eq!(envelope.status_code, 400);
            assert!(!envelope.success);
        }
        ResponseBody::Error(_) => panic!("a validation error renders the validation envelope"),
    }
}

#[test]
fn error_response_new_sets_fields() {
    let envelope = ErrorResponse::new("oops".to_string(), 500, "ts".to_string());
    assert_eq!(envelope.message, "oops");
    assert_eq!(envelope.status_code, 500);
    assert_eq!(envelope.timestamp, "ts");
    assert!(!envelope.success);
}

#[test]
fn validation_accepts_boundary_lengths() {
    let req = CreatePostRequest {
        title: "a".to_string(),
        description: "abcde".to_string(),
        image_url: None,
        content: String::new(),
    };
    assert!(validate_create_post_request(&req).is_ok());
    let shorter = CreatePostRequest {
        title: "a".to_string(),
        description: "abcd".to_string(),
        image_url: None,
        content: String::new(),
    };
    assert!(validate_create_post_request(&shorter).is_err());
}

#[test]
fn store_duplicate_create_reports_exact_message() {
    let mut store = BlogPosts::new();
    let post = blog_posts::post::build_post(
        CreatePostRequest {
            title: "t".to_string(),
            description: "abcde".to_string(),
            image_url: None,
            content: "c".to_string(),
        },
        42,
        "now".to_string(),
    );
    let again = post.clone();
    store.create_post(post).expect("a free identifier must succeed");
    match store.create_post(again) {
        Err(AppError::BadRequest(message)) => {
            let rendered = uuid::Uuid::from_u128(42).to_string();
            assert_eq!(message, format!("Post with ID: {rendered} already Exists"));
        }
        _ => panic!("a duplicate identifier must fail"),
    }
}

#[test]
fn get_all_posts_lists_each_post_once() {
    let mut store = BlogPosts::new();
    for id in [3u128, 1, 2] {
        let post = blog_posts::post::build_post(
            CreatePostRequest {
                title: format!("t{id}"),
                description: "abcde".to_string(),
                image_url: None,
                content: String::new(),
            },
            id,
            "now".to_string(),
        );
        store.create_post(post).expect("a free identifier must succeed");
    }
    let mut posts = store.get_all_posts();
    assert_eq!(posts.len(), 3);
    posts.sort_by_key(|p| p.id);
    for (expected, post) in [1u128, 2, 3].iter().zip(posts.iter()) {
        assert_eq!(post.id, *expected);
        assert_eq!(post.title, format!("t{expected}"));
    }
}

#[test]
fn identifier_renders_like_a_uuid() {
    let id: u128 = 0xa1a2a3a4b1b2c1c2d1d2d3d4d5d6d7d8;
    assert_eq!(
        blog_posts::post::hyphenated_id_string(id),
        "a1a2a3a4-b1b2-c1c2-d1d2-d3d4d5d6d7d8"
    );
    assert_eq!(
        blog_posts::post::hyphenated_id_string(id),
        uuid::Uuid::from_u128(id).to_string()
    );
    assert_eq!(
        blog_posts::post::hyphenated_id_string(0),
        uuid::Uuid::from_u128(0).to_string()
    );
    assert_eq!(
        blog_posts::post::hyphenated_id_string(u128::MAX),
        uuid::Uuid::from_u128(u128::MAX).to_string()
    );
}
