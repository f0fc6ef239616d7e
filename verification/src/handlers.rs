//! The request handlers' logic: create a post, list all posts, health check.
//!
//! The create path validates the payload, builds the post under a fresh
//! identifier and the current instant, and inserts it into the store; the
//! list path copies every stored post out. The HTTP layer around these
//! functions only decodes the payload, holds the store's lock for the call,
//! and encodes what they return.

use vstd::prelude::*;
use crate::errors::AppError;
use crate::errors::STATUS_CREATED;
use crate::errors::STATUS_OK;
use crate::ext::fresh_post_id;
use crate::ext::local_now_rfc3339;
use crate::post::CreatePostRequest;
use crate::post::Post;
use crate::post::spec_default_image_url;
use crate::store::BlogPosts;
use crate::validate::spec_failure_for;
use crate::validate::spec_valid_request;
use crate::validate::validate_create_post_request;

verus! {

/// The uniform envelope of a successful response: the data, the HTTP status
/// code, and a human-readable message.
pub struct ApiResponse<T> {
    pub data: T,
    pub status_code: u16,
    pub message: String,
}

/// The message of a successful create response.
pub open spec fn spec_created_message() -> Seq<char> {
    "Post created successfully 🚀"@
}

/// The message of a failed insertion.
pub open spec fn spec_create_failed_message() -> Seq<char> {
    "An Error Occured while creating post"@
}

/// The message of a successful list response.
pub open spec fn spec_listed_message() -> Seq<char> {
    "Posts retrieved successfully"@
}

/// The post a successful create response carries for a request, a fresh
/// identifier and an instant: every submitted field kept, the placeholder
/// image URL when none was submitted, and both timestamps the given instant.
pub open spec fn spec_created_post(
    request: &CreatePostRequest,
    id: u128,
    now: Seq<char>,
    p: Post,
) -> bool {
    &&& p.id == id
    &&& p.title == request.title
    &&& p.description == request.description
    &&& p.content == request.content
    &&& p.created_at@ == now
    &&& p.updated_at@ == now
    &&& match request.image_url {
        Some(url) => p.image_url == url,
        None => p.image_url@ == spec_default_image_url(),
    }
}

/// The create path after the fresh identifier and the current instant are
/// drawn: validates the request, builds the post, and inserts it. Rejects
/// an invalid request with the validation failure, leaving the store
/// untouched; fails with a bad request exactly when the identifier is
/// already taken; otherwise returns the created envelope and stores the
/// returned post under the identifier.
pub fn create_post_core(
    store: &mut BlogPosts,
    post_request: CreatePostRequest,
    id: u128,
    now: String,
) -> (r: Result<ApiResponse<Post>, AppError>)
    requires
        old(store).wf(),
    ensures
        final(store).wf(),
        !spec_valid_request(&post_request) ==> final(store)@ == old(store)@ && (
        r matches Err(AppError::ValidationError(f)) && spec_failure_for(&post_request, f)),
        spec_valid_request(&post_request) ==> match r {
            Ok(resp) => {
                &&& !old(store)@.contains_key(id)
                &&& final(store)@ == old(store)@.insert(id, resp.data)
                &&& spec_created_post(&post_request, id, now@, resp.data)
                &&& resp.status_code == STATUS_CREATED
                &&& resp.message@ == spec_created_message()
            },
            Err(e) => {
                &&& old(store)@.contains_key(id)
                &&& final(store)@ == old(store)@
                &&& (e matches AppError::BadRequest(msg) && msg@ == spec_create_failed_message())
            },
        },
{
    match validate_create_post_request(&post_request) {
        Ok(()) => {},
        Err(failure) => {
            return Err(AppError::ValidationError(failure));
        },
    }
    let new_post = crate::post::build_post(post_request, id, now);
    let data = new_post.clone();
    match store.create_post(new_post) {
        Ok(()) => Ok(
            ApiResponse {
                data,
                status_code: STATUS_CREATED,
                message: "Post created successfully 🚀".to_string(),
            },
        ),
        Err(_) => Err(
            AppError::BadRequest("An Error Occured while creating post".to_string()),
        ),
    }
}

/// Serves a create-post request: draws a fresh identifier and the current
/// instant, then runs the create path on them. An invalid request is
/// rejected exactly as by the validation; a valid one either comes back as
/// a created envelope whose post is now stored under its identifier, which
/// was free before, or — only when the drawn identifier was already taken —
/// as a bad request that leaves the store untouched. In particular, a
/// valid request against a store that holds nothing cannot fail.
pub fn create_post_handler(store: &mut BlogPosts, post_request: CreatePostRequest) -> (r: Result<
    ApiResponse<Post>,
    AppError,
>)
    requires
        old(store).wf(),
    ensures
        final(store).wf(),
        !spec_valid_request(&post_request) ==> final(store)@ == old(store)@ && (
        r matches Err(AppError::ValidationError(f)) && spec_failure_for(&post_request, f)),
        spec_valid_request(&post_request) ==> match r {
            Ok(resp) => {
                &&& !old(store)@.contains_key(resp.data.id)
                &&& final(store)@ == old(store)@.insert(resp.data.id, resp.data)
                &&& spec_created_post(&post_request, resp.data.id, resp.data.created_at@, resp.data)
                &&& resp.status_code == STATUS_CREATED
                &&& resp.message@ == spec_created_message()
            },
            Err(e) => {
                &&& exists|k: u128| old(store)@.contains_key(k)
                &&& final(store)@ == old(store)@
                &&& (e matches AppError::BadRequest(msg) && msg@ == spec_create_failed_message())
            },
        },
{
    let id = fresh_post_id();
    let now = local_now_rfc3339();
    create_post_core(store, post_request, id, now)
}

/// Serves a list request: every stored post, each exactly once, wrapped in
/// the ok envelope. Each returned entry is the post stored under its
/// identifier, every stored post appears, and no identifier repeats.
pub fn list_posts_handler(store: &BlogPosts) -> (r: ApiResponse<Vec<Post>>)
    requires
        store.wf(),
    ensures
        r.status_code == STATUS_OK,
        r.message@ == spec_listed_message(),
        r.data@.len() == store@.dom().len(),
        forall|i: int|
            0 <= i < r.data@.len() ==> store@.contains_key(#[trigger] r.data@[i].id)
                && store@[r.data@[i].id] == r.data@[i],
        forall|k: u128| #[trigger]
            store@.contains_key(k) ==> exists|i: int|
                0 <= i < r.data@.len() && r.data@[i] == store@[k],
        forall|i: int, j: int| 0 <= i < j < r.data@.len() ==> r.data@[i].id != r.data@[j].id,
{
    let posts = store.get_all_posts();
    proof {
        assert(forall|k: u128| #[trigger]
            store@.contains_key(k) ==> exists|i: int|
                0 <= i < posts@.len() && posts@[i] == store@[k]);
    }
    ApiResponse {
        data: posts,
        status_code: STATUS_OK,
        message: "Posts retrieved successfully".to_string(),
    }
}

/// The fixed confirmation string of the health check.
pub open spec fn spec_health_message() -> Seq<char> {
    "App sarted running successfully!"@
}

/// Serves the health check: always the same confirmation string, whatever
/// the state of the store.
pub fn health_handler() -> (r: String)
    ensures
        r@ == spec_health_message(),
{
    "App sarted running successfully!".to_string()
}

} // verus!
