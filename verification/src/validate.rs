//! Validation of the create-post payload: the title must be non-empty and
//! the description must reach a minimum length (counted in characters).

use vstd::prelude::*;
use vstd::string::StrSliceExecFns;
use crate::errors::FieldErrors;
use crate::errors::ValidationFailure;
use crate::post::CreatePostRequest;

verus! {

/// The minimum number of characters of a title.
pub const TITLE_MIN_LENGTH: usize = 1;

/// The minimum number of characters of a description.
pub const DESCRIPTION_MIN_LENGTH: usize = 5;

/// A title is valid when it is non-empty.
pub open spec fn spec_valid_title(title: Seq<char>) -> bool {
    title.len() >= TITLE_MIN_LENGTH
}

/// A description is valid when it reaches the minimum length.
pub open spec fn spec_valid_description(description: Seq<char>) -> bool {
    description.len() >= DESCRIPTION_MIN_LENGTH
}

/// A create-post request is valid when both its title and its description are.
pub open spec fn spec_valid_request(request: &CreatePostRequest) -> bool {
    spec_valid_title(request.title@) && spec_valid_description(request.description@)
}

/// The message reported for an empty title.
pub open spec fn spec_title_error_message() -> Seq<char> {
    "Title cannot be empty"@
}

/// The message reported for a too-short description.
pub open spec fn spec_description_error_message() -> Seq<char> {
    "Description must be at least 5 characters long"@
}

/// The entry a validation failure carries for an invalid title.
pub open spec fn spec_title_field_errors(fe: FieldErrors) -> bool {
    &&& fe.field@ == "title"@
    &&& fe.messages@.len() == 1
    &&& fe.messages@[0]@ == spec_title_error_message()
}

/// The entry a validation failure carries for an invalid description.
pub open spec fn spec_description_field_errors(fe: FieldErrors) -> bool {
    &&& fe.field@ == "description"@
    &&& fe.messages@.len() == 1
    &&& fe.messages@[0]@ == spec_description_error_message()
}

/// The failure reported for a request: one entry per invalid field, the
/// title's first.
pub open spec fn spec_failure_for(request: &CreatePostRequest, f: ValidationFailure) -> bool {
    if !spec_valid_title(request.title@) && !spec_valid_description(request.description@) {
        &&& f.fields@.len() == 2
    &&& spec_title_field_errors(f.fields@[0])
    &&& spec_description_field_errors(f.fields@[1])
    } else if !spec_valid_title(request.title@) {
        f.fields@.len() == 1 && spec_title_field_errors(f.fields@[0])
    } else {
        f.fields@.len() == 1 && spec_description_field_errors(f.fields@[0])
    }
}

/// Checks a create-post request. Succeeds exactly on valid requests; a
/// rejected request is reported with every failing field and its message.
pub fn validate_create_post_request(request: &CreatePostRequest) -> (r: Result<
    (),
    ValidationFailure,
>)
    ensures
        r is Ok <==> spec_valid_request(request),
        r matches Err(f) ==> spec_failure_for(request, f),
{
    let mut fields: Vec<FieldErrors> = Vec::new();
    if request.title.as_str().unicode_len() < TITLE_MIN_LENGTH {
        let mut messages: Vec<String> = Vec::new();
        messages.push("Title cannot be empty".to_string());
        fields.push(FieldErrors { field: "title".to_string(), messages });
    }
    if request.description.as_str().unicode_len() < DESCRIPTION_MIN_LENGTH {
        let mut messages: Vec<String> = Vec::new();
        messages.push("Description must be at least 5 characters long".to_string());
        fields.push(FieldErrors { field: "description".to_string(), messages });
    }
    if fields.len() == 0 {
        Ok(())
    } else {
        Err(ValidationFailure { fields })
    }
}

} // verus!
