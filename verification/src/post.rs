//! The post record and the incoming create-post payload.

use vstd::prelude::*;
use vstd::string::StrSliceExecFns;
use vstd::string::StringExecFns;

verus! {

/// Relies on std's `String::push`: appends the given character to the end
/// of the string.
pub assume_specification[ String::push ](s: &mut String, ch: char)
    ensures
        final(s)@ == old(s)@.push(ch),
;

/// The payload of a create-post request: a title, a description, the post
/// body, and an optional image URL. When the image URL is absent, the post
/// is built with [`default_image_url`] instead.
#[derive(Debug)]
pub struct CreatePostRequest {
    pub title: String,
    pub description: String,
    pub image_url: Option<String>,
    pub content: String,
}

/// One blog post. The identifier is a 128-bit token generated at creation;
/// the two timestamps are set once, when the post is created, and are equal.
#[derive(Debug)]
pub struct Post {
    pub id: u128,
    pub title: String,
    pub image_url: String,
    pub content: String,
    pub description: String,
    pub created_at: String,
    pub updated_at: String,
}

impl Clone for Post {
    fn clone(&self) -> (r: Self)
        ensures
            r == *self,
    {
        Post {
            id: self.id,
            title: self.title.clone(),
            image_url: self.image_url.clone(),
            content: self.content.clone(),
            description: self.description.clone(),
            created_at: self.created_at.clone(),
            updated_at: self.updated_at.clone(),
        }
    }
}

/// The lowercase hex digit of a value below sixteen.
pub open spec fn spec_hex_digit(n: u128) -> char {
    if n < 10 {
        ((48 + n) as u8) as char
    } else {
        ((87 + n) as u8) as char
    }
}

/// The nibble of a 128-bit identifier at the given position, most
/// significant first.
pub open spec fn spec_nibble(id: u128, i: int) -> u128 {
    (id >> (((31 - i) * 4) as u128)) & 0xf
}

/// The thirty-two hex digits of a 128-bit identifier, most significant
/// first.
pub open spec fn spec_hex_digits(id: u128) -> Seq<char> {
    Seq::new(32, |i: int| spec_hex_digit(spec_nibble(id, i)))
}

/// A 128-bit identifier rendered the way UUIDs are written: thirty-two
/// lowercase hex digits in five hyphen-separated groups of 8, 4, 4, 4
/// and 12.
pub open spec fn spec_hyphenated_id(id: u128) -> Seq<char> {
    let d = spec_hex_digits(id);
    d.subrange(0, 8) + seq!['-'] + d.subrange(8, 12) + seq!['-'] + d.subrange(12, 16) + seq!['-']
        + d.subrange(16, 20) + seq!['-'] + d.subrange(20, 32)
}

/// The lowercase hex digit of a value below sixteen.
fn hex_digit_char(n: u128) -> (c: char)
    requires
        n < 16,
    ensures
        c == spec_hex_digit(n),
{
    if n < 10 {
        (48 + n as u8) as char
    } else {
        (87 + n as u8) as char
    }
}

/// The thirty-two hex digits of a 128-bit identifier, most significant
/// first.
fn hex_digits(id: u128) -> (r: String)
    ensures
        r@ == spec_hex_digits(id),
{
    let mut r = String::new();
    let mut i: usize = 0;
    while i < 32
        invariant
            i <= 32,
            r@.len() == i,
            forall|j: int| 0 <= j < i ==> r@[j] == spec_hex_digits(id)[j],
        decreases 32 - i,
    {
        let shift: u128 = ((31 - i) * 4) as u128;
        let nib: u128 = (id >> shift) & 0xf;
        proof {
            assert(nib == spec_nibble(id, i as int));
            assert((id >> shift) & 0xf < 16) by (bit_vector);
        }
        let c = hex_digit_char(nib);
        r.push(c);
        i += 1;
    }
    proof {
        assert(r@ =~= spec_hex_digits(id));
    }
    r
}

/// Renders a post identifier the way UUIDs are written: thirty-two
/// lowercase hex digits in five hyphen-separated groups.
pub fn hyphenated_id_string(id: u128) -> (r: String)
    ensures
        r@ == spec_hyphenated_id(id),
{
    let digits = hex_digits(id);
    let mut r = digits.as_str().substring_char(0, 8).to_string();
    r.append("-");
    r.append(digits.as_str().substring_char(8, 12));
    r.append("-");
    r.append(digits.as_str().substring_char(12, 16));
    r.append("-");
    r.append(digits.as_str().substring_char(16, 20));
    r.append("-");
    r.append(digits.as_str().substring_char(20, 32));
    proof {
        reveal_strlit("-");
        assert("-"@ =~= seq!['-']);
        assert(r@ =~= spec_hyphenated_id(id));
    }
    r
}

/// The placeholder image URL stored when a request carries none.
pub open spec fn spec_default_image_url() -> Seq<char> {
    "https://placehold.net/400x400.png"@
}

/// The placeholder image URL stored when a request carries none.
pub fn default_image_url() -> (r: String)
    ensures
        r@ == spec_default_image_url(),
{
    "https://placehold.net/400x400.png".to_string()
}

/// Builds the post that a create-post request describes, under the given
/// identifier and creation instant. Every field of the request is kept as
/// submitted; an absent image URL becomes the placeholder; both timestamps
/// are the given instant.
pub fn build_post(request: CreatePostRequest, id: u128, now: String) -> (r: Post)
    ensures
        r.id == id,
        r.title == request.title,
        r.description == request.description,
        r.content == request.content,
        r.created_at == now,
        r.updated_at == now,
        match request.image_url {
            Some(url) => r.image_url == url,
            None => r.image_url@ == spec_default_image_url(),
        },
{
    let image_url = match request.image_url {
        Some(url) => url,
        None => default_image_url(),
    };
    Post {
        id,
        title: request.title,
        content: request.content,
        description: request.description,
        created_at: now.clone(),
        updated_at: now,
        image_url,
    }
}

} // verus!
