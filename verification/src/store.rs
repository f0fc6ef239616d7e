//! The in-memory post store: a map from post identifier to post.
//!
//! The store's invariant is that every post sits under its own identifier,
//! so the keys of the map are exactly the identifiers of the stored posts.

use std::collections::HashMap;
use vstd::prelude::*;
use vstd::string::StringExecFns;
use crate::errors::AppError;
use crate::post::Post;
use crate::post::hyphenated_id_string;
use crate::post::spec_hyphenated_id;

verus! {

broadcast use vstd::std_specs::hash::group_hash_axioms;

/// The message carried by the error of a create on an identifier that is
/// already taken: it names the identifier, rendered the way UUIDs are
/// written.
pub open spec fn spec_duplicate_post_message(id: u128) -> Seq<char> {
    "Post with ID: "@ + spec_hyphenated_id(id) + " already Exists"@
}

/// The identifier-keyed collection of all stored posts.
pub struct BlogPosts {
    posts: HashMap<u128, Post>,
}

impl View for BlogPosts {
    type V = Map<u128, Post>;

    closed spec fn view(&self) -> Map<u128, Post> {
        self.posts@
    }
}

impl BlogPosts {
    /// The store holds finitely many posts, each stored under its own
    /// identifier.
    pub open spec fn wf(&self) -> bool {
        &&& self@.dom().finite()
        &&& forall|k: u128| #[trigger] self@.contains_key(k) ==> self@[k].id == k
    }

    /// An empty store.
    pub fn new() -> (r: Self)
        ensures
            r@ == Map::<u128, Post>::empty(),
            r.wf(),
    {
        BlogPosts { posts: HashMap::new() }
    }

    /// Inserts a post under its identifier. Fails, and leaves the store
    /// unchanged, exactly when a post with that identifier is already
    /// stored; otherwise the store afterwards is the store before plus the
    /// new post.
    pub fn create_post(&mut self, post: Post) -> (r: Result<(), AppError>)
        requires
            old(self).wf(),
        ensures
            final(self).wf(),
            match r {
                Ok(()) => !old(self)@.contains_key(post.id) && final(self)@ == old(self)@.insert(
                    post.id,
                    post,
                ),
                Err(e) => old(self)@.contains_key(post.id) && final(self)@ == old(self)@ && (
                e matches AppError::BadRequest(msg) && msg@ == spec_duplicate_post_message(
                    post.id,
                )),
            },
    {
        if self.posts.contains_key(&post.id) {
            let mut message = "Post with ID: ".to_string();
            let id_string = hyphenated_id_string(post.id);
            message.append(id_string.as_str());
            message.append(" already Exists");
            proof {
                assert(message@ =~= spec_duplicate_post_message(post.id));
            }
            Err(AppError::BadRequest(message))
        } else {
            let id = post.id;
            self.posts.insert(id, post);
            proof {
                assert forall|k: u128| #[trigger] self@.contains_key(k) implies self@[k].id
                    == k by {
                    if k != post.id {
                        assert(old(self)@.contains_key(k));
                    }
                }
            }
            Ok(())
        }
    }

    /// The number of stored posts.
    pub fn len(&self) -> (r: usize)
        ensures
            r == self@.dom().len(),
    {
        self.posts.len()
    }

    /// Copies every stored post out, in no particular order. The result
    /// lists each stored post exactly once: it has one entry per key of the
    /// store, every entry is the post stored under its identifier, and every
    /// stored post appears.
    pub fn get_all_posts(&self) -> (r: Vec<Post>)
        requires
            self.wf(),
        ensures
            r@.len() == self@.dom().len(),
            forall|i: int|
                0 <= i < r@.len() ==> self@.contains_key(#[trigger] r@[i].id) && self@[r@[i].id]
                    == r@[i],
            forall|k: u128| #[trigger]
                self@.contains_key(k) ==> exists|i: int| 0 <= i < r@.len() && r@[i] == self@[k],
            forall|i: int, j: int| 0 <= i < j < r@.len() ==> r@[i].id != r@[j].id,
    {
        let mut r: Vec<Post> = Vec::new();
        let ghost mut seen: Seq<u128> = Seq::empty();
        for k in it: self.posts.keys()
            invariant
                self.wf(),
                r@.len() == it.index(),
                seen.len() == it.index(),
                seen =~= it.seq().unref().take(it.index()),
                it.seq().no_duplicates(),
                it.seq().unref().to_set() == self@.dom(),
                it.seq().len() == self@.dom().len(),
                seen.no_duplicates(),
                forall|i: int| 0 <= i < seen.len() ==> self@.dom().contains(#[trigger] seen[i]),
                forall|i: int| 0 <= i < r@.len() ==> #[trigger] r@[i].id == seen[i],
                forall|i: int|
                    0 <= i < r@.len() ==> self@.contains_key(#[trigger] r@[i].id) && self@[r@[i].id]
                        == r@[i],
        {
            proof {
                assert(*k == it.seq().unref()[it.index()]);
                assert(it.seq().unref().to_set().contains(*k));
                assert(!seen.contains(*k)) by {
                    assert(forall|i: int|
                        0 <= i < seen.len() ==> seen[i] == it.seq().unref()[i]);
                }
                seen = seen.push(*k);
            }
            let post = self.posts.get(k).unwrap();
            r.push(post.clone());
        }
        proof {
            assert(seen.len() == self@.dom().len());
            broadcast use vstd::seq_lib::seq_to_set_is_finite;

            seen.unique_seq_to_set();
            assert(seen.to_set().subset_of(self@.dom())) by {
                assert forall|x: u128| seen.to_set().contains(x) implies self@.dom().contains(
                    x,
                ) by {
                    let i = choose|i: int| 0 <= i < seen.len() && seen[i] == x;
                }
            }
            vstd::set_lib::lemma_subset_equality(seen.to_set(), self@.dom());
            assert forall|k: u128| #[trigger] self@.contains_key(k) implies exists|i: int|
                0 <= i < r@.len() && r@[i] == self@[k] by {
                assert(seen.to_set().contains(k));
                let i = choose|i: int| 0 <= i < seen.len() && seen[i] == k;
                assert(r@[i].id == k);
                assert(r@[i] == self@[k]);
            }
            assert forall|i: int, j: int| 0 <= i < j < r@.len() implies r@[i].id != r@[j].id by {
                assert(seen[i] != seen[j]);
            }
        }
        r
    }
}

/// The store that a run of creates leaves behind: one insert per post, in
/// order, each under its own identifier.
pub open spec fn spec_store_after_creates(m: Map<u128, Post>, posts: Seq<Post>) -> Map<u128, Post>
    decreases posts.len(),
{
    if posts.len() == 0 {
        m
    } else {
        spec_store_after_creates(m, posts.drop_last()).insert(posts.last().id, posts.last())
    }
}

/// Every create of a run succeeds: each post's identifier is still free
/// when its turn comes.
pub open spec fn spec_creates_all_succeed(m: Map<u128, Post>, posts: Seq<Post>) -> bool
    decreases posts.len(),
{
    if posts.len() == 0 {
        true
    } else {
        spec_creates_all_succeed(m, posts.drop_last()) && !spec_store_after_creates(
            m,
            posts.drop_last(),
        ).contains_key(posts.last().id)
    }
}

/// Creates never corrupt the store, however many interleave: the lock
/// serializes them into a run, and after a run of successful creates the
/// store holds exactly one entry per create, under pairwise distinct
/// identifiers, beside everything it held before.
pub proof fn lemma_successful_creates(m: Map<u128, Post>, posts: Seq<Post>)
    requires
        m.dom().finite(),
        spec_creates_all_succeed(m, posts),
    ensures
        spec_store_after_creates(m, posts).dom().finite(),
        spec_store_after_creates(m, posts).dom().len() == m.dom().len() + posts.len(),
        forall|i: int|
            0 <= i < posts.len() ==> spec_store_after_creates(m, posts).contains_key(
                #[trigger] posts[i].id,
            ) && spec_store_after_creates(m, posts)[posts[i].id] == posts[i],
        forall|i: int, j: int| 0 <= i < j < posts.len() ==> posts[i].id != posts[j].id,
        forall|k: u128| #[trigger]
            m.contains_key(k) ==> spec_store_after_creates(m, posts).contains_key(k),
    decreases posts.len(),
{
    if posts.len() > 0 {
        let rest = posts.drop_last();
        let last = posts.last();
        lemma_successful_creates(m, rest);
        let prev = spec_store_after_creates(m, rest);
        assert(forall|i: int| 0 <= i < rest.len() ==> rest[i] == posts[i]);
        assert forall|i: int, j: int| 0 <= i < j < posts.len() implies posts[i].id
            != posts[j].id by {
            if j == posts.len() - 1 {
                assert(prev.contains_key(posts[i].id));
            }
        }
        assert forall|i: int|
            0 <= i < posts.len() implies spec_store_after_creates(m, posts).contains_key(
            posts[i].id,
        ) && spec_store_after_creates(m, posts)[posts[i].id] == posts[i] by {
            if i < posts.len() - 1 {
                assert(prev.contains_key(posts[i].id) && prev[posts[i].id] == posts[i]);
                assert(posts[i].id != last.id);
            }
        }
    }
}

/// After two successful creates on an empty store, a list call returns
/// exactly the two created posts, in one order or the other.
pub proof fn lemma_list_after_two_creates(p1: Post, p2: Post, listed: Seq<Post>)
    requires
        p1.id != p2.id,
        ({
            let m = Map::<u128, Post>::empty().insert(p1.id, p1).insert(p2.id, p2);
            &&& listed.len() == m.dom().len()
            &&& forall|i: int|
                0 <= i < listed.len() ==> m.contains_key(#[trigger] listed[i].id) && m[listed[i].id]
                    == listed[i]
            &&& forall|k: u128| #[trigger]
                m.contains_key(k) ==> exists|i: int| 0 <= i < listed.len() && listed[i] == m[k]
        }),
    ensures
        listed =~= seq![p1, p2] || listed =~= seq![p2, p1],
{
    let m = Map::<u128, Post>::empty().insert(p1.id, p1).insert(p2.id, p2);
    assert(m.dom() =~= Set::<u128>::empty().insert(p1.id).insert(p2.id));
    assert(m.dom().len() == 2) by {
        assert(Set::<u128>::empty().insert(p1.id).len() == 1);
    }
    assert(m.contains_key(p1.id) && m[p1.id] == p1);
    assert(m.contains_key(p2.id) && m[p2.id] == p2);
    let i1 = choose|i: int| 0 <= i < listed.len() && listed[i] == m[p1.id];
    let i2 = choose|i: int| 0 <= i < listed.len() && listed[i] == m[p2.id];
    assert(listed[i1] == p1 && listed[i2] == p2);
    assert(i1 != i2);
}

} // verus!
