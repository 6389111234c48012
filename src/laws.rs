use vstd::prelude::*;

use crate::api::{comment_for, metadata_list, metadata_views, post_view_of};
use crate::decimal::decimal;
use crate::error::{resolve_spec, PostError};
use crate::model::{Comment, Post, PostMetadata, PostView};
use crate::params::{is_digit, param_id};
use crate::store::{lookup, seed_posts};

verus! {

/// `needle` occurs somewhere in `hay`.
pub open spec fn contains(hay: Seq<char>, needle: Seq<char>) -> bool {
    exists|k: int|
        0 <= k && k + needle.len() <= hay.len() && #[trigger] hay.subrange(k, k + needle.len())
            == needle
}

/// On the seeded store, `get_post` finds every seeded id, and the post it
/// returns carries the id asked for.
pub proof fn lemma_seeded_ids_found(id: usize, r: Option<Post>)
    requires
        id < 3,
        post_view_of(r) == lookup(seed_posts(), id),
    ensures
        r matches Some(p) && p.id == id,
{
    let s = seed_posts();
    assert(s[id as int].id == id);
}

/// On the seeded store, `get_post` finds nothing for any other id, and the
/// consumer-side mapping turns that answer into `PostNotFound`.
pub proof fn lemma_unseeded_ids_absent(id: usize, r: Option<Post>)
    requires
        id >= 3,
        post_view_of(r) == lookup(seed_posts(), id),
    ensures
        r is None,
        resolve_spec(Ok(r)) == Err::<Post, PostError>(PostError::PostNotFound),
{
    let s = seed_posts();
    assert forall|i: int| 0 <= i < s.len() implies s[i].id != id by {
        assert(s[i].id == i);
    }
}

/// On the seeded store, the listing has three entries, in seed order, each
/// with the id and title of its post.
pub proof fn lemma_seeded_listing(r: Vec<PostMetadata>)
    requires
        metadata_views(r@) == metadata_list(seed_posts()),
    ensures
        r@.len() == 3,
        forall|i: int|
            0 <= i < 3 ==> r@[i].id == seed_posts()[i].id && r@[i].title@ == seed_posts()[i].title,
{
    assert(metadata_views(r@).len() == r@.len());
    assert(metadata_list(seed_posts()).len() == 3);
    assert forall|i: int| 0 <= i < 3 implies r@[i].id == seed_posts()[i].id && r@[i].title@
        == seed_posts()[i].title by {
        assert(metadata_views(r@)[i] == r@[i]@);
    }
}

/// The comment served for any post id holds the decimal numeral of that id.
pub proof fn lemma_comment_names_id(id: usize)
    ensures
        contains(comment_for(id).content, decimal(id as nat)),
{
    let c = comment_for(id).content;
    let d = decimal(id as nat);
    let k = c.len() - d.len();
    assert(c.subrange(k, k + d.len()) =~= d);
}

/// A route parameter with a character that is neither a digit nor a leading
/// plus sign names no id, so it is refused as `InvalidId` before any lookup.
pub proof fn lemma_non_numeric_param_invalid(raw: &str, i: int)
    requires
        0 <= i < raw@.len(),
        !is_digit(raw@[i]),
        !(i == 0 && raw@[i] == '+'),
    ensures
        param_id(Some(raw)) is None,
{
    let s = raw@;
    if s.len() > 0 && s[0] == '+' {
        assert(s.drop_first()[i - 1] == s[i]);
    }
}

/// Two lookups of one id in one store give the same post.
pub proof fn lemma_get_post_repeatable(
    posts: Seq<PostView>,
    id: usize,
    r1: Option<Post>,
    r2: Option<Post>,
)
    requires
        post_view_of(r1) == lookup(posts, id),
        post_view_of(r2) == lookup(posts, id),
    ensures
        post_view_of(r1) == post_view_of(r2),
{
}

/// Two listings of one store are the same.
pub proof fn lemma_listing_repeatable(posts: Seq<PostView>, r1: Vec<PostMetadata>, r2: Vec<PostMetadata>)
    requires
        metadata_views(r1@) == metadata_list(posts),
        metadata_views(r2@) == metadata_list(posts),
    ensures
        metadata_views(r1@) == metadata_views(r2@),
{
}

/// Two comment requests for one id give the same comment.
pub proof fn lemma_comments_repeatable(id: usize, r1: Option<Comment>, r2: Option<Comment>)
    requires
        r1 matches Some(c) && c@ == comment_for(id),
        r2 matches Some(c) && c@ == comment_for(id),
    ensures
        r1 matches Some(c1) && r2 matches Some(c2) && c1@ == c2@,
{
}

} // verus!
