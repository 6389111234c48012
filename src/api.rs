use vstd::prelude::*;

use crate::decimal::{decimal, push_decimal};
use crate::error::{resolve, PostError};
use crate::model::{metadata_of, Comment, CommentView, MetadataView, Post, PostMetadata, PostView};
use crate::params::{param_id, PostParams};
use crate::store::{lookup, views_of, ContentStore};

verus! {

/// The listing of `posts`: one entry per post, in the same order.
pub open spec fn metadata_list(posts: Seq<PostView>) -> Seq<MetadataView> {
    posts.map_values(|p: PostView| metadata_of(p))
}

pub open spec fn metadata_views(entries: Seq<PostMetadata>) -> Seq<MetadataView> {
    entries.map_values(|m: PostMetadata| m@)
}

pub open spec fn post_view_of(r: Option<Post>) -> Option<PostView> {
    match r {
        Some(p) => Some(p@),
        None => None,
    }
}

/// The text that opens every comment.
pub open spec fn comment_prefix() -> Seq<char> {
    "Comment for post: "@
}

/// The comment served for post `id`.
pub open spec fn comment_for(id: usize) -> CommentView {
    CommentView { id: 1, content: comment_prefix() + decimal(id as nat) }
}

/// The id and title of every post in the store, in store order.
pub fn list_post_metadata(store: &ContentStore) -> (r: Vec<PostMetadata>)
    ensures
        metadata_views(r@) == metadata_list(store@),
{
    let posts = store.list();
    let n = posts.len();
    let mut out: Vec<PostMetadata> = Vec::new();
    let mut i: usize = 0;
    while i < n
        invariant
            n == posts@.len(),
            views_of(posts@) == store@,
            i <= n,
            metadata_views(out@) =~= metadata_list(store@).subrange(0, i as int),
        decreases n - i,
    {
        let ghost old_out = out@;
        let entry = posts[i].metadata();
        assert(store@[i as int] == posts@[i as int]@);
        out.push(entry);
        assert(metadata_views(out@) =~= metadata_views(old_out) + seq![entry@]);
        i += 1;
    }
    assert(metadata_list(store@).subrange(0, n as int) =~= metadata_list(store@));
    out
}

/// The post whose id is `id`; `None` when the store holds no such post.
pub fn get_post(store: &ContentStore, id: usize) -> (r: Option<Post>)
    ensures
        post_view_of(r) == lookup(store@, id),
{
    match store.find(id) {
        Some(p) => Some(p.duplicate()),
        None => None,
    }
}

/// The comment for post `id`. There is always one, and its text names the id.
pub fn get_comments(id: usize) -> (r: Option<Comment>)
    ensures
        r matches Some(c) && c@ == comment_for(id),
{
    let mut content = String::from_str("Comment for post: ");
    push_decimal(&mut content, id);
    Some(Comment::new(1, content))
}

/// The link to post `id` under the route `prefix`: the prefix, a slash,
/// then the id.
pub fn post_href(prefix: &str, id: usize) -> (r: String)
    ensures
        r@ == prefix@ + "/"@ + decimal(id as nat),
{
    let mut href = String::from_str(prefix);
    href.append("/");
    push_decimal(&mut href, id);
    href
}

/// The post that the route parameter `raw` asks for: `InvalidId` when it
/// names no id, `PostNotFound` when the store has no post of that id.
pub fn load_post(store: &ContentStore, raw: Option<&str>) -> (r: Result<Post, PostError>)
    ensures
        match param_id(raw) {
            None => r == Err::<Post, PostError>(PostError::InvalidId),
            Some(id) => match lookup(store@, id) {
                None => r == Err::<Post, PostError>(PostError::PostNotFound),
                Some(v) => r matches Ok(p) && p@ == v,
            },
        },
{
    let params = PostParams::from_param(raw)?;
    resolve(Ok(get_post(store, params.id)))
}

/// The comment that the route parameter `raw` asks for, with the same
/// error policy as `load_post`.
pub fn load_comment(raw: Option<&str>) -> (r: Result<Comment, PostError>)
    ensures
        match param_id(raw) {
            None => r == Err::<Comment, PostError>(PostError::InvalidId),
            Some(id) => r matches Ok(c) && c@ == comment_for(id),
        },
{
    let params = PostParams::from_param(raw)?;
    resolve(Ok(get_comments(params.id)))
}

} // verus!
