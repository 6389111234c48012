use vstd::prelude::*;

verus! {

/// A blog post, immutable once created.
#[derive(Clone, Debug, PartialEq, Eq)]
pub struct Post {
    pub id: usize,
    pub title: String,
    pub content: String,
}

/// The listing projection of a post: its id and title.
#[derive(Clone, Debug, PartialEq, Eq)]
pub struct PostMetadata {
    pub id: usize,
    pub title: String,
}

/// A comment shown under a post.
#[derive(Clone, Debug, PartialEq, Eq)]
pub struct Comment {
    pub id: usize,
    pub content: String,
}

/// The abstract value of a post.
pub struct PostView {
    pub id: usize,
    pub title: Seq<char>,
    pub content: Seq<char>,
}

/// The abstract value of a listing entry.
pub struct MetadataView {
    pub id: usize,
    pub title: Seq<char>,
}

/// The abstract value of a comment.
pub struct CommentView {
    pub id: usize,
    pub content: Seq<char>,
}

impl View for Post {
    type V = PostView;

    open spec fn view(&self) -> PostView {
        PostView { id: self.id, title: self.title@, content: self.content@ }
    }
}

impl View for PostMetadata {
    type V = MetadataView;

    open spec fn view(&self) -> MetadataView {
        MetadataView { id: self.id, title: self.title@ }
    }
}

impl View for Comment {
    type V = CommentView;

    open spec fn view(&self) -> CommentView {
        CommentView { id: self.id, content: self.content@ }
    }
}

/// The listing entry of a post.
pub open spec fn metadata_of(p: PostView) -> MetadataView {
    MetadataView { id: p.id, title: p.title }
}

impl Post {
    pub fn new(id: usize, title: String, content: String) -> (r: Post)
        ensures
            r.id == id,
            r.title == title,
            r.content == content,
    {
        Post { id, title, content }
    }

    /// A field-by-field copy of this post.
    pub fn duplicate(&self) -> (r: Post)
        ensures
            r == *self,
    {
        Post { id: self.id, title: self.title.clone(), content: self.content.clone() }
    }

    /// The listing entry of this post.
    pub fn metadata(&self) -> (r: PostMetadata)
        ensures
            r@ == metadata_of(self@),
    {
        PostMetadata { id: self.id, title: self.title.clone() }
    }
}

impl PostMetadata {
    pub fn new(id: usize, title: String) -> (r: PostMetadata)
        ensures
            r.id == id,
            r.title == title,
    {
        PostMetadata { id, title }
    }
}

impl Comment {
    pub fn new(id: usize, content: String) -> (r: Comment)
        ensures
            r.id == id,
            r.content == content,
    {
        Comment { id, content }
    }
}

} // verus!
