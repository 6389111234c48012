use vstd::prelude::*;

use crate::model::{Post, PostView};

verus! {

/// No two posts share an id.
pub open spec fn ids_unique(posts: Seq<PostView>) -> bool {
    forall|i: int, j: int|
        0 <= i < posts.len() && 0 <= j < posts.len() && i != j ==> posts[i].id != posts[j].id
}

/// The post that carries `id`, if one does.
pub open spec fn lookup(posts: Seq<PostView>, id: usize) -> Option<PostView> {
    if exists|i: int| 0 <= i < posts.len() && posts[i].id == id {
        Some(posts[choose|i: int| 0 <= i < posts.len() && posts[i].id == id])
    } else {
        None
    }
}

/// The posts every fresh store starts with.
pub open spec fn seed_posts() -> Seq<PostView> {
    seq![
        PostView { id: 0, title: "My first post"@, content: "This is my first post"@ },
        PostView { id: 1, title: "My second post"@, content: "This is my second post"@ },
        PostView { id: 2, title: "My third post"@, content: "This is my third post"@ },
    ]
}

pub open spec fn views_of(posts: Seq<Post>) -> Seq<PostView> {
    posts.map_values(|p: Post| p@)
}

/// A read-only collection of posts with unique ids, kept in insertion order.
pub struct ContentStore {
    posts: Vec<Post>,
}

impl View for ContentStore {
    type V = Seq<PostView>;

    closed spec fn view(&self) -> Seq<PostView> {
        views_of(self.posts@)
    }
}

impl ContentStore {
    #[verifier::type_invariant]
    spec fn inv(&self) -> bool {
        ids_unique(views_of(self.posts@))
    }

    /// A store holding `posts` in the given order, or `None` when two of them
    /// share an id.
    pub fn from_posts(posts: Vec<Post>) -> (r: Option<ContentStore>)
        ensures
            r is Some <==> ids_unique(views_of(posts@)),
            r matches Some(s) ==> s@ == views_of(posts@),
    {
        let n = posts.len();
        let mut i: usize = 0;
        while i < n
            invariant
                n == posts@.len(),
                i <= n,
                forall|a: int, b: int|
                    0 <= a < i && 0 <= b < n && a != b ==> posts@[a].id != posts@[b].id,
            decreases n - i,
        {
            let mut j: usize = 0;
            while j < n
                invariant
                    n == posts@.len(),
                    i < n,
                    j <= n,
                    forall|a: int, b: int|
                        0 <= a < i && 0 <= b < n && a != b ==> posts@[a].id != posts@[b].id,
                    forall|b: int| 0 <= b < j && b != i ==> posts@[i as int].id != posts@[b].id,
                decreases n - j,
            {
                if j != i && posts[i].id == posts[j].id {
                    assert(views_of(posts@)[i as int].id == views_of(posts@)[j as int].id);
                    return None;
                }
                j += 1;
            }
            i += 1;
        }
        assert(ids_unique(views_of(posts@)));
        Some(ContentStore { posts })
    }

    /// The store of the three seeded posts.
    pub fn seeded() -> (r: ContentStore)
        ensures
            r@ == seed_posts(),
    {
        let mut posts: Vec<Post> = Vec::new();
        posts.push(
            Post::new(0, String::from_str("My first post"), String::from_str("This is my first post")),
        );
        posts.push(
            Post::new(1, String::from_str("My second post"), String::from_str("This is my second post")),
        );
        posts.push(
            Post::new(2, String::from_str("My third post"), String::from_str("This is my third post")),
        );
        assert(views_of(posts@) =~= seed_posts());
        ContentStore { posts }
    }

    /// All posts, in insertion order.
    pub fn list(&self) -> (r: &Vec<Post>)
        ensures
            views_of(r@) == self@,
    {
        &self.posts
    }

    /// The post whose id is `id`, if there is one.
    pub fn find(&self, id: usize) -> (r: Option<&Post>)
        ensures
            match r {
                Some(p) => lookup(self@, id) == Some(p@),
                None => lookup(self@, id) is None,
            },
    {
        proof {
            use_type_invariant(self);
        }
        let n = self.posts.len();
        let mut i: usize = 0;
        while i < n
            invariant
                n == self.posts@.len(),
                i <= n,
                ids_unique(views_of(self.posts@)),
                forall|j: int| 0 <= j < i ==> self.posts@[j].id != id,
            decreases n - i,
        {
            if self.posts[i].id == id {
                proof {
                    let vs = views_of(self.posts@);
                    assert(vs[i as int].id == id);
                    let k = choose|k: int| 0 <= k < vs.len() && vs[k].id == id;
                    assert(vs[k].id == id);
                    assert(k == i);
                }
                return Some(&self.posts[i]);
            }
            i += 1;
        }
        proof {
            let vs = views_of(self.posts@);
            assert(!exists|k: int| 0 <= k < vs.len() && vs[k].id == id) by {
                assert forall|k: int| 0 <= k < vs.len() implies vs[k].id != id by {
                    assert(vs[k].id == self.posts@[k].id);
                }
            }
        }
        None
    }
}

} // verus!
