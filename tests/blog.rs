use blog::{
    get_comments, get_post, list_post_metadata, load_comment, load_post, post_href, resolve,
    Comment, ContentStore, Post, PostError, PostMetadata, PostParams, TransportError,
};

fn post(id: usize, title: &str, content: &str) -> Post {
    Post::new(id, title.to_string(), content.to_string())
}

fn params(raw: &str) -> Result<PostParams, PostError> {
    PostParams::from_param(Some(raw))
}

#[test]
fn listing_of_seeded_store() {
    let store = ContentStore::seeded();
    let listing = list_post_metadata(&store);
    assert_eq!(
        listing,
        vec![
            PostMetadata::new(0, "My first post".to_string()),
            PostMetadata::new(1, "My second post".to_string()),
            PostMetadata::new(2, "My third post".to_string()),
        ]
    );
}

#[test]
fn listing_follows_store_order_and_titles() {
    let store = ContentStore::seeded();
    let listing = list_post_metadata(&store);
    assert_eq!(listing.len(), 3);
    for (entry, p) in listing.iter().zip(store.list().iter()) {
        assert_eq!(entry.id, p.id);
        assert_eq!(entry.title, p.title);
    }
}

#[test]
fn second_post_by_id() {
    let store = ContentStore::seeded();
    assert_eq!(
        get_post(&store, 1),
        Some(post(1, "My second post", "This is my second post"))
    );
}

#[test]
fn seeded_ids_return_their_post() {
    let store = ContentStore::seeded();
    for id in 0..3usize {
        let found = get_post(&store, id).expect("seeded post");
        assert_eq!(found.id, id);
    }
}

#[test]
fn unknown_id_is_not_found() {
    let store = ContentStore::seeded();
    assert_eq!(get_post(&store, 99), None);
    assert_eq!(get_post(&store, 3), None);
    assert_eq!(get_post(&store, usize::MAX), None);
    assert_eq!(resolve(Ok(get_post(&store, 99))), Err(PostError::PostNotFound));
    assert_eq!(load_post(&store, Some("99")), Err(PostError::PostNotFound));
}

#[test]
fn comments_name_the_post_id() {
    let c = get_comments(2).expect("a comment");
    assert!(c.content.contains('2'));
    assert_eq!(c, Comment::new(1, "Comment for post: 2".to_string()));
}

#[test]
fn comments_for_several_ids() {
    assert_eq!(get_comments(0).unwrap().content, "Comment for post: 0");
    assert_eq!(get_comments(10).unwrap().content, "Comment for post: 10");
    assert_eq!(get_comments(1234567).unwrap().content, "Comment for post: 1234567");
    let max = usize::MAX;
    assert_eq!(get_comments(max).unwrap().content, format!("Comment for post: {}", max));
    for id in [5usize, 42, 907, 100000] {
        assert!(get_comments(id).unwrap().content.contains(&id.to_string()));
    }
}

#[test]
fn accessors_are_repeatable() {
    let store = ContentStore::seeded();
    assert_eq!(list_post_metadata(&store), list_post_metadata(&store));
    assert_eq!(get_post(&store, 2), get_post(&store, 2));
    assert_eq!(get_post(&store, 7), get_post(&store, 7));
    assert_eq!(get_comments(4), get_comments(4));
}

#[test]
fn malformed_ids_are_invalid() {
    let store = ContentStore::seeded();
    for raw in ["", "abc", "1x", "-1", "+", "1.0", " 1", "١"] {
        assert_eq!(params(raw), Err(PostError::InvalidId), "{raw:?}");
        assert_eq!(load_post(&store, Some(raw)), Err(PostError::InvalidId));
        assert_eq!(load_comment(Some(raw)), Err(PostError::InvalidId));
    }
    assert_eq!(PostParams::from_param(None), Err(PostError::InvalidId));
    assert_eq!(load_post(&store, None), Err(PostError::InvalidId));
}

#[test]
fn numeric_ids_parse() {
    assert_eq!(params("0"), Ok(PostParams { id: 0 }));
    assert_eq!(params("1"), Ok(PostParams { id: 1 }));
    assert_eq!(params("007"), Ok(PostParams { id: 7 }));
    assert_eq!(params("+17"), Ok(PostParams { id: 17 }));
    assert_eq!(params(&usize::MAX.to_string()), Ok(PostParams { id: usize::MAX }));
}

#[test]
fn overflowing_ids_are_invalid() {
    let too_big = format!("{}0", usize::MAX);
    assert_eq!(params(&too_big), Err(PostError::InvalidId));
    assert_eq!(params("99999999999999999999999999"), Err(PostError::InvalidId));
}

#[test]
fn load_post_by_route_parameter() {
    let store = ContentStore::seeded();
    assert_eq!(
        load_post(&store, Some("0")),
        Ok(post(0, "My first post", "This is my first post"))
    );
    assert_eq!(
        load_post(&store, Some("2")),
        Ok(post(2, "My third post", "This is my third post"))
    );
    assert_eq!(
        load_comment(Some("2")),
        Ok(Comment::new(1, "Comment for post: 2".to_string()))
    );
}

#[test]
fn resolve_maps_each_outcome() {
    let failed: Result<Option<u8>, TransportError> = Err(TransportError::new("down".to_string()));
    assert_eq!(resolve(failed), Err(PostError::ServerError));
    assert_eq!(resolve::<u8>(Ok(None)), Err(PostError::PostNotFound));
    assert_eq!(resolve(Ok(Some(5u8))), Ok(5));
}

#[test]
fn error_messages() {
    assert_eq!(PostError::InvalidId.message(), "Invalid post ID.");
    assert_eq!(PostError::PostNotFound.message(), "Post not found.");
    assert_eq!(PostError::ServerError.message(), "Server error.");
}

#[test]
fn store_rejects_duplicate_ids() {
    let dup = vec![post(4, "a", "b"), post(5, "c", "d"), post(4, "e", "f")];
    assert!(ContentStore::from_posts(dup).is_none());
}

#[test]
fn custom_store_serves_its_posts() {
    let store = ContentStore::from_posts(vec![post(9, "nine", "ix"), post(3, "three", "iii")])
        .expect("unique ids");
    assert_eq!(
        list_post_metadata(&store),
        vec![PostMetadata::new(9, "nine".to_string()), PostMetadata::new(3, "three".to_string())]
    );
    assert_eq!(get_post(&store, 3), Some(post(3, "three", "iii")));
    assert_eq!(get_post(&store, 0), None);
}

#[test]
fn empty_store() {
    let store = ContentStore::from_posts(Vec::new()).expect("no posts");
    assert!(list_post_metadata(&store).is_empty());
    assert_eq!(get_post(&store, 0), None);
}

#[test]
fn links_to_posts() {
    assert_eq!(post_href("/posts", 12), "/posts/12");
    assert_eq!(post_href("/blog", 0), "/blog/0");
    assert_eq!(post_href("", 305), "/305");
}

#[test]
fn post_metadata_projection() {
    let p = post(6, "six", "vi");
    assert_eq!(p.metadata(), PostMetadata::new(6, "six".to_string()));
    assert_eq!(p.duplicate(), p);
}
