use record_store::decentralized_post::Post;
use record_store::decentralized_post::{
    create_post, get_post, get_posts_descending, initialize, ErrorCode, PostAccount, PostCreated,
    POST_CAPACITY,
};

fn s(x: &str) -> String {
    x.to_string()
}

fn append(
    account: &mut PostAccount,
    content: &str,
    world: &str,
    ts: u64,
) -> Result<PostCreated, ErrorCode> {
    create_post(
        account,
        s("user-1"),
        s("ipfs-hash"),
        s("image-hash"),
        s(content),
        s(world),
        ts,
    )
}

#[test]
fn ledger_initialize_starts_empty() {
    let account = initialize();
    assert_eq!(account.posts.len(), 0);
    assert_eq!(account.next_post_id, 1);
}

#[test]
fn append_assigns_sequential_identifiers() {
    let mut account = initialize();
    for k in 1..=5u64 {
        let ev = append(&mut account, "content", "world", 100 + k).unwrap();
        assert_eq!(ev.post_id, k);
    }
    assert_eq!(account.next_post_id, 6);
    for (i, post) in account.posts.iter().enumerate() {
        assert_eq!(post.post_id, (i + 1) as u64);
    }
}

#[test]
fn capacity_ceiling_on_ledger() {
    let mut account = initialize();
    for k in 0..POST_CAPACITY {
        assert!(append(&mut account, "c", "w", k as u64).is_ok());
    }
    assert_eq!(account.posts.len(), POST_CAPACITY);
    let overflow = append(&mut account, "one too many", "w", 999);
    assert_eq!(overflow, Err(ErrorCode::TooManyPosts));
    assert_eq!(account.posts.len(), POST_CAPACITY);
    assert_eq!(account.next_post_id, (POST_CAPACITY + 1) as u64);
    assert_eq!(
        append(&mut account, "still full", "w", 1000),
        Err(ErrorCode::TooManyPosts)
    );
    assert_eq!(account.posts.len(), POST_CAPACITY);
}

#[test]
fn get_post_returns_matching_record() {
    let mut account = initialize();
    append(&mut account, "first", "w1", 10).unwrap();
    append(&mut account, "second", "w2", 20).unwrap();
    let post = get_post(&account, 2).unwrap();
    assert_eq!(post.post_id, 2);
    assert_eq!(post.content, "second");
    assert_eq!(post.world_id, "w2");
    assert_eq!(post.timestamp, 20);
}

#[test]
fn get_post_missing_not_found() {
    let mut account = initialize();
    assert_eq!(get_post(&account, 1), Err(ErrorCode::PostNotFound));
    append(&mut account, "only", "w", 1).unwrap();
    assert_eq!(get_post(&account, 2), Err(ErrorCode::PostNotFound));
    assert_eq!(get_post(&account, 0), Err(ErrorCode::PostNotFound));
}

#[test]
fn recent_slice_descending() {
    let mut account = initialize();
    for k in 1..=5u64 {
        append(&mut account, "c", "w", k).unwrap();
    }
    let top3 = get_posts_descending(&account, 3).unwrap();
    let ids: Vec<u64> = top3.iter().map(|p| p.post_id).collect();
    assert_eq!(ids, vec![5, 4, 3]);
    let all = get_posts_descending(&account, 100).unwrap();
    let ids: Vec<u64> = all.iter().map(|p| p.post_id).collect();
    assert_eq!(ids, vec![5, 4, 3, 2, 1]);
    let none = get_posts_descending(&account, 0).unwrap();
    assert!(none.is_empty());
}

#[test]
fn end_to_end_ledger_scenario() {
    let mut account = initialize();
    let first = create_post(
        &mut account,
        s("alice"),
        s("ipfs-a"),
        s("img-a"),
        s("a"),
        s("w1"),
        11,
    )
    .unwrap();
    assert_eq!(first.post_id, 1);
    let second = create_post(
        &mut account,
        s("bob"),
        s("ipfs-b"),
        s("img-b"),
        s("b"),
        s("w1"),
        12,
    )
    .unwrap();
    assert_eq!(second.post_id, 2);

    let looked_up = account.get_post(1).unwrap();
    assert_eq!(looked_up.post_id, 1);
    assert_eq!(looked_up.user_address, "alice");
    assert_eq!(looked_up.ipfs_hash, "ipfs-a");
    assert_eq!(looked_up.image_hash, "img-a");
    assert_eq!(looked_up.content, "a");
    assert_eq!(looked_up.world_id, "w1");
    assert_eq!(looked_up.timestamp, 11);

    let recent = account.get_posts_descending(1).unwrap();
    assert_eq!(recent.len(), 1);
    assert_eq!(recent[0].post_id, 2);
    assert_eq!(recent[0].content, "b");
}

#[test]
fn add_post_checks_capacity_directly() {
    let mut account = initialize();
    let post = Post {
        post_id: 1,
        user_address: s("alice"),
        ipfs_hash: s("ipfs"),
        image_hash: s("img"),
        content: s("c"),
        timestamp: 3,
        world_id: s("w"),
    };
    assert_eq!(account.add_post(post), Ok(()));
    assert_eq!(account.posts.len(), 1);
    assert_eq!(account.next_post_id, 1);
    for k in 2..=POST_CAPACITY as u64 {
        let filler = Post {
            post_id: k,
            user_address: s("alice"),
            ipfs_hash: s("ipfs"),
            image_hash: s("img"),
            content: s("c"),
            timestamp: 3,
            world_id: s("w"),
        };
        assert_eq!(account.add_post(filler), Ok(()));
    }
    let extra = Post {
        post_id: (POST_CAPACITY + 1) as u64,
        user_address: s("alice"),
        ipfs_hash: s("ipfs"),
        image_hash: s("img"),
        content: s("c"),
        timestamp: 3,
        world_id: s("w"),
    };
    assert_eq!(account.add_post(extra), Err(ErrorCode::TooManyPosts));
    assert_eq!(account.posts.len(), POST_CAPACITY);
}
