use blog::counter::{checked_decrement, checked_increment, increment};
use blog::errors::{BlogError, OpError};
use blog::ledger::{blog_address, comment_address, post_address, Ledger};

fn pid() -> Vec<u8> {
    vec![7u8; 32]
}

fn id(byte: u8) -> Vec<u8> {
    vec![byte; 32]
}

fn fresh_ledger() -> Ledger {
    Ledger::new(pid())
}

#[test]
fn scenario_full_lifecycle() {
    let mut ledger = fresh_ledger();
    let owner = id(1);
    let reader = id(2);

    assert_eq!(
        ledger.initialize_blog(&owner, &b"Tech".to_vec(), &b"My blog".to_vec(), 100),
        Ok(())
    );
    assert_eq!(
        ledger.create_blog_post(&owner, &b"Tech".to_vec(), &b"Rust".to_vec(), &b"Intro".to_vec(), 110),
        Ok(())
    );
    let blog = ledger.get_blog(&owner, &b"Tech".to_vec()).unwrap();
    assert_eq!(blog.number_of_posts, 1);

    assert_eq!(
        ledger.add_comment(&reader, &owner, &b"Rust".to_vec(), &b"Nice!".to_vec(), 120),
        Ok(())
    );
    let post = ledger.get_post(&owner, &b"Rust".to_vec()).unwrap();
    assert_eq!(post.number_of_comments, 1);

    assert_eq!(
        ledger.delete_comment(&reader, &owner, &b"Rust".to_vec(), &reader),
        Ok(())
    );
    let post = ledger.get_post(&owner, &b"Rust".to_vec()).unwrap();
    assert_eq!(post.number_of_comments, 0);

    assert_eq!(
        ledger.delete_blog_post(&owner, &b"Tech".to_vec(), &b"Rust".to_vec()),
        Ok(())
    );
    let blog = ledger.get_blog(&owner, &b"Tech".to_vec()).unwrap();
    assert_eq!(blog.number_of_posts, 0);
    assert!(ledger.get_post(&owner, &b"Rust".to_vec()).is_none());
}

#[test]
fn derivation_is_stable_and_collision_free() {
    let program_id = pid();
    let mut addresses: Vec<Vec<u8>> = Vec::new();
    for byte in 1u8..4 {
        for title in [b"alpha".to_vec(), b"beta".to_vec(), b"gamma".to_vec()] {
            let (addr, salt) = blog_address(&program_id, &id(byte), &title).unwrap();
            let (addr2, salt2) = blog_address(&program_id, &id(byte), &title).unwrap();
            assert_eq!(addr, addr2);
            assert_eq!(salt, salt2);
            addresses.push(addr);
            let (post_addr, _) = post_address(&program_id, &id(byte), &title).unwrap();
            let (post_addr2, _) = post_address(&program_id, &id(byte), &title).unwrap();
            assert_eq!(post_addr, post_addr2);
            addresses.push(post_addr.clone());
            let (comment_addr, _) = comment_address(&program_id, &post_addr, &id(byte)).unwrap();
            addresses.push(comment_addr);
        }
    }
    for i in 0..addresses.len() {
        for j in 0..i {
            assert_ne!(addresses[i], addresses[j]);
        }
    }
}

#[test]
fn create_blog_post_twice_fails() {
    let mut ledger = fresh_ledger();
    let owner = id(1);
    assert_eq!(
        ledger.initialize_blog(&owner, &b"Tech".to_vec(), &b"d".to_vec(), 1),
        Ok(())
    );
    assert_eq!(
        ledger.create_blog_post(&owner, &b"Tech".to_vec(), &b"Rust".to_vec(), &b"one".to_vec(), 2),
        Ok(())
    );
    assert_eq!(
        ledger.create_blog_post(&owner, &b"Tech".to_vec(), &b"Rust".to_vec(), &b"two".to_vec(), 3),
        Err(OpError::AccountAlreadyExists)
    );
    let post = ledger.get_post(&owner, &b"Rust".to_vec()).unwrap();
    assert_eq!(post.content, b"one".to_vec());
}

#[test]
fn initialize_blog_twice_fails() {
    let mut ledger = fresh_ledger();
    let owner = id(1);
    assert_eq!(
        ledger.initialize_blog(&owner, &b"Tech".to_vec(), &b"d".to_vec(), 1),
        Ok(())
    );
    assert_eq!(
        ledger.initialize_blog(&owner, &b"Tech".to_vec(), &b"other".to_vec(), 2),
        Err(OpError::AccountAlreadyExists)
    );
}

#[test]
fn post_counter_tracks_creates_and_deletes() {
    let mut ledger = fresh_ledger();
    let owner = id(1);
    assert_eq!(
        ledger.initialize_blog(&owner, &b"Tech".to_vec(), &b"d".to_vec(), 1),
        Ok(())
    );
    for (title, stamp) in [(b"a".to_vec(), 2i64), (b"b".to_vec(), 3), (b"c".to_vec(), 4)] {
        assert_eq!(
            ledger.create_blog_post(&owner, &b"Tech".to_vec(), &title, &b"x".to_vec(), stamp),
            Ok(())
        );
    }
    assert_eq!(ledger.get_blog(&owner, &b"Tech".to_vec()).unwrap().number_of_posts, 3);
    assert_eq!(
        ledger.delete_blog_post(&owner, &b"Tech".to_vec(), &b"b".to_vec()),
        Ok(())
    );
    assert_eq!(ledger.get_blog(&owner, &b"Tech".to_vec()).unwrap().number_of_posts, 2);
    assert!(ledger.get_post(&owner, &b"b".to_vec()).is_none());
}

#[test]
fn delete_post_against_empty_blog_underflows() {
    let mut ledger = fresh_ledger();
    let owner = id(1);
    assert_eq!(
        ledger.initialize_blog(&owner, &b"Full".to_vec(), &b"d".to_vec(), 1),
        Ok(())
    );
    assert_eq!(
        ledger.initialize_blog(&owner, &b"Empty".to_vec(), &b"d".to_vec(), 2),
        Ok(())
    );
    assert_eq!(
        ledger.create_blog_post(&owner, &b"Full".to_vec(), &b"Rust".to_vec(), &b"x".to_vec(), 3),
        Ok(())
    );
    // The deletion names the empty blog: its counter cannot drop below zero.
    assert_eq!(
        ledger.delete_blog_post(&owner, &b"Empty".to_vec(), &b"Rust".to_vec()),
        Err(OpError::Program(BlogError::Underflow))
    );
}

#[test]
fn update_blog_post_replaces_content_and_stamp() {
    let mut ledger = fresh_ledger();
    let owner = id(1);
    assert_eq!(
        ledger.initialize_blog(&owner, &b"Tech".to_vec(), &b"d".to_vec(), 1),
        Ok(())
    );
    assert_eq!(
        ledger.create_blog_post(&owner, &b"Tech".to_vec(), &b"Rust".to_vec(), &b"before".to_vec(), 2),
        Ok(())
    );
    assert_eq!(
        ledger.update_blog_post(&owner, &b"Tech".to_vec(), &b"Rust".to_vec(), &b"after".to_vec(), 9),
        Ok(())
    );
    let post = ledger.get_post(&owner, &b"Rust".to_vec()).unwrap();
    assert_eq!(post.content, b"after".to_vec());
    assert_eq!(post.updated_at, 9);
    assert_eq!(post.created_at, 2);
    assert_eq!(post.number_of_comments, 0);
}

#[test]
fn update_absent_post_is_not_found() {
    let mut ledger = fresh_ledger();
    let owner = id(1);
    assert_eq!(
        ledger.initialize_blog(&owner, &b"Tech".to_vec(), &b"d".to_vec(), 1),
        Ok(())
    );
    assert_eq!(
        ledger.update_blog_post(&owner, &b"Tech".to_vec(), &b"Rust".to_vec(), &b"x".to_vec(), 2),
        Err(OpError::AccountNotFound)
    );
}

#[test]
fn create_post_without_blog_is_not_found() {
    let mut ledger = fresh_ledger();
    let owner = id(1);
    assert_eq!(
        ledger.create_blog_post(&owner, &b"Tech".to_vec(), &b"Rust".to_vec(), &b"x".to_vec(), 1),
        Err(OpError::AccountNotFound)
    );
}

#[test]
fn comment_by_same_author_twice_fails() {
    let mut ledger = fresh_ledger();
    let owner = id(1);
    let reader = id(2);
    assert_eq!(
        ledger.initialize_blog(&owner, &b"Tech".to_vec(), &b"d".to_vec(), 1),
        Ok(())
    );
    assert_eq!(
        ledger.create_blog_post(&owner, &b"Tech".to_vec(), &b"Rust".to_vec(), &b"x".to_vec(), 2),
        Ok(())
    );
    assert_eq!(
        ledger.add_comment(&reader, &owner, &b"Rust".to_vec(), &b"one".to_vec(), 3),
        Ok(())
    );
    assert_eq!(
        ledger.add_comment(&reader, &owner, &b"Rust".to_vec(), &b"two".to_vec(), 4),
        Err(OpError::AccountAlreadyExists)
    );
    let comment = ledger.get_comment(&owner, &b"Rust".to_vec(), &reader).unwrap();
    assert_eq!(comment.content, b"one".to_vec());
}

#[test]
fn comment_deletion_rights() {
    let mut ledger = fresh_ledger();
    let owner = id(1);
    let reader = id(2);
    let stranger = id(3);
    assert_eq!(
        ledger.initialize_blog(&owner, &b"Tech".to_vec(), &b"d".to_vec(), 1),
        Ok(())
    );
    assert_eq!(
        ledger.create_blog_post(&owner, &b"Tech".to_vec(), &b"Rust".to_vec(), &b"x".to_vec(), 2),
        Ok(())
    );
    assert_eq!(
        ledger.add_comment(&reader, &owner, &b"Rust".to_vec(), &b"hi".to_vec(), 3),
        Ok(())
    );
    // A third party may not delete the reader's comment.
    assert_eq!(
        ledger.delete_comment(&stranger, &owner, &b"Rust".to_vec(), &reader),
        Err(OpError::Program(BlogError::UnauthorizedOwner))
    );
    // The author may, though not the post owner.
    assert_eq!(
        ledger.delete_comment(&reader, &owner, &b"Rust".to_vec(), &reader),
        Ok(())
    );
    assert!(ledger.get_comment(&owner, &b"Rust".to_vec(), &reader).is_none());
    // The post owner may delete another author's comment.
    assert_eq!(
        ledger.add_comment(&reader, &owner, &b"Rust".to_vec(), &b"hi".to_vec(), 4),
        Ok(())
    );
    assert_eq!(
        ledger.delete_comment(&owner, &owner, &b"Rust".to_vec(), &reader),
        Ok(())
    );
    assert_eq!(ledger.get_post(&owner, &b"Rust".to_vec()).unwrap().number_of_comments, 0);
}

#[test]
fn delete_absent_comment_is_not_found() {
    let mut ledger = fresh_ledger();
    let owner = id(1);
    let reader = id(2);
    assert_eq!(
        ledger.initialize_blog(&owner, &b"Tech".to_vec(), &b"d".to_vec(), 1),
        Ok(())
    );
    assert_eq!(
        ledger.create_blog_post(&owner, &b"Tech".to_vec(), &b"Rust".to_vec(), &b"x".to_vec(), 2),
        Ok(())
    );
    assert_eq!(
        ledger.delete_comment(&reader, &owner, &b"Rust".to_vec(), &reader),
        Err(OpError::AccountNotFound)
    );
}

#[test]
fn initialized_blog_carries_its_fields() {
    let mut ledger = fresh_ledger();
    let owner = id(1);
    assert_eq!(
        ledger.initialize_blog(&owner, &b"Tech".to_vec(), &b"My blog".to_vec(), 42),
        Ok(())
    );
    let blog = ledger.get_blog(&owner, &b"Tech".to_vec()).unwrap();
    assert_eq!(blog.owner, owner);
    assert_eq!(blog.title, b"Tech".to_vec());
    assert_eq!(blog.description, b"My blog".to_vec());
    assert_eq!(blog.number_of_posts, 0);
    assert_eq!(blog.created_at, 42);
}

#[test]
fn comment_links_back_to_post_and_blog() {
    let mut ledger = fresh_ledger();
    let owner = id(1);
    let reader = id(2);
    assert_eq!(
        ledger.initialize_blog(&owner, &b"Tech".to_vec(), &b"d".to_vec(), 1),
        Ok(())
    );
    assert_eq!(
        ledger.create_blog_post(&owner, &b"Tech".to_vec(), &b"Rust".to_vec(), &b"x".to_vec(), 2),
        Ok(())
    );
    assert_eq!(
        ledger.add_comment(&reader, &owner, &b"Rust".to_vec(), &b"hi".to_vec(), 3),
        Ok(())
    );
    let (post_addr, _) = post_address(&pid(), &owner, &b"Rust".to_vec()).unwrap();
    let (blog_addr, _) = blog_address(&pid(), &owner, &b"Tech".to_vec()).unwrap();
    let comment = ledger.get_comment(&owner, &b"Rust".to_vec(), &reader).unwrap();
    assert_eq!(comment.blog_post, post_addr);
    assert_eq!(comment.blog, blog_addr);
    assert_eq!(comment.comment_author, reader);
    assert_eq!(comment.created_at, 3);
    let post = ledger.get_post(&owner, &b"Rust".to_vec()).unwrap();
    assert_eq!(post.blog, blog_addr);
    assert_eq!(post.owner, owner);
}

#[test]
fn counters_report_their_bounds() {
    assert_eq!(checked_increment(0), Ok(1));
    assert_eq!(checked_increment(41), Ok(42));
    assert_eq!(checked_increment(u64::MAX), Err(BlogError::Overflow));
    assert_eq!(checked_decrement(42), Ok(41));
    assert_eq!(checked_decrement(0), Err(BlogError::Underflow));
    assert_eq!(increment(5), 6);
}
