use blog::auth::{authorize_comment_deletion, authorize_cross_link, authorize_owner};
use blog::crypto::hash_string_content;
use blog::errors::BlogError;
use blog::states::{Blog, BlogPost, Comment};

fn id(byte: u8) -> Vec<u8> {
    vec![byte; 32]
}

fn sample_blog(owner: Vec<u8>) -> Blog {
    Blog {
        owner,
        title: b"Tech".to_vec(),
        description: b"d".to_vec(),
        number_of_posts: 0,
        created_at: 1,
        bump: 255,
    }
}

fn sample_post(owner: Vec<u8>) -> BlogPost {
    BlogPost {
        owner,
        blog: id(9),
        title: b"Rust".to_vec(),
        content: b"x".to_vec(),
        number_of_comments: 0,
        created_at: 1,
        updated_at: 0,
        bump: 254,
    }
}

fn sample_comment(author: Vec<u8>) -> Comment {
    Comment {
        comment_author: author,
        blog_post: id(8),
        blog: id(9),
        content: b"hi".to_vec(),
        created_at: 2,
        bump: 253,
    }
}

#[test]
fn hash_is_the_sha256_digest() {
    // The digest of the empty string, a fixed point of the SHA-256 standard.
    let expected: Vec<u8> = vec![
        0xe3, 0xb0, 0xc4, 0x42, 0x98, 0xfc, 0x1c, 0x14, 0x9a, 0xfb, 0xf4, 0xc8, 0x99, 0x6f, 0xb9,
        0x24, 0x27, 0xae, 0x41, 0xe4, 0x64, 0x9b, 0x93, 0x4c, 0xa4, 0x95, 0x99, 0x1b, 0x78, 0x52,
        0xb8, 0x55,
    ];
    assert_eq!(hash_string_content(&Vec::new()), expected);
    let titled = hash_string_content(&b"Rust".to_vec());
    assert_eq!(titled.len(), 32);
    assert_ne!(titled, expected);
    assert_ne!(titled, b"Rust".to_vec());
    assert_eq!(titled, hash_string_content(&b"Rust".to_vec()));
}

#[test]
fn owner_authorization_requires_equality() {
    assert_eq!(authorize_owner(&id(1), &id(1)), Ok(()));
    assert_eq!(authorize_owner(&id(1), &id(2)), Err(BlogError::UnauthorizedOwner));
}

#[test]
fn cross_link_authorization_compares_owners() {
    assert_eq!(authorize_cross_link(&sample_blog(id(1)), &sample_post(id(1))), Ok(()));
    assert_eq!(
        authorize_cross_link(&sample_blog(id(1)), &sample_post(id(2))),
        Err(BlogError::UnauthorizedOwner)
    );
}

#[test]
fn comment_deletion_authorization_accepts_author_or_owner() {
    let comment = sample_comment(id(2));
    let post = sample_post(id(1));
    assert_eq!(authorize_comment_deletion(&id(2), &comment, &post), Ok(()));
    assert_eq!(authorize_comment_deletion(&id(1), &comment, &post), Ok(()));
    assert_eq!(
        authorize_comment_deletion(&id(3), &comment, &post),
        Err(BlogError::UnauthorizedOwner)
    );
}
