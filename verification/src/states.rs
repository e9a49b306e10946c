//! The three record kinds the ledger holds, with their mathematical views.
//!
//! Identities and parent addresses are 32-byte strings; titles, descriptions
//! and contents are byte strings bounded by the limits below.  The salt of
//! each record is the bump byte its address derivation produced.

use vstd::prelude::*;

use crate::crypto::ID_LEN;

verus! {

/// Longest blog title, in bytes.
pub const BLOG_TITLE_MAX: usize = 32;

/// Longest blog description, in bytes.
pub const BLOG_DESCRIPTION_MAX: usize = 100;

/// Longest post title, in bytes.
pub const POST_TITLE_MAX: usize = 50;

/// Longest post content, in bytes.
pub const POST_CONTENT_MAX: usize = 5000;

/// Longest comment content, in bytes.
pub const COMMENT_CONTENT_MAX: usize = 300;

/// A blog: an owner with a title, counting its posts.
pub struct Blog {
    pub owner: Vec<u8>,
    pub title: Vec<u8>,
    pub description: Vec<u8>,
    pub number_of_posts: u64,
    pub created_at: i64,
    pub bump: u8,
}

/// The view of a `Blog`.
pub struct BlogView {
    pub owner: Seq<u8>,
    pub title: Seq<u8>,
    pub description: Seq<u8>,
    pub number_of_posts: u64,
    pub created_at: i64,
    pub bump: u8,
}

impl View for Blog {
    type V = BlogView;

    open spec fn view(&self) -> BlogView {
        BlogView {
            owner: self.owner@,
            title: self.title@,
            description: self.description@,
            number_of_posts: self.number_of_posts,
            created_at: self.created_at,
            bump: self.bump,
        }
    }
}

impl BlogView {
    /// Field bounds every stored blog satisfies.
    pub open spec fn wf(self) -> bool {
        &&& self.owner.len() == ID_LEN
        &&& self.title.len() <= BLOG_TITLE_MAX
        &&& self.description.len() <= BLOG_DESCRIPTION_MAX
    }
}

/// A post: owned by its blog's owner, pointing back at the blog, counting its
/// comments.
pub struct BlogPost {
    pub owner: Vec<u8>,
    pub blog: Vec<u8>,
    pub title: Vec<u8>,
    pub content: Vec<u8>,
    pub number_of_comments: u64,
    pub created_at: i64,
    pub updated_at: i64,
    pub bump: u8,
}

/// The view of a `BlogPost`.
pub struct BlogPostView {
    pub owner: Seq<u8>,
    pub blog: Seq<u8>,
    pub title: Seq<u8>,
    pub content: Seq<u8>,
    pub number_of_comments: u64,
    pub created_at: i64,
    pub updated_at: i64,
    pub bump: u8,
}

impl View for BlogPost {
    type V = BlogPostView;

    open spec fn view(&self) -> BlogPostView {
        BlogPostView {
            owner: self.owner@,
            blog: self.blog@,
            title: self.title@,
            content: self.content@,
            number_of_comments: self.number_of_comments,
            created_at: self.created_at,
            updated_at: self.updated_at,
            bump: self.bump,
        }
    }
}

impl BlogPostView {
    /// Field bounds every stored post satisfies.
    pub open spec fn wf(self) -> bool {
        &&& self.owner.len() == ID_LEN
        &&& self.blog.len() == ID_LEN
        &&& self.title.len() <= POST_TITLE_MAX
        &&& self.content.len() <= POST_CONTENT_MAX
    }
}

/// A comment: an author's one remark under a post, pointing back at the post
/// and its blog.
pub struct Comment {
    pub comment_author: Vec<u8>,
    pub blog_post: Vec<u8>,
    pub blog: Vec<u8>,
    pub content: Vec<u8>,
    pub created_at: i64,
    pub bump: u8,
}

/// The view of a `Comment`.
pub struct CommentView {
    pub comment_author: Seq<u8>,
    pub blog_post: Seq<u8>,
    pub blog: Seq<u8>,
    pub content: Seq<u8>,
    pub created_at: i64,
    pub bump: u8,
}

impl View for Comment {
    type V = CommentView;

    open spec fn view(&self) -> CommentView {
        CommentView {
            comment_author: self.comment_author@,
            blog_post: self.blog_post@,
            blog: self.blog@,
            content: self.content@,
            created_at: self.created_at,
            bump: self.bump,
        }
    }
}

impl CommentView {
    /// Field bounds every stored comment satisfies.
    pub open spec fn wf(self) -> bool {
        &&& self.comment_author.len() == ID_LEN
        &&& self.blog_post.len() == ID_LEN
        &&& self.blog.len() == ID_LEN
        &&& self.content.len() <= COMMENT_CONTENT_MAX
    }
}

} // verus!
