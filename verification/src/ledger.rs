//! The ledger and its six lifecycle operations.
//!
//! Each record lives at an address derived from its logical key: a blog at
//! derive(title, owner), a post at derive(sha256(title), owner), a comment at
//! derive("comment", post address, author).  Each operation resolves the
//! addresses it names, validates presence, checks authorization, moves the
//! affected counter, and only then commits; every outcome is pinned down by
//! the `spec_*` transition function in the operation's contract.

use vstd::prelude::*;

use crate::auth::{authorize_comment_deletion, authorize_cross_link, authorize_owner};
use crate::counter::{checked_decrement, checked_increment, increment};
use crate::crypto::{hash_string_content, pda_of, sha256_of, try_find_pda, ID_LEN};
use crate::errors::{BlogError, OpError};
use crate::states::{
    Blog, BlogPost, BlogPostView, BlogView, Comment, CommentView, BLOG_DESCRIPTION_MAX,
    BLOG_TITLE_MAX, COMMENT_CONTENT_MAX, POST_CONTENT_MAX, POST_TITLE_MAX,
};
use crate::store::{clone_bytes, Store};

verus! {

/// The seed tag that starts every comment derivation: "comment" in ASCII.
pub open spec fn comment_tag() -> Seq<u8> {
    seq![99u8, 111u8, 109u8, 109u8, 101u8, 110u8, 116u8]
}

/// The seed list of a blog: its title, then its owner.
pub open spec fn spec_blog_seeds(title: Seq<u8>, owner: Seq<u8>) -> Seq<Seq<u8>> {
    seq![title, owner]
}

/// The seed list of a post: the digest of its title, then its owner.
pub open spec fn spec_post_seeds(title: Seq<u8>, owner: Seq<u8>) -> Seq<Seq<u8>> {
    seq![sha256_of(title), owner]
}

/// The seed list of a comment: the tag, the post's address, the author.
pub open spec fn spec_comment_seeds(post_addr: Seq<u8>, author: Seq<u8>) -> Seq<Seq<u8>> {
    seq![comment_tag(), post_addr, author]
}

/// The derived (address, salt) of a blog.
pub open spec fn spec_blog_pda(program_id: Seq<u8>, owner: Seq<u8>, title: Seq<u8>) -> Option<
    (Seq<u8>, u8),
> {
    pda_of(spec_blog_seeds(title, owner), program_id)
}

/// The derived (address, salt) of a post.
pub open spec fn spec_post_pda(program_id: Seq<u8>, owner: Seq<u8>, title: Seq<u8>) -> Option<
    (Seq<u8>, u8),
> {
    pda_of(spec_post_seeds(title, owner), program_id)
}

/// The derived (address, salt) of a comment.
pub open spec fn spec_comment_pda(program_id: Seq<u8>, post_addr: Seq<u8>, author: Seq<u8>) -> Option<
    (Seq<u8>, u8),
> {
    pda_of(spec_comment_seeds(post_addr, author), program_id)
}

/// The tag that starts every comment derivation, as bytes.
fn comment_tag_bytes() -> (r: Vec<u8>)
    ensures
        r@ == comment_tag(),
{
    let mut r: Vec<u8> = Vec::new();
    r.push(99);
    r.push(111);
    r.push(109);
    r.push(109);
    r.push(101);
    r.push(110);
    r.push(116);
    proof {
        assert(r@ =~= comment_tag());
    }
    r
}

/// The derived (address, salt) of the blog with this owner and title.
pub fn blog_address(program_id: &Vec<u8>, owner: &Vec<u8>, title: &Vec<u8>) -> (r: Option<
    (Vec<u8>, u8),
>)
    requires
        program_id@.len() == ID_LEN,
    ensures
        match r {
            Some(pair) => spec_blog_pda(program_id@, owner@, title@) == Some((pair.0@, pair.1))
                && pair.0@.len() == ID_LEN,
            None => spec_blog_pda(program_id@, owner@, title@) is None,
        },
{
    let mut seeds: Vec<Vec<u8>> = Vec::new();
    seeds.push(clone_bytes(title));
    seeds.push(clone_bytes(owner));
    proof {
        assert(seeds.deep_view() =~~= spec_blog_seeds(title@, owner@));
    }
    try_find_pda(&seeds, program_id)
}

/// The derived (address, salt) of the post with this owner and title.
pub fn post_address(program_id: &Vec<u8>, owner: &Vec<u8>, title: &Vec<u8>) -> (r: Option<
    (Vec<u8>, u8),
>)
    requires
        program_id@.len() == ID_LEN,
    ensures
        match r {
            Some(pair) => spec_post_pda(program_id@, owner@, title@) == Some((pair.0@, pair.1))
                && pair.0@.len() == ID_LEN,
            None => spec_post_pda(program_id@, owner@, title@) is None,
        },
{
    let mut seeds: Vec<Vec<u8>> = Vec::new();
    seeds.push(hash_string_content(title));
    seeds.push(clone_bytes(owner));
    proof {
        assert(seeds.deep_view() =~~= spec_post_seeds(title@, owner@));
    }
    try_find_pda(&seeds, program_id)
}

/// The derived (address, salt) of the comment by this author under the post
/// at this address.
pub fn comment_address(program_id: &Vec<u8>, post_addr: &Vec<u8>, author: &Vec<u8>) -> (r: Option<
    (Vec<u8>, u8),
>)
    requires
        program_id@.len() == ID_LEN,
    ensures
        match r {
            Some(pair) => spec_comment_pda(program_id@, post_addr@, author@) == Some(
                (pair.0@, pair.1),
            ) && pair.0@.len() == ID_LEN,
            None => spec_comment_pda(program_id@, post_addr@, author@) is None,
        },
{
    let mut seeds: Vec<Vec<u8>> = Vec::new();
    seeds.push(comment_tag_bytes());
    seeds.push(clone_bytes(post_addr));
    seeds.push(clone_bytes(author));
    proof {
        assert(seeds.deep_view() =~~= spec_comment_seeds(post_addr@, author@));
    }
    try_find_pda(&seeds, program_id)
}

/// The ledger: every record of the model, keyed by derived address, under one
/// program identity.
pub struct Ledger {
    pub program_id: Vec<u8>,
    pub blogs: Store<Blog>,
    pub posts: Store<BlogPost>,
    pub comments: Store<Comment>,
}

/// The view of a `Ledger`.
#[verifier::ext_equal]
pub struct LedgerView {
    pub program_id: Seq<u8>,
    pub blogs: Map<Seq<u8>, BlogView>,
    pub posts: Map<Seq<u8>, BlogPostView>,
    pub comments: Map<Seq<u8>, CommentView>,
}

impl View for Ledger {
    type V = LedgerView;

    open spec fn view(&self) -> LedgerView {
        LedgerView {
            program_id: self.program_id@,
            blogs: self.blogs@,
            posts: self.posts@,
            comments: self.comments@,
        }
    }
}

/// Every stored record satisfies its field bounds.
pub open spec fn records_wf(s: LedgerView) -> bool {
    &&& forall|a: Seq<u8>| #[trigger] s.blogs.contains_key(a) ==> s.blogs[a].wf()
    &&& forall|a: Seq<u8>| #[trigger] s.posts.contains_key(a) ==> s.posts[a].wf()
    &&& forall|a: Seq<u8>| #[trigger] s.comments.contains_key(a) ==> s.comments[a].wf()
}

impl Ledger {
    /// The program identity is an identity, no address is doubly filled, and
    /// every stored record satisfies its field bounds.
    pub open spec fn wf(&self) -> bool {
        &&& self.program_id@.len() == ID_LEN
        &&& self.blogs.wf()
        &&& self.posts.wf()
        &&& self.comments.wf()
        &&& records_wf(self@)
    }

    /// An empty ledger under the given program identity.
    pub fn new(program_id: Vec<u8>) -> (l: Ledger)
        requires
            program_id@.len() == ID_LEN,
        ensures
            l.wf(),
            l@.program_id == program_id@,
            l@.blogs == Map::<Seq<u8>, BlogView>::empty(),
            l@.posts == Map::<Seq<u8>, BlogPostView>::empty(),
            l@.comments == Map::<Seq<u8>, CommentView>::empty(),
    {
        Ledger { program_id, blogs: Store::new(), posts: Store::new(), comments: Store::new() }
    }
}

/// What initializing a blog does: the new state and the outcome.
pub open spec fn spec_initialize_blog(
    s: LedgerView,
    owner: Seq<u8>,
    title: Seq<u8>,
    description: Seq<u8>,
    now: i64,
) -> (LedgerView, Result<(), OpError>) {
    match spec_blog_pda(s.program_id, owner, title) {
        None => (s, Err(OpError::AddressUnavailable)),
        Some((addr, salt)) => {
            if s.blogs.contains_key(addr) {
                (s, Err(OpError::AccountAlreadyExists))
            } else {
                let blog = BlogView {
                    owner,
                    title,
                    description,
                    number_of_posts: 0,
                    created_at: now,
                    bump: salt,
                };
                (LedgerView { blogs: s.blogs.insert(addr, blog), ..s }, Ok(()))
            }
        },
    }
}

impl Ledger {
    /// Create the blog with this owner and title, empty of posts, stamped
    /// `now`.  Rejected when its derived address is occupied.
    pub fn initialize_blog(
        &mut self,
        owner: &Vec<u8>,
        title: &Vec<u8>,
        description: &Vec<u8>,
        now: i64,
    ) -> (r: Result<(), OpError>)
        requires
            old(self).wf(),
            owner@.len() == ID_LEN,
            title@.len() <= BLOG_TITLE_MAX,
            description@.len() <= BLOG_DESCRIPTION_MAX,
        ensures
            final(self).wf(),
            final(self)@ == spec_initialize_blog(old(self)@, owner@, title@, description@, now).0,
            r == spec_initialize_blog(old(self)@, owner@, title@, description@, now).1,
    {
        match blog_address(&self.program_id, owner, title) {
            None => Err(OpError::AddressUnavailable),
            Some((addr, salt)) => {
                if self.blogs.contains(&addr) {
                    Err(OpError::AccountAlreadyExists)
                } else {
                    let blog = Blog {
                        owner: clone_bytes(owner),
                        title: clone_bytes(title),
                        description: clone_bytes(description),
                        number_of_posts: 0,
                        created_at: now,
                        bump: salt,
                    };
                    self.blogs.insert(addr, blog);
                    proof {
                        assert(self@ =~= spec_initialize_blog(
                            old(self)@,
                            owner@,
                            title@,
                            description@,
                            now,
                        ).0);
                    }
                    Ok(())
                }
            },
        }
    }
}

/// What creating a post does: the new state and the outcome.
///
/// The post's slot is claimed first, then the parent blog named by
/// `blog_title` is resolved and must be the signer's own; the blog's post
/// counter moves through the checked increment.
pub open spec fn spec_create_blog_post(
    s: LedgerView,
    signer: Seq<u8>,
    blog_title: Seq<u8>,
    title: Seq<u8>,
    content: Seq<u8>,
    now: i64,
) -> (LedgerView, Result<(), OpError>) {
    match spec_post_pda(s.program_id, signer, title) {
        None => (s, Err(OpError::AddressUnavailable)),
        Some((post_addr, salt)) => {
            if s.posts.contains_key(post_addr) {
                (s, Err(OpError::AccountAlreadyExists))
            } else {
                match spec_blog_pda(s.program_id, signer, blog_title) {
                    None => (s, Err(OpError::AddressUnavailable)),
                    Some((blog_addr, _blog_salt)) => {
                        if !s.blogs.contains_key(blog_addr) {
                            (s, Err(OpError::AccountNotFound))
                        } else {
                            let blog = s.blogs[blog_addr];
                            if blog.owner != signer {
                                (s, Err(OpError::Program(BlogError::UnauthorizedOwner)))
                            } else if blog.number_of_posts == u64::MAX {
                                (s, Err(OpError::Program(BlogError::Overflow)))
                            } else {
                                let post = BlogPostView {
                                    owner: signer,
                                    blog: blog_addr,
                                    title,
                                    content,
                                    number_of_comments: 0,
                                    created_at: now,
                                    updated_at: 0,
                                    bump: salt,
                                };
                                let counted = BlogView {
                                    number_of_posts: (blog.number_of_posts + 1) as u64,
                                    ..blog
                                };
                                (
                                    LedgerView {
                                        blogs: s.blogs.insert(blog_addr, counted),
                                        posts: s.posts.insert(post_addr, post),
                                        ..s
                                    },
                                    Ok(()),
                                )
                            }
                        }
                    },
                }
            }
        },
    }
}

impl Ledger {
    /// Create the post with this title under the signer's blog named
    /// `blog_title`, empty of comments, stamped `now`, and count it on the
    /// blog.  Rejected when the post's derived address is occupied, when the
    /// blog is absent or not the signer's, or when the blog's counter is
    /// saturated.
    pub fn create_blog_post(
        &mut self,
        signer: &Vec<u8>,
        blog_title: &Vec<u8>,
        title: &Vec<u8>,
        content: &Vec<u8>,
        now: i64,
    ) -> (r: Result<(), OpError>)
        requires
            old(self).wf(),
            signer@.len() == ID_LEN,
            blog_title@.len() <= BLOG_TITLE_MAX,
            title@.len() <= POST_TITLE_MAX,
            content@.len() <= POST_CONTENT_MAX,
        ensures
            final(self).wf(),
            final(self)@ == spec_create_blog_post(
                old(self)@,
                signer@,
                blog_title@,
                title@,
                content@,
                now,
            ).0,
            r == spec_create_blog_post(old(self)@, signer@, blog_title@, title@, content@, now).1,
    {
        let post_pair = match post_address(&self.program_id, signer, title) {
            None => {
                return Err(OpError::AddressUnavailable);
            },
            Some(pair) => pair,
        };
        let (post_addr, post_salt) = post_pair;
        if self.posts.contains(&post_addr) {
            return Err(OpError::AccountAlreadyExists);
        }
        let blog_pair = match blog_address(&self.program_id, signer, blog_title) {
            None => {
                return Err(OpError::AddressUnavailable);
            },
            Some(pair) => pair,
        };
        let (blog_addr, _blog_salt) = blog_pair;
        let counted = match self.blogs.get(&blog_addr) {
            None => {
                return Err(OpError::AccountNotFound);
            },
            Some(blog) => {
                if let Err(e) = authorize_owner(signer, &blog.owner) {
                    return Err(OpError::Program(e));
                }
                match checked_increment(blog.number_of_posts) {
                    Err(e) => {
                        return Err(OpError::Program(e));
                    },
                    Ok(n) => Blog {
                        owner: clone_bytes(&blog.owner),
                        title: clone_bytes(&blog.title),
                        description: clone_bytes(&blog.description),
                        number_of_posts: n,
                        created_at: blog.created_at,
                        bump: blog.bump,
                    },
                }
            },
        };
        let post = BlogPost {
            owner: clone_bytes(signer),
            blog: clone_bytes(&blog_addr),
            title: clone_bytes(title),
            content: clone_bytes(content),
            number_of_comments: 0,
            created_at: now,
            updated_at: 0,
            bump: post_salt,
        };
        self.posts.insert(post_addr, post);
        self.blogs.set(&blog_addr, counted);
        proof {
            assert(self@ =~= spec_create_blog_post(
                old(self)@,
                signer@,
                blog_title@,
                title@,
                content@,
                now,
            ).0);
        }
        Ok(())
    }
}

/// What updating a post does: the new state and the outcome.
///
/// The post is the signer's own, found at derive(sha256(title), signer); the
/// signer must also own the blog named by `blog_title`.  Only the content and
/// the update stamp move.
pub open spec fn spec_update_blog_post(
    s: LedgerView,
    signer: Seq<u8>,
    blog_title: Seq<u8>,
    title: Seq<u8>,
    content: Seq<u8>,
    now: i64,
) -> (LedgerView, Result<(), OpError>) {
    match spec_post_pda(s.program_id, signer, title) {
        None => (s, Err(OpError::AddressUnavailable)),
        Some((post_addr, _post_salt)) => {
            if !s.posts.contains_key(post_addr) {
                (s, Err(OpError::AccountNotFound))
            } else {
                match spec_blog_pda(s.program_id, signer, blog_title) {
                    None => (s, Err(OpError::AddressUnavailable)),
                    Some((blog_addr, _blog_salt)) => {
                        if !s.blogs.contains_key(blog_addr) {
                            (s, Err(OpError::AccountNotFound))
                        } else if s.blogs[blog_addr].owner != signer {
                            (s, Err(OpError::Program(BlogError::UnauthorizedOwner)))
                        } else {
                            let post = s.posts[post_addr];
                            let updated = BlogPostView { content, updated_at: now, ..post };
                            (
                                LedgerView { posts: s.posts.insert(post_addr, updated), ..s },
                                Ok(()),
                            )
                        }
                    },
                }
            }
        },
    }
}

/// What deleting a post does: the new state and the outcome.
///
/// The signer must own both the post's slot (it is found under the signer's
/// key) and the blog named by `blog_title`, and the two records must name the
/// same owner; the blog's counter moves through the checked decrement and the
/// post's storage is reclaimed.
pub open spec fn spec_delete_blog_post(
    s: LedgerView,
    signer: Seq<u8>,
    blog_title: Seq<u8>,
    title: Seq<u8>,
) -> (LedgerView, Result<(), OpError>) {
    match spec_post_pda(s.program_id, signer, title) {
        None => (s, Err(OpError::AddressUnavailable)),
        Some((post_addr, _post_salt)) => {
            if !s.posts.contains_key(post_addr) {
                (s, Err(OpError::AccountNotFound))
            } else {
                match spec_blog_pda(s.program_id, signer, blog_title) {
                    None => (s, Err(OpError::AddressUnavailable)),
                    Some((blog_addr, _blog_salt)) => {
                        if !s.blogs.contains_key(blog_addr) {
                            (s, Err(OpError::AccountNotFound))
                        } else {
                            let blog = s.blogs[blog_addr];
                            let post = s.posts[post_addr];
                            if blog.owner != signer || post.owner != blog.owner {
                                (s, Err(OpError::Program(BlogError::UnauthorizedOwner)))
                            } else if blog.number_of_posts == 0 {
                                (s, Err(OpError::Program(BlogError::Underflow)))
                            } else {
                                let counted = BlogView {
                                    number_of_posts: (blog.number_of_posts - 1) as u64,
                                    ..blog
                                };
                                (
                                    LedgerView {
                                        blogs: s.blogs.insert(blog_addr, counted),
                                        posts: s.posts.remove(post_addr),
                                        ..s
                                    },
                                    Ok(()),
                                )
                            }
                        }
                    },
                }
            }
        },
    }
}

impl Ledger {
    /// Replace the content of the signer's post with this title and stamp the
    /// update `now`.  Rejected when the post or the named blog is absent, or
    /// the blog is not the signer's.
    pub fn update_blog_post(
        &mut self,
        signer: &Vec<u8>,
        blog_title: &Vec<u8>,
        title: &Vec<u8>,
        content: &Vec<u8>,
        now: i64,
    ) -> (r: Result<(), OpError>)
        requires
            old(self).wf(),
            signer@.len() == ID_LEN,
            blog_title@.len() <= BLOG_TITLE_MAX,
            title@.len() <= POST_TITLE_MAX,
            content@.len() <= POST_CONTENT_MAX,
        ensures
            final(self).wf(),
            final(self)@ == spec_update_blog_post(
                old(self)@,
                signer@,
                blog_title@,
                title@,
                content@,
                now,
            ).0,
            r == spec_update_blog_post(old(self)@, signer@, blog_title@, title@, content@, now).1,
    {
        let post_pair = match post_address(&self.program_id, signer, title) {
            None => {
                return Err(OpError::AddressUnavailable);
            },
            Some(pair) => pair,
        };
        let (post_addr, _post_salt) = post_pair;
        if !self.posts.contains(&post_addr) {
            return Err(OpError::AccountNotFound);
        }
        let blog_pair = match blog_address(&self.program_id, signer, blog_title) {
            None => {
                return Err(OpError::AddressUnavailable);
            },
            Some(pair) => pair,
        };
        let (blog_addr, _blog_salt) = blog_pair;
        match self.blogs.get(&blog_addr) {
            None => {
                return Err(OpError::AccountNotFound);
            },
            Some(blog) => {
                if let Err(e) = authorize_owner(signer, &blog.owner) {
                    return Err(OpError::Program(e));
                }
            },
        }
        let updated = match self.posts.get(&post_addr) {
            None => {
                proof {
                    assert(false);
                }
                return Err(OpError::AccountNotFound);
            },
            Some(post) => BlogPost {
                owner: clone_bytes(&post.owner),
                blog: clone_bytes(&post.blog),
                title: clone_bytes(&post.title),
                content: clone_bytes(content),
                number_of_comments: post.number_of_comments,
                created_at: post.created_at,
                updated_at: now,
                bump: post.bump,
            },
        };
        self.posts.set(&post_addr, updated);
        proof {
            assert(self@ =~= spec_update_blog_post(
                old(self)@,
                signer@,
                blog_title@,
                title@,
                content@,
                now,
            ).0);
        }
        Ok(())
    }

    /// Delete the signer's post with this title: reclaim its storage and
    /// count it off the blog named `blog_title`.  Rejected when either record
    /// is absent, when the blog is not the signer's or the pair is
    /// cross-linked, or when the blog's counter is already zero.
    pub fn delete_blog_post(&mut self, signer: &Vec<u8>, blog_title: &Vec<u8>, title: &Vec<u8>) -> (r:
        Result<(), OpError>)
        requires
            old(self).wf(),
            signer@.len() == ID_LEN,
            blog_title@.len() <= BLOG_TITLE_MAX,
            title@.len() <= POST_TITLE_MAX,
        ensures
            final(self).wf(),
            final(self)@ == spec_delete_blog_post(old(self)@, signer@, blog_title@, title@).0,
            r == spec_delete_blog_post(old(self)@, signer@, blog_title@, title@).1,
    {
        let post_pair = match post_address(&self.program_id, signer, title) {
            None => {
                return Err(OpError::AddressUnavailable);
            },
            Some(pair) => pair,
        };
        let (post_addr, _post_salt) = post_pair;
        if !self.posts.contains(&post_addr) {
            return Err(OpError::AccountNotFound);
        }
        let blog_pair = match blog_address(&self.program_id, signer, blog_title) {
            None => {
                return Err(OpError::AddressUnavailable);
            },
            Some(pair) => pair,
        };
        let (blog_addr, _blog_salt) = blog_pair;
        let counted = match self.blogs.get(&blog_addr) {
            None => {
                return Err(OpError::AccountNotFound);
            },
            Some(blog) => {
                let owner_auth = authorize_owner(signer, &blog.owner);
                let link_auth = match self.posts.get(&post_addr) {
                    None => {
                        proof {
                            assert(false);
                        }
                        Err(BlogError::UnauthorizedOwner)
                    },
                    Some(post) => authorize_cross_link(blog, post),
                };
                if owner_auth.is_err() || link_auth.is_err() {
                    return Err(OpError::Program(BlogError::UnauthorizedOwner));
                }
                match checked_decrement(blog.number_of_posts) {
                    Err(e) => {
                        return Err(OpError::Program(e));
                    },
                    Ok(n) => Blog {
                        owner: clone_bytes(&blog.owner),
                        title: clone_bytes(&blog.title),
                        description: clone_bytes(&blog.description),
                        number_of_posts: n,
                        created_at: blog.created_at,
                        bump: blog.bump,
                    },
                }
            },
        };
        self.posts.remove(&post_addr);
        self.blogs.set(&blog_addr, counted);
        proof {
            assert(self@ =~= spec_delete_blog_post(old(self)@, signer@, blog_title@, title@).0);
        }
        Ok(())
    }
}

/// No post's comment counter is saturated.
///
/// Comment-count increment treats saturation as fatal rather than reported,
/// so adding a comment demands this of the ledger up front.
pub open spec fn comments_unsaturated(s: LedgerView) -> bool {
    forall|a: Seq<u8>| #[trigger]
        s.posts.contains_key(a) ==> s.posts[a].number_of_comments < u64::MAX
}

/// What adding a comment does: the new state and the outcome.
///
/// The post is found at derive(sha256(post_title), post_owner); its parent
/// blog must be present and name the same owner.  Any author may comment, one
/// comment per (post, author) pair; the post's comment counter moves through
/// the unchecked increment, whose saturation is fatal, never reported.
pub open spec fn spec_add_comment(
    s: LedgerView,
    author: Seq<u8>,
    post_owner: Seq<u8>,
    post_title: Seq<u8>,
    content: Seq<u8>,
    now: i64,
) -> (LedgerView, Result<(), OpError>) {
    match spec_post_pda(s.program_id, post_owner, post_title) {
        None => (s, Err(OpError::AddressUnavailable)),
        Some((post_addr, _post_salt)) => {
            if !s.posts.contains_key(post_addr) {
                (s, Err(OpError::AccountNotFound))
            } else {
                let post = s.posts[post_addr];
                if !s.blogs.contains_key(post.blog) {
                    (s, Err(OpError::AccountNotFound))
                } else if s.blogs[post.blog].owner != post.owner {
                    (s, Err(OpError::Program(BlogError::UnauthorizedOwner)))
                } else {
                    match spec_comment_pda(s.program_id, post_addr, author) {
                        None => (s, Err(OpError::AddressUnavailable)),
                        Some((comment_addr, salt)) => {
                            if s.comments.contains_key(comment_addr) {
                                (s, Err(OpError::AccountAlreadyExists))
                            } else {
                                let comment = CommentView {
                                    comment_author: author,
                                    blog_post: post_addr,
                                    blog: post.blog,
                                    content,
                                    created_at: now,
                                    bump: salt,
                                };
                                let counted = BlogPostView {
                                    number_of_comments: (post.number_of_comments + 1) as u64,
                                    ..post
                                };
                                (
                                    LedgerView {
                                        posts: s.posts.insert(post_addr, counted),
                                        comments: s.comments.insert(comment_addr, comment),
                                        ..s
                                    },
                                    Ok(()),
                                )
                            }
                        },
                    }
                }
            }
        },
    }
}

/// What deleting a comment does: the new state and the outcome.
///
/// The comment is found at derive("comment", post address, author).  The
/// signer must be the comment's author or the post's owner; the post's
/// comment counter moves through the checked decrement and the comment's
/// storage is reclaimed.
pub open spec fn spec_delete_comment(
    s: LedgerView,
    signer: Seq<u8>,
    post_owner: Seq<u8>,
    post_title: Seq<u8>,
    author: Seq<u8>,
) -> (LedgerView, Result<(), OpError>) {
    match spec_post_pda(s.program_id, post_owner, post_title) {
        None => (s, Err(OpError::AddressUnavailable)),
        Some((post_addr, _post_salt)) => {
            if !s.posts.contains_key(post_addr) {
                (s, Err(OpError::AccountNotFound))
            } else {
                match spec_comment_pda(s.program_id, post_addr, author) {
                    None => (s, Err(OpError::AddressUnavailable)),
                    Some((comment_addr, _comment_salt)) => {
                        if !s.comments.contains_key(comment_addr) {
                            (s, Err(OpError::AccountNotFound))
                        } else {
                            let post = s.posts[post_addr];
                            let comment = s.comments[comment_addr];
                            if signer != comment.comment_author && signer != post.owner {
                                (s, Err(OpError::Program(BlogError::UnauthorizedOwner)))
                            } else if post.number_of_comments == 0 {
                                (s, Err(OpError::Program(BlogError::Underflow)))
                            } else {
                                let counted = BlogPostView {
                                    number_of_comments: (post.number_of_comments - 1) as u64,
                                    ..post
                                };
                                (
                                    LedgerView {
                                        posts: s.posts.insert(post_addr, counted),
                                        comments: s.comments.remove(comment_addr),
                                        ..s
                                    },
                                    Ok(()),
                                )
                            }
                        }
                    },
                }
            }
        },
    }
}

impl Ledger {
    /// Add the author's comment under the post with this owner and title,
    /// stamped `now`, and count it on the post.  Rejected when the post or
    /// its blog is absent, when the blog/post pair is cross-linked, or when
    /// the author already commented under the post.
    pub fn add_comment(
        &mut self,
        author: &Vec<u8>,
        post_owner: &Vec<u8>,
        post_title: &Vec<u8>,
        content: &Vec<u8>,
        now: i64,
    ) -> (r: Result<(), OpError>)
        requires
            old(self).wf(),
            comments_unsaturated(old(self)@),
            author@.len() == ID_LEN,
            post_owner@.len() == ID_LEN,
            post_title@.len() <= POST_TITLE_MAX,
            content@.len() <= COMMENT_CONTENT_MAX,
        ensures
            final(self).wf(),
            final(self)@ == spec_add_comment(
                old(self)@,
                author@,
                post_owner@,
                post_title@,
                content@,
                now,
            ).0,
            r == spec_add_comment(old(self)@, author@, post_owner@, post_title@, content@, now).1,
    {
        let post_pair = match post_address(&self.program_id, post_owner, post_title) {
            None => {
                return Err(OpError::AddressUnavailable);
            },
            Some(pair) => pair,
        };
        let (post_addr, _post_salt) = post_pair;
        let counted = match self.posts.get(&post_addr) {
            None => {
                return Err(OpError::AccountNotFound);
            },
            Some(post) => {
                match self.blogs.get(&post.blog) {
                    None => {
                        return Err(OpError::AccountNotFound);
                    },
                    Some(blog) => {
                        if let Err(e) = authorize_cross_link(blog, post) {
                            return Err(OpError::Program(e));
                        }
                    },
                }
                BlogPost {
                    owner: clone_bytes(&post.owner),
                    blog: clone_bytes(&post.blog),
                    title: clone_bytes(&post.title),
                    content: clone_bytes(&post.content),
                    number_of_comments: increment(post.number_of_comments),
                    created_at: post.created_at,
                    updated_at: post.updated_at,
                    bump: post.bump,
                }
            },
        };
        let comment_pair = match comment_address(&self.program_id, &post_addr, author) {
            None => {
                return Err(OpError::AddressUnavailable);
            },
            Some(pair) => pair,
        };
        let (comment_addr, comment_salt) = comment_pair;
        if self.comments.contains(&comment_addr) {
            return Err(OpError::AccountAlreadyExists);
        }
        let comment = Comment {
            comment_author: clone_bytes(author),
            blog_post: clone_bytes(&post_addr),
            blog: clone_bytes(&counted.blog),
            content: clone_bytes(content),
            created_at: now,
            bump: comment_salt,
        };
        self.comments.insert(comment_addr, comment);
        self.posts.set(&post_addr, counted);
        proof {
            assert(self@ =~= spec_add_comment(
                old(self)@,
                author@,
                post_owner@,
                post_title@,
                content@,
                now,
            ).0);
        }
        Ok(())
    }

    /// Delete the author's comment under the post with this owner and title:
    /// reclaim its storage and count it off the post.  Permitted to the
    /// comment's author and to the post's owner; rejected for anyone else,
    /// when either record is absent, or when the post's counter is already
    /// zero.
    pub fn delete_comment(
        &mut self,
        signer: &Vec<u8>,
        post_owner: &Vec<u8>,
        post_title: &Vec<u8>,
        author: &Vec<u8>,
    ) -> (r: Result<(), OpError>)
        requires
            old(self).wf(),
            signer@.len() == ID_LEN,
            post_owner@.len() == ID_LEN,
            post_title@.len() <= POST_TITLE_MAX,
            author@.len() == ID_LEN,
        ensures
            final(self).wf(),
            final(self)@ == spec_delete_comment(
                old(self)@,
                signer@,
                post_owner@,
                post_title@,
                author@,
            ).0,
            r == spec_delete_comment(old(self)@, signer@, post_owner@, post_title@, author@).1,
    {
        let post_pair = match post_address(&self.program_id, post_owner, post_title) {
            None => {
                return Err(OpError::AddressUnavailable);
            },
            Some(pair) => pair,
        };
        let (post_addr, _post_salt) = post_pair;
        if !self.posts.contains(&post_addr) {
            return Err(OpError::AccountNotFound);
        }
        let comment_pair = match comment_address(&self.program_id, &post_addr, author) {
            None => {
                return Err(OpError::AddressUnavailable);
            },
            Some(pair) => pair,
        };
        let (comment_addr, _comment_salt) = comment_pair;
        if !self.comments.contains(&comment_addr) {
            return Err(OpError::AccountNotFound);
        }
        let counted = match self.posts.get(&post_addr) {
            None => {
                proof {
                    assert(false);
                }
                return Err(OpError::AccountNotFound);
            },
            Some(post) => {
                let auth = match self.comments.get(&comment_addr) {
                    None => {
                        proof {
                            assert(false);
                        }
                        Err(BlogError::UnauthorizedOwner)
                    },
                    Some(comment) => authorize_comment_deletion(signer, comment, post),
                };
                if let Err(e) = auth {
                    return Err(OpError::Program(e));
                }
                match checked_decrement(post.number_of_comments) {
                    Err(e) => {
                        return Err(OpError::Program(e));
                    },
                    Ok(n) => BlogPost {
                        owner: clone_bytes(&post.owner),
                        blog: clone_bytes(&post.blog),
                        title: clone_bytes(&post.title),
                        content: clone_bytes(&post.content),
                        number_of_comments: n,
                        created_at: post.created_at,
                        updated_at: post.updated_at,
                        bump: post.bump,
                    },
                }
            },
        };
        self.comments.remove(&comment_addr);
        self.posts.set(&post_addr, counted);
        proof {
            assert(self@ =~= spec_delete_comment(
                old(self)@,
                signer@,
                post_owner@,
                post_title@,
                author@,
            ).0);
        }
        Ok(())
    }
}

/// The blog with this owner and title, if its derived address is filled.
pub open spec fn spec_blog_lookup(s: LedgerView, owner: Seq<u8>, title: Seq<u8>) -> Option<
    BlogView,
> {
    match spec_blog_pda(s.program_id, owner, title) {
        None => None,
        Some((addr, _salt)) => if s.blogs.contains_key(addr) {
            Some(s.blogs[addr])
        } else {
            None
        },
    }
}

/// The post with this owner and title, if its derived address is filled.
pub open spec fn spec_post_lookup(s: LedgerView, owner: Seq<u8>, title: Seq<u8>) -> Option<
    BlogPostView,
> {
    match spec_post_pda(s.program_id, owner, title) {
        None => None,
        Some((addr, _salt)) => if s.posts.contains_key(addr) {
            Some(s.posts[addr])
        } else {
            None
        },
    }
}

/// The comment by this author under the post with this owner and title, if
/// its derived address is filled.
pub open spec fn spec_comment_lookup(
    s: LedgerView,
    post_owner: Seq<u8>,
    post_title: Seq<u8>,
    author: Seq<u8>,
) -> Option<CommentView> {
    match spec_post_pda(s.program_id, post_owner, post_title) {
        None => None,
        Some((post_addr, _post_salt)) => match spec_comment_pda(s.program_id, post_addr, author) {
            None => None,
            Some((addr, _salt)) => if s.comments.contains_key(addr) {
                Some(s.comments[addr])
            } else {
                None
            },
        },
    }
}

impl Ledger {
    /// The blog with this owner and title, if present.
    pub fn get_blog(&self, owner: &Vec<u8>, title: &Vec<u8>) -> (r: Option<&Blog>)
        requires
            self.wf(),
        ensures
            match r {
                Some(blog) => spec_blog_lookup(self@, owner@, title@) == Some(blog@),
                None => spec_blog_lookup(self@, owner@, title@) is None,
            },
    {
        match blog_address(&self.program_id, owner, title) {
            None => None,
            Some((addr, _salt)) => self.blogs.get(&addr),
        }
    }

    /// The post with this owner and title, if present.
    pub fn get_post(&self, owner: &Vec<u8>, title: &Vec<u8>) -> (r: Option<&BlogPost>)
        requires
            self.wf(),
        ensures
            match r {
                Some(post) => spec_post_lookup(self@, owner@, title@) == Some(post@),
                None => spec_post_lookup(self@, owner@, title@) is None,
            },
    {
        match post_address(&self.program_id, owner, title) {
            None => None,
            Some((addr, _salt)) => self.posts.get(&addr),
        }
    }

    /// The comment by this author under the post with this owner and title,
    /// if present.
    pub fn get_comment(&self, post_owner: &Vec<u8>, post_title: &Vec<u8>, author: &Vec<u8>) -> (r:
        Option<&Comment>)
        requires
            self.wf(),
        ensures
            match r {
                Some(comment) => spec_comment_lookup(self@, post_owner@, post_title@, author@)
                    == Some(comment@),
                None => spec_comment_lookup(self@, post_owner@, post_title@, author@) is None,
            },
    {
        match post_address(&self.program_id, post_owner, post_title) {
            None => None,
            Some((post_addr, _post_salt)) => match comment_address(
                &self.program_id,
                &post_addr,
                author,
            ) {
                None => None,
                Some((addr, _salt)) => self.comments.get(&addr),
            },
        }
    }
}

} // verus!

