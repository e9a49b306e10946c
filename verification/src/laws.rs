//! Laws of the ledger: properties relating several operations, stated over
//! the spec transition functions that the operations' own contracts pin down.

use vstd::prelude::*;

use crate::crypto::pda_of;
use crate::errors::{BlogError, OpError};
use crate::ledger::{
    spec_blog_pda, spec_comment_pda, spec_create_blog_post, spec_delete_blog_post,
    spec_delete_comment, spec_post_pda, LedgerView,
};

verus! {

/// The operation rejected with this error.
pub open spec fn rejected_with(r: Result<(), OpError>, e: OpError) -> bool {
    r is Err && r->Err_0 == e
}

/// The operation was applied.
pub open spec fn accepted(r: Result<(), OpError>) -> bool {
    r is Ok
}

/// Law: address derivation is a pure function of the seed list and the
/// deriving identity: equal inputs give equal derived pairs, however often
/// and wherever the derivation is repeated.
pub proof fn lemma_derivation_stable(
    seeds_a: Seq<Seq<u8>>,
    seeds_b: Seq<Seq<u8>>,
    pid_a: Seq<u8>,
    pid_b: Seq<u8>,
)
    requires
        seeds_a == seeds_b,
        pid_a == pid_b,
    ensures
        pda_of(seeds_a, pid_a) == pda_of(seeds_b, pid_b),
{
}

/// Law: creating a post whose owner (the signer) differs from the parent
/// blog's recorded owner is rejected as `UnauthorizedOwner`, whatever the
/// content and the stamp, and the ledger does not change.
pub proof fn lemma_create_post_unauthorized(
    s: LedgerView,
    signer: Seq<u8>,
    blog_title: Seq<u8>,
    title: Seq<u8>,
    content: Seq<u8>,
    now: i64,
    post_addr: Seq<u8>,
    post_salt: u8,
    blog_addr: Seq<u8>,
    blog_salt: u8,
)
    requires
        spec_post_pda(s.program_id, signer, title) == Some((post_addr, post_salt)),
        !s.posts.contains_key(post_addr),
        spec_blog_pda(s.program_id, signer, blog_title) == Some((blog_addr, blog_salt)),
        s.blogs.contains_key(blog_addr),
        s.blogs[blog_addr].owner != signer,
    ensures
        spec_create_blog_post(s, signer, blog_title, title, content, now).0 == s,
        rejected_with(
            spec_create_blog_post(s, signer, blog_title, title, content, now).1,
            OpError::Program(BlogError::UnauthorizedOwner),
        ),
{
}

/// Law: deleting a post when the parent blog's counter is already zero is
/// rejected as `Underflow`, and the ledger does not change.
pub proof fn lemma_delete_post_underflow(
    s: LedgerView,
    signer: Seq<u8>,
    blog_title: Seq<u8>,
    title: Seq<u8>,
    post_addr: Seq<u8>,
    post_salt: u8,
    blog_addr: Seq<u8>,
    blog_salt: u8,
)
    requires
        spec_post_pda(s.program_id, signer, title) == Some((post_addr, post_salt)),
        s.posts.contains_key(post_addr),
        s.posts[post_addr].owner == signer,
        spec_blog_pda(s.program_id, signer, blog_title) == Some((blog_addr, blog_salt)),
        s.blogs.contains_key(blog_addr),
        s.blogs[blog_addr].owner == signer,
        s.blogs[blog_addr].number_of_posts == 0,
    ensures
        spec_delete_blog_post(s, signer, blog_title, title).0 == s,
        rejected_with(
            spec_delete_blog_post(s, signer, blog_title, title).1,
            OpError::Program(BlogError::Underflow),
        ),
{
}

/// Law: the comment's author may delete it even when not the post's owner,
/// and the post's owner may delete it even when not its author; the comment
/// leaves the ledger and the post's counter drops by one.
pub proof fn lemma_delete_comment_permitted(
    s: LedgerView,
    signer: Seq<u8>,
    post_owner: Seq<u8>,
    post_title: Seq<u8>,
    author: Seq<u8>,
    post_addr: Seq<u8>,
    post_salt: u8,
    comment_addr: Seq<u8>,
    comment_salt: u8,
)
    requires
        spec_post_pda(s.program_id, post_owner, post_title) == Some((post_addr, post_salt)),
        s.posts.contains_key(post_addr),
        s.posts[post_addr].number_of_comments > 0,
        spec_comment_pda(s.program_id, post_addr, author) == Some((comment_addr, comment_salt)),
        s.comments.contains_key(comment_addr),
        s.comments[comment_addr].comment_author == author,
        signer == author || signer == s.posts[post_addr].owner,
    ensures
        accepted(spec_delete_comment(s, signer, post_owner, post_title, author).1),
        !spec_delete_comment(s, signer, post_owner, post_title, author).0.comments.contains_key(
            comment_addr,
        ),
        spec_delete_comment(
            s,
            signer,
            post_owner,
            post_title,
            author,
        ).0.posts[post_addr].number_of_comments == s.posts[post_addr].number_of_comments - 1,
{
}

/// Law: a signer who is neither the comment's author nor the post's owner is
/// refused with `UnauthorizedOwner`, and the ledger does not change.
pub proof fn lemma_delete_comment_refused(
    s: LedgerView,
    signer: Seq<u8>,
    post_owner: Seq<u8>,
    post_title: Seq<u8>,
    author: Seq<u8>,
    post_addr: Seq<u8>,
    post_salt: u8,
    comment_addr: Seq<u8>,
    comment_salt: u8,
)
    requires
        spec_post_pda(s.program_id, post_owner, post_title) == Some((post_addr, post_salt)),
        s.posts.contains_key(post_addr),
        spec_comment_pda(s.program_id, post_addr, author) == Some((comment_addr, comment_salt)),
        s.comments.contains_key(comment_addr),
        signer != s.comments[comment_addr].comment_author,
        signer != s.posts[post_addr].owner,
    ensures
        spec_delete_comment(s, signer, post_owner, post_title, author).0 == s,
        rejected_with(
            spec_delete_comment(s, signer, post_owner, post_title, author).1,
            OpError::Program(BlogError::UnauthorizedOwner),
        ),
{
}

/// Law: a creation that succeeded cannot be repeated: a second creation with
/// the same title under the same owner finds the derived address occupied
/// and is rejected as `AccountAlreadyExists`, leaving the ledger unchanged,
/// never a silent overwrite.
pub proof fn lemma_create_post_occupies_address(
    s: LedgerView,
    signer: Seq<u8>,
    blog_title: Seq<u8>,
    title: Seq<u8>,
    content: Seq<u8>,
    now: i64,
    content2: Seq<u8>,
    now2: i64,
    s1: LedgerView,
)
    requires
        spec_create_blog_post(s, signer, blog_title, title, content, now).1 is Ok,
        s1 == spec_create_blog_post(s, signer, blog_title, title, content, now).0,
    ensures
        spec_create_blog_post(s1, signer, blog_title, title, content2, now2).0 == s1,
        rejected_with(
            spec_create_blog_post(s1, signer, blog_title, title, content2, now2).1,
            OpError::AccountAlreadyExists,
        ),
{
}

/// One step of post lifecycle under a fixed signer and blog: a creation with
/// its title, content and stamp, or a deletion by title.
pub enum PostEvent {
    Create { title: Seq<u8>, content: Seq<u8>, now: i64 },
    Delete { title: Seq<u8> },
}

/// The state after one event.
pub open spec fn spec_apply_post_event(
    s: LedgerView,
    owner: Seq<u8>,
    blog_title: Seq<u8>,
    ev: PostEvent,
) -> (LedgerView, Result<(), OpError>) {
    match ev {
        PostEvent::Create { title, content, now } => spec_create_blog_post(
            s,
            owner,
            blog_title,
            title,
            content,
            now,
        ),
        PostEvent::Delete { title } => spec_delete_blog_post(s, owner, blog_title, title),
    }
}

/// The state after a whole run of events.
pub open spec fn spec_run_post_events(
    s: LedgerView,
    owner: Seq<u8>,
    blog_title: Seq<u8>,
    evs: Seq<PostEvent>,
) -> LedgerView
    decreases evs.len(),
{
    if evs.len() == 0 {
        s
    } else {
        spec_run_post_events(
            spec_apply_post_event(s, owner, blog_title, evs[0]).0,
            owner,
            blog_title,
            evs.drop_first(),
        )
    }
}

/// Every event of the run was applied, none rejected.
pub open spec fn all_accepted(
    s: LedgerView,
    owner: Seq<u8>,
    blog_title: Seq<u8>,
    evs: Seq<PostEvent>,
) -> bool
    decreases evs.len(),
{
    evs.len() == 0 || (accepted(spec_apply_post_event(s, owner, blog_title, evs[0]).1)
        && all_accepted(
        spec_apply_post_event(s, owner, blog_title, evs[0]).0,
        owner,
        blog_title,
        evs.drop_first(),
    ))
}

/// How many of the events create a post.
pub open spec fn count_creates(evs: Seq<PostEvent>) -> int
    decreases evs.len(),
{
    if evs.len() == 0 {
        0
    } else {
        (if evs[0] is Create {
            1int
        } else {
            0int
        }) + count_creates(evs.drop_first())
    }
}

/// How many of the events delete a post.
pub open spec fn count_deletes(evs: Seq<PostEvent>) -> int
    decreases evs.len(),
{
    if evs.len() == 0 {
        0
    } else {
        (if evs[0] is Delete {
            1int
        } else {
            0int
        }) + count_deletes(evs.drop_first())
    }
}

/// Law: after a run of accepted creations and deletions under one owner and
/// one blog, the blog's post counter has moved by exactly the number of
/// creations less the number of deletions.
pub proof fn lemma_post_count_balance(
    s: LedgerView,
    owner: Seq<u8>,
    blog_title: Seq<u8>,
    blog_addr: Seq<u8>,
    blog_salt: u8,
    evs: Seq<PostEvent>,
)
    requires
        spec_blog_pda(s.program_id, owner, blog_title) == Some((blog_addr, blog_salt)),
        s.blogs.contains_key(blog_addr),
        all_accepted(s, owner, blog_title, evs),
    ensures
        spec_run_post_events(s, owner, blog_title, evs).blogs.contains_key(blog_addr),
        spec_run_post_events(s, owner, blog_title, evs).blogs[blog_addr].number_of_posts
            == s.blogs[blog_addr].number_of_posts + count_creates(evs) - count_deletes(evs),
    decreases evs.len(),
{
    if evs.len() > 0 {
        let step = spec_apply_post_event(s, owner, blog_title, evs[0]);
        let s1 = step.0;
        assert(s1.program_id == s.program_id);
        assert(s1.blogs.contains_key(blog_addr));
        lemma_post_count_balance(s1, owner, blog_title, blog_addr, blog_salt, evs.drop_first());
    }
}

} // verus!

