//! Authorization: who may mutate which record.
//!
//! Every refusal surfaces as the one `UnauthorizedOwner` kind; no finer
//! distinction reaches the caller.

use vstd::prelude::*;

use crate::errors::BlogError;
use crate::states::{Blog, BlogPost, Comment};
use crate::store::bytes_eq;

verus! {

/// A blog or post may be mutated only by its recorded owner.
pub fn authorize_owner(signer: &Vec<u8>, owner: &Vec<u8>) -> (r: Result<(), BlogError>)
    ensures
        r == if signer@ == owner@ {
            Ok::<(), BlogError>(())
        } else {
            Err::<(), BlogError>(BlogError::UnauthorizedOwner)
        },
{
    if bytes_eq(signer, owner) {
        Ok(())
    } else {
        Err(BlogError::UnauthorizedOwner)
    }
}

/// A blog/post pair may be worked on together only when both records name the
/// same owner; a mismatch is a cross-linked pair.
pub fn authorize_cross_link(blog: &Blog, post: &BlogPost) -> (r: Result<(), BlogError>)
    ensures
        r == if blog@.owner == post@.owner {
            Ok::<(), BlogError>(())
        } else {
            Err::<(), BlogError>(BlogError::UnauthorizedOwner)
        },
{
    if bytes_eq(&blog.owner, &post.owner) {
        Ok(())
    } else {
        Err(BlogError::UnauthorizedOwner)
    }
}

/// A comment may be deleted by its author, or by the owner of the post under
/// which it stands (the moderation right); nobody else.
pub fn authorize_comment_deletion(signer: &Vec<u8>, comment: &Comment, post: &BlogPost) -> (r:
    Result<(), BlogError>)
    ensures
        r == if signer@ == comment@.comment_author || signer@ == post@.owner {
            Ok::<(), BlogError>(())
        } else {
            Err::<(), BlogError>(BlogError::UnauthorizedOwner)
        },
{
    if bytes_eq(signer, &comment.comment_author) || bytes_eq(signer, &post.owner) {
        Ok(())
    } else {
        Err(BlogError::UnauthorizedOwner)
    }
}

} // verus!
