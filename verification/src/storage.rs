//! What the store of posts has to decide: which step its schema needs, and
//! what post a stored row stands for. The store itself is the caller's.

use crate::error::FeedError;
use crate::Post;
use vstd::prelude::*;

verus! {

/// What a store has to do before it can be used.
#[derive(Debug, Clone, Copy, PartialEq, Eq, Structural)]
pub enum SchemaStep {
    /// The store is new: create the table of posts and note version 1.
    Migrate,
    /// The store is at version 1: nothing to do.
    Ready,
    /// The store is at a version that this library does not know.
    Unknown,
}

/// What a store at the given version has to do. A store without a version
/// counts as version 0.
pub open spec fn spec_schema_step(version: usize) -> SchemaStep {
    if version == 0 {
        SchemaStep::Migrate
    } else if version == 1 {
        SchemaStep::Ready
    } else {
        SchemaStep::Unknown
    }
}

/// What a store at the given version has to do.
pub fn schema_step(version: usize) -> (step: SchemaStep)
    ensures
        step == spec_schema_step(version),
{
    if version == 0 {
        SchemaStep::Migrate
    } else if version == 1 {
        SchemaStep::Ready
    } else {
        SchemaStep::Unknown
    }
}

/// The post that a stored row stands for. The date is stored as text, in RFC
/// 3339; a row whose date cannot be read gives `InvalidDate`.
pub fn post_from_row(link: String, title: String, date: &str, author: String) -> (r: Result<
    Post,
    FeedError,
>)
    ensures
        match Post::spec_parse_stored_date(date@) {
            Ok(at) => r matches Ok(post) && post.link == link && post.title == title && post.date
                == at && post.author == author,
            Err(error) => r == Err::<Post, FeedError>(error),
        },
{
    match Post::parse_stored_date(date) {
        Ok(at) => Ok(Post { link, title, date: at, author }),
        Err(error) => Err(error),
    }
}

} // verus!
