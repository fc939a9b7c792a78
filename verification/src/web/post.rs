//! Posts: what is answered once the store has spoken.

use vstd::prelude::*;
use crate::dtos::PostResponse;
use crate::error::AppError;
use crate::model::Post;

verus! {

/// What the client reads when no post has the identifier asked for.
pub const POST_NOT_FOUND: &'static str = "Post not found";

/// The responses that show `posts`, one for one and in the same order.
pub open spec fn showing_all(posts: Seq<Post>) -> Seq<PostResponse> {
    posts.map_values(|post: Post| PostResponse::showing(post))
}

/// Answers the creation of a post: the post as stored, or the store's error.
pub fn create_post(stored: Result<Post, sqlx::Error>) -> (result: Result<PostResponse, AppError>)
    ensures
        match stored {
            Ok(post) => result == Ok::<PostResponse, AppError>(PostResponse::showing(post)),
            Err(cause) => result == Err::<PostResponse, AppError>(AppError::Database(cause)),
        },
{
    match stored {
        Ok(post) => Ok(PostResponse::from_post(post)),
        Err(cause) => Err(AppError::Database(cause)),
    }
}

/// Answers a listing: every post that the store returned, in the store's
/// order, or the store's error.
pub fn get_posts(found: Result<Vec<Post>, sqlx::Error>) -> (result: Result<
    Vec<PostResponse>,
    AppError,
>)
    ensures
        match found {
            Ok(posts) => result matches Ok(responses) && responses@ == showing_all(posts@),
            Err(cause) => result == Err::<Vec<PostResponse>, AppError>(AppError::Database(cause)),
        },
{
    let posts = match found {
        Ok(posts) => posts,
        Err(cause) => {
            return Err(AppError::Database(cause));
        },
    };
    let mut responses: Vec<PostResponse> = Vec::new();
    for post in iter: posts
        invariant
            responses@ == showing_all(posts@.take(iter.index() as int)),
    {
        responses.push(PostResponse::from_post(post));
    }
    Ok(responses)
}

/// Answers a lookup by identifier: the post, "Post not found" where there is
/// none, or the store's error.
pub fn get_post_by_id(found: Result<Option<Post>, sqlx::Error>) -> (result: Result<
    PostResponse,
    AppError,
>)
    ensures
        match found {
            Ok(Some(post)) => result == Ok::<PostResponse, AppError>(PostResponse::showing(post)),
            Ok(None) => result matches Err(AppError::BadRequest(text)) && text@ == POST_NOT_FOUND@,
            Err(cause) => result == Err::<PostResponse, AppError>(AppError::Database(cause)),
        },
{
    match found {
        Ok(Some(post)) => Ok(PostResponse::from_post(post)),
        Ok(None) => Err(AppError::BadRequest(String::from_str(POST_NOT_FOUND))),
        Err(cause) => Err(AppError::Database(cause)),
    }
}

} // verus!
