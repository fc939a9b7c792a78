//! Categories: what is answered once the store has spoken.

use vstd::prelude::*;
use crate::dtos::CategoryResponse;
use crate::error::AppError;
use crate::model::Category;

verus! {

/// Answers the creation of a category: the category as stored, or the
/// store's error.
pub fn create_category(stored: Result<Category, sqlx::Error>) -> (result: Result<
    CategoryResponse,
    AppError,
>)
    ensures
        match stored {
            Ok(category) => result == Ok::<CategoryResponse, AppError>(
                CategoryResponse::showing(category),
            ),
            Err(cause) => result == Err::<CategoryResponse, AppError>(AppError::Database(cause)),
        },
{
    match stored {
        Ok(category) => Ok(CategoryResponse::from_category(category)),
        Err(cause) => Err(AppError::Database(cause)),
    }
}

} // verus!
