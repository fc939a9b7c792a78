//! Request and response bodies of the HTTP surface.

use vstd::prelude::*;
use crate::model::{Category, Post, Price, Product, Timestamp};

verus! {

#[derive(Debug, PartialEq, Eq)]
pub struct SignupRequest {
    pub username: String,
    pub password: String,
}

#[derive(Debug, PartialEq, Eq)]
pub struct LoginRequest {
    pub username: String,
    pub password: String,
}

#[derive(Debug, PartialEq, Eq)]
pub struct AuthResponse {
    pub token: String,
}

#[derive(Debug, PartialEq, Eq)]
pub struct CreatePostRequest {
    pub title: String,
    pub body: String,
}

/// Paging of a listing; a missing field takes its default.
#[derive(Debug, Clone, Copy, PartialEq, Eq)]
pub struct PaginationRequest {
    pub limit: Option<i64>,
    pub offset: Option<i64>,
}

#[derive(Debug, PartialEq, Eq)]
pub struct PostResponse {
    pub id: u128,
    pub user_id: u128,
    pub title: String,
    pub body: String,
    pub created_at: Timestamp,
}

#[derive(Debug, PartialEq, Eq)]
pub struct CreateCategoryRequest {
    pub name: String,
}

#[derive(Debug, PartialEq, Eq)]
pub struct CategoryResponse {
    pub id: u128,
    pub name: String,
    pub created_at: Timestamp,
}

#[derive(Debug, PartialEq, Eq)]
pub struct ProductResponse {
    pub id: u128,
    pub name: String,
    pub description: String,
    pub category_id: u128,
    pub price: Price,
    pub stock_quantity: i32,
}

pub const DEFAULT_PAGE_LIMIT: i64 = 10;

pub const DEFAULT_PAGE_OFFSET: i64 = 0;

impl PaginationRequest {
    /// How many posts a listing returns at most: 10 unless the request says
    /// otherwise.
    pub fn limit_or_default(&self) -> (limit: i64)
        ensures
            limit == match self.limit {
                Some(given) => given,
                None => DEFAULT_PAGE_LIMIT,
            },
    {
        match self.limit {
            Some(given) => given,
            None => DEFAULT_PAGE_LIMIT,
        }
    }

    /// How many posts a listing skips: none unless the request says
    /// otherwise.
    pub fn offset_or_default(&self) -> (offset: i64)
        ensures
            offset == match self.offset {
                Some(given) => given,
                None => DEFAULT_PAGE_OFFSET,
            },
    {
        match self.offset {
            Some(given) => given,
            None => DEFAULT_PAGE_OFFSET,
        }
    }
}

impl PostResponse {
    /// The response that shows `post`: every field as stored.
    pub open spec fn showing(post: Post) -> PostResponse {
        PostResponse {
            id: post.id,
            user_id: post.user_id,
            title: post.title,
            body: post.body,
            created_at: post.created_at,
        }
    }

    pub fn from_post(post: Post) -> (response: PostResponse)
        ensures
            response == PostResponse::showing(post),
    {
        PostResponse {
            id: post.id,
            user_id: post.user_id,
            title: post.title,
            body: post.body,
            created_at: post.created_at,
        }
    }
}

impl CategoryResponse {
    /// The response that shows `category`: every field as stored.
    pub open spec fn showing(category: Category) -> CategoryResponse {
        CategoryResponse { id: category.id, name: category.name, created_at: category.created_at }
    }

    pub fn from_category(category: Category) -> (response: CategoryResponse)
        ensures
            response == CategoryResponse::showing(category),
    {
        CategoryResponse { id: category.id, name: category.name, created_at: category.created_at }
    }
}

impl ProductResponse {
    /// The response that shows `product`: what was stored, without the owner
    /// and the two timestamps.
    pub open spec fn showing(product: Product) -> ProductResponse {
        ProductResponse {
            id: product.id,
            name: product.name,
            description: product.description,
            category_id: product.category_id,
            price: product.price,
            stock_quantity: product.stock_quantity,
        }
    }

    pub fn from_product(product: Product) -> (response: ProductResponse)
        ensures
            response == ProductResponse::showing(product),
    {
        ProductResponse {
            id: product.id,
            name: product.name,
            description: product.description,
            category_id: product.category_id,
            price: product.price,
            stock_quantity: product.stock_quantity,
        }
    }
}

} // verus!
