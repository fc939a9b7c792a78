//! The records that the store keeps, as the handlers see them.
//!
//! Identifiers are UUIDs, held as their 128-bit value. Points in time and
//! decimal amounts are held as the integers that make them up.

use vstd::prelude::*;

verus! {

/// A point in time: seconds since the Unix epoch and the nanoseconds within
/// that second.
#[derive(Debug, Clone, Copy, PartialEq, Eq)]
pub struct Timestamp {
    pub seconds: i64,
    pub nanoseconds: u32,
}

/// A decimal amount: `mantissa` scaled down by ten to the power `scale`.
#[derive(Debug, Clone, Copy, PartialEq, Eq)]
pub struct Price {
    pub mantissa: i128,
    pub scale: u32,
}

/// A user identity. The store keeps usernames unique; the password hash never
/// leaves the service.
#[derive(Debug, PartialEq, Eq)]
pub struct User {
    pub id: u128,
    pub username: String,
    pub password_hash: String,
    pub created_at: Timestamp,
}

#[derive(Debug, PartialEq, Eq)]
pub struct Post {
    pub id: u128,
    pub user_id: u128,
    pub title: String,
    pub body: String,
    pub created_at: Timestamp,
}

#[derive(Debug, PartialEq, Eq)]
pub struct Category {
    pub id: u128,
    pub name: String,
    pub created_at: Timestamp,
}

#[derive(Debug, PartialEq, Eq)]
pub struct Product {
    pub id: u128,
    pub user_id: u128,
    pub category_id: u128,
    pub name: String,
    pub description: String,
    pub price: Price,
    pub stock_quantity: i32,
    pub created_at: Timestamp,
    pub updated_at: Timestamp,
}

} // verus!
