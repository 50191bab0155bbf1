//! Value objects for entity keys and pagination.
//!
//! Surrogate keys are carried as plain 128-bit numbers; the process edge
//! that speaks to the storage engine converts them to and from its own
//! identifier type.

use vstd::prelude::*;

verus! {

/// Key of a user row.
#[derive(Debug, Clone, Copy, PartialEq, Eq, Structural)]
pub struct UserId(pub u128);

impl UserId {
    pub fn value(&self) -> (r: u128)
        ensures
            r == self.0,
    {
        self.0
    }
}

/// Key of an article row.
#[derive(Debug, Clone, Copy, PartialEq, Eq, Structural)]
pub struct ArticleId(pub u128);

impl ArticleId {
    pub fn value(&self) -> (r: u128)
        ensures
            r == self.0,
    {
        self.0
    }
}

/// Key of a tag row.
#[derive(Debug, Clone, Copy, PartialEq, Eq, Structural)]
pub struct TagId(pub u128);

impl TagId {
    pub fn value(&self) -> (r: u128)
        ensures
            r == self.0,
    {
        self.0
    }
}

/// Key of a comment row.
#[derive(Debug, Clone, Copy, PartialEq, Eq, Structural)]
pub struct CommentId(pub i64);

impl CommentId {
    pub fn value(&self) -> (r: i64)
        ensures
            r == self.0,
    {
        self.0
    }
}

impl From<i64> for CommentId {
    fn from(id: i64) -> (r: CommentId) {
        CommentId(id)
    }
}

impl vstd::std_specs::convert::FromSpecImpl<i64> for CommentId {
    open spec fn obeys_from_spec() -> bool {
        true
    }

    open spec fn from_spec(id: i64) -> CommentId {
        CommentId(id)
    }
}

/// A user's handle.
#[derive(Debug)]
pub struct Username(pub String);

impl Username {
    pub fn new(value: String) -> (r: Username)
        ensures
            r.0 == value,
    {
        Username(value)
    }

    pub fn value(&self) -> (r: &String)
        ensures
            r == self.0,
    {
        &self.0
    }
}

/// The page size of a list query; defaults to 50 when the request names
/// none.
#[derive(Debug, Clone, Copy, PartialEq, Eq, Structural)]
pub struct Limit(pub i64);

impl Limit {
    pub fn new(limit: i64) -> (r: Limit)
        ensures
            r.0 == limit,
    {
        Limit(limit)
    }

    pub fn value(&self) -> (r: i64)
        ensures
            r == self.0,
    {
        self.0
    }
}

impl Default for Limit {
    fn default() -> (r: Limit)
        ensures
            r.0 == 50,
    {
        Limit(50)
    }
}

/// The page start of a list query; defaults to 0 when the request names
/// none.
#[derive(Debug, Clone, Copy, PartialEq, Eq, Structural)]
pub struct Offset(pub i64);

impl Offset {
    pub fn new(offset: i64) -> (r: Offset)
        ensures
            r.0 == offset,
    {
        Offset(offset)
    }

    pub fn value(&self) -> (r: i64)
        ensures
            r == self.0,
    {
        self.0
    }
}

impl Default for Offset {
    fn default() -> (r: Offset)
        ensures
            r.0 == 0,
    {
        Offset(0)
    }
}

} // verus!
