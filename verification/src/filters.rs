//! The filter set of a list query.
//!
//! An immutable bag of optional predicates (tag, author handle,
//! favorited-by handle) and an optional pagination window. Absent fields
//! contribute no predicate; absent pagination resolves to the defaults
//! (limit 50, offset 0), never to "no limit".

use vstd::prelude::*;
use crate::values::{Limit, Offset, UserId};

verus! {

/// The predicates and pagination window a list query may apply, plus the
/// optional viewer identity that drives the view's relationship booleans.
#[derive(Debug)]
pub struct ListArticlesParams {
    pub user_id: Option<UserId>,
    pub tag: Option<String>,
    pub author: Option<String>,
    pub favorited_by: Option<String>,
    pub limit: Option<Limit>,
    pub offset: Option<Offset>,
}

/// 1 when the optional field is present, else 0.
pub open spec fn opt_count<T>(o: Option<T>) -> nat {
    match o {
        Some(_) => 1,
        None => 0,
    }
}

/// How many filter predicates are present (pagination and viewer identity
/// are not predicates).
pub open spec fn filter_count(p: ListArticlesParams) -> nat {
    opt_count(p.tag) + opt_count(p.author) + opt_count(p.favorited_by)
}

/// The page size the query resolves to: the given limit, or 50.
pub open spec fn spec_limit(p: ListArticlesParams) -> i64 {
    match p.limit {
        Some(l) => l.0,
        None => 50,
    }
}

/// The page start the query resolves to: the given offset, or 0.
pub open spec fn spec_offset(p: ListArticlesParams) -> i64 {
    match p.offset {
        Some(o) => o.0,
        None => 0,
    }
}

impl ListArticlesParams {
    /// A filter set with every optional field absent.
    pub fn empty() -> (r: ListArticlesParams)
        ensures
            r.user_id is None,
            r.tag is None,
            r.author is None,
            r.favorited_by is None,
            r.limit is None,
            r.offset is None,
    {
        ListArticlesParams {
            user_id: None,
            tag: None,
            author: None,
            favorited_by: None,
            limit: None,
            offset: None,
        }
    }

    /// Whether any filter predicate is present.
    pub fn non_empty(&self) -> (r: bool)
        ensures
            r == (filter_count(*self) != 0),
    {
        self.tag.is_some() || self.author.is_some() || self.favorited_by.is_some()
    }
}

} // verus!
