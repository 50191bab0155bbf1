//! The columns a point lookup may select on.

use vstd::prelude::*;

verus! {

/// An indexed column of the article view.
#[derive(Debug, Clone, Copy, PartialEq, Eq, Structural)]
pub enum IndexedArticleField {
    Slug,
    Id,
}

/// The column name that an article lookup field stands for.
pub open spec fn spec_article_field_name(f: IndexedArticleField) -> Seq<char> {
    match f {
        IndexedArticleField::Slug => "slug"@,
        IndexedArticleField::Id => "id"@,
    }
}

impl IndexedArticleField {
    pub fn to_field_name(&self) -> (r: &'static str)
        ensures
            r@ == spec_article_field_name(*self),
    {
        match self {
            IndexedArticleField::Slug => "slug",
            IndexedArticleField::Id => "id",
        }
    }
}

/// An indexed column of the users table.
#[derive(Debug, Clone, Copy, PartialEq, Eq, Structural)]
pub enum IndexedUserField {
    Email,
    Username,
    Id,
}

/// The column name that a user lookup field stands for.
pub open spec fn spec_user_field_name(f: IndexedUserField) -> Seq<char> {
    match f {
        IndexedUserField::Email => "email"@,
        IndexedUserField::Username => "username"@,
        IndexedUserField::Id => "id"@,
    }
}

impl IndexedUserField {
    pub fn to_field_name(&self) -> (r: &'static str)
        ensures
            r@ == spec_user_field_name(*self),
    {
        match self {
            IndexedUserField::Email => "email",
            IndexedUserField::Username => "username",
            IndexedUserField::Id => "id",
        }
    }
}

} // verus!
