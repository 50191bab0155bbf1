//! Command objects: they turn request payloads into the compilers'
//! parameter sets.
//!
//! A command copies the optional fields of a request unchanged; building
//! the article update parameters re-derives the slug from the title
//! whenever a title is present, so the derived column travels as an
//! ordinary present field.

use vstd::prelude::*;
use vstd::utf8::is_ascii_chars;
use crate::dto::{ArticleListQuery, RegisterRequest, UpdateArticleRequest, UpdateUserRequest};
use crate::slug::{slug_from_title, spec_slug};
use crate::update_params::{UpdateArticleParams, UpdateUserParams};
use crate::values::{ArticleId, Limit, Offset, UserId, Username};

verus! {

/// A request for the caller's feed: the articles of the authors they
/// follow, paginated.
#[derive(Debug)]
pub struct GetFeedQuery {
    pub user_id: UserId,
    pub limit: Option<Limit>,
    pub offset: Option<Offset>,
}

impl GetFeedQuery {
    /// Takes the pagination window of a listing request for the
    /// authenticated caller.
    pub fn from_request(dto: ArticleListQuery, user_id: UserId) -> (r: GetFeedQuery)
        ensures
            r.user_id == user_id,
            r.limit == (match dto.limit {
                Some(l) => Some(Limit(l)),
                None => None::<Limit>,
            }),
            r.offset == (match dto.offset {
                Some(o) => Some(Offset(o)),
                None => None::<Offset>,
            }),
    {
        GetFeedQuery {
            user_id,
            limit: match dto.limit {
                Some(l) => Some(Limit::new(l)),
                None => None,
            },
            offset: match dto.offset {
                Some(o) => Some(Offset::new(o)),
                None => None,
            },
        }
    }
}

/// A registration: the three columns of a fresh user, with the password
/// still plain — hashing happens at the credential edge.
#[derive(Debug)]
pub struct RegisterCommand {
    pub username: Username,
    pub email: String,
    pub password: String,
}

impl RegisterCommand {
    /// Unwraps a registration request.
    pub fn new(req: RegisterRequest) -> (r: RegisterCommand)
        ensures
            r.username == req.user.username,
            r.email == req.user.email,
            r.password == req.user.password,
    {
        RegisterCommand {
            username: req.user.username,
            email: req.user.email,
            password: req.user.password,
        }
    }
}

/// An article update: the slug naming the article and the optional new
/// column values.
#[derive(Debug)]
pub struct UpdateArticleCommand {
    pub slug: String,
    pub title: Option<String>,
    pub description: Option<String>,
    pub body: Option<String>,
}

impl UpdateArticleCommand {
    /// Pairs an update request with the slug it addresses.
    pub fn from_request(dto: UpdateArticleRequest, slug: String) -> (r: UpdateArticleCommand)
        ensures
            r.slug == slug,
            r.title == dto.article.title,
            r.description == dto.article.description,
            r.body == dto.article.body,
    {
        UpdateArticleCommand {
            slug,
            title: dto.article.title,
            description: dto.article.description,
            body: dto.article.body,
        }
    }

    /// Builds the update parameter set: the optional columns unchanged,
    /// plus a slug re-derived from the title exactly when a title is
    /// present.
    pub fn to_params(&self, article_id: ArticleId) -> (r: UpdateArticleParams)
        ensures
            r.article_id == article_id,
            r.title == self.title,
            r.description == self.description,
            r.body == self.body,
            r.slug is Some <==> self.title is Some,
            (match (self.title, r.slug) {
                (Some(t), Some(s)) => is_ascii_chars(t@) ==> s@ == spec_slug(t@),
                _ => true,
            }),
    {
        let new_slug = match &self.title {
            Some(t) => Some(slug_from_title(t.as_str())),
            None => None,
        };
        UpdateArticleParams {
            article_id,
            slug: new_slug,
            title: clone_opt(&self.title),
            description: clone_opt(&self.description),
            body: clone_opt(&self.body),
        }
    }
}

/// Clones an optional string.
fn clone_opt(o: &Option<String>) -> (r: Option<String>)
    ensures
        r == *o,
{
    match o {
        Some(s) => Some(s.clone()),
        None => None,
    }
}

/// A user update: the caller's identity and the optional new column
/// values, with the password still plain.
#[derive(Debug)]
pub struct UpdateUserCommand {
    pub user_id: UserId,
    pub email: Option<String>,
    pub username: Option<Username>,
    pub password: Option<String>,
    pub bio: Option<String>,
    pub image: Option<String>,
}

impl UpdateUserCommand {
    /// Pairs an update request with the authenticated caller.
    pub fn new(req: UpdateUserRequest, user_id: UserId) -> (r: UpdateUserCommand)
        ensures
            r.user_id == user_id,
            r.email == req.user.email,
            r.username == req.user.username,
            r.password == req.user.password,
            r.bio == req.user.bio,
            r.image == req.user.image,
    {
        UpdateUserCommand {
            user_id,
            email: req.user.email,
            username: req.user.username,
            password: req.user.password,
            bio: req.user.bio,
            image: req.user.image,
        }
    }

    /// Builds the update parameter set. The password column takes the
    /// hash the credential edge computed, present exactly when the
    /// command carries a password; the other columns travel unchanged.
    pub fn to_params(&self, password_hash: Option<String>) -> (r: UpdateUserParams)
        ensures
            r.user_id == self.user_id,
            r.email == self.email,
            r.username == (match self.username {
                Some(u) => Some(u.0),
                None => None::<String>,
            }),
            r.password_hash == password_hash,
            r.bio == self.bio,
            r.image == self.image,
    {
        UpdateUserParams {
            user_id: self.user_id,
            email: clone_opt(&self.email),
            username: match &self.username {
                Some(u) => Some(u.value().clone()),
                None => None,
            },
            password_hash,
            bio: clone_opt(&self.bio),
            image: clone_opt(&self.image),
        }
    }
}

} // verus!
