//! Wire-shaped data carriers.
//!
//! Plain request and response shapes; the process edge that speaks HTTP
//! keeps serializable copies of these and converts. Value wrappers for
//! emails, passwords and free-text columns are reduced to plain strings.

use vstd::prelude::*;
use crate::values::Username;

verus! {

/// A profile as a response carries it.
#[derive(Debug)]
pub struct Profile {
    pub username: Username,
    pub bio: Option<String>,
    pub image: Option<String>,
    pub following: bool,
}

/// The envelope of a single profile.
#[derive(Debug)]
pub struct ProfileResponse {
    pub profile: Profile,
}

/// An article as a response carries it.
#[derive(Debug)]
pub struct Article {
    pub slug: String,
    pub title: String,
    pub description: String,
    pub body: String,
    pub tag_list: Vec<String>,
    pub created_at: String,
    pub updated_at: String,
    pub favorited: bool,
    pub favorites_count: i64,
    pub author: Profile,
}

/// An article as a list response carries it.
#[derive(Debug)]
pub struct ArticleListItem {
    pub slug: String,
    pub title: String,
    pub description: String,
    pub tag_list: Vec<String>,
    pub created_at: String,
    pub updated_at: String,
    pub favorited: bool,
    pub favorites_count: i64,
    pub author: Profile,
}

/// The envelope of a single article.
#[derive(Debug)]
pub struct ArticleResponse {
    pub article: Article,
}

/// The envelope of an article listing.
#[derive(Debug)]
pub struct ArticlesResponse {
    pub articles: Vec<ArticleListItem>,
    pub articles_count: i64,
}

/// The payload of an article creation request.
#[derive(Debug)]
pub struct CreateArticle {
    pub title: String,
    pub description: String,
    pub body: String,
    pub tag_list: Vec<String>,
}

/// The envelope of an article creation request.
#[derive(Debug)]
pub struct CreateArticleRequest {
    pub article: CreateArticle,
}

/// The payload of an article update request; every field is optional.
#[derive(Debug)]
pub struct UpdateArticle {
    pub title: Option<String>,
    pub description: Option<String>,
    pub body: Option<String>,
}

/// The envelope of an article update request.
#[derive(Debug)]
pub struct UpdateArticleRequest {
    pub article: UpdateArticle,
}

/// The query parameters of an article listing request.
#[derive(Debug)]
pub struct ArticleListQuery {
    pub tag: Option<String>,
    pub author: Option<String>,
    pub favorited: Option<String>,
    pub limit: Option<i64>,
    pub offset: Option<i64>,
}

/// A comment as a response carries it.
#[derive(Debug)]
pub struct Comment {
    pub id: i64,
    pub created_at: String,
    pub updated_at: String,
    pub body: String,
    pub author: Profile,
}

/// The envelope of a single comment.
#[derive(Debug)]
pub struct CommentResponse {
    pub comment: Comment,
}

/// The envelope of a comment listing.
#[derive(Debug)]
pub struct CommentsResponse {
    pub comments: Vec<Comment>,
}

/// The payload of a comment creation request.
#[derive(Debug)]
pub struct CreateComment {
    pub body: String,
}

/// The envelope of a comment creation request.
#[derive(Debug)]
pub struct CreateCommentRequest {
    pub comment: CreateComment,
}

/// The envelope of a tag listing.
#[derive(Debug)]
pub struct TagsResponse {
    pub tags: Vec<String>,
}

/// The authenticated user as a response carries it.
#[derive(Debug)]
pub struct User {
    pub email: String,
    pub token: String,
    pub username: Username,
    pub bio: Option<String>,
    pub image: Option<String>,
}

/// The envelope of the authenticated user.
#[derive(Debug)]
pub struct UserResponse {
    pub user: User,
}

/// The payload of a user update request; every field is optional.
#[derive(Debug)]
pub struct UpdateUser {
    pub email: Option<String>,
    pub username: Option<Username>,
    pub password: Option<String>,
    pub bio: Option<String>,
    pub image: Option<String>,
}

/// The envelope of a user update request.
#[derive(Debug)]
pub struct UpdateUserRequest {
    pub user: UpdateUser,
}

/// The payload of a login request.
#[derive(Debug)]
pub struct LoginUser {
    pub email: String,
    pub password: String,
}

/// The envelope of a login request.
#[derive(Debug)]
pub struct LoginRequest {
    pub user: LoginUser,
}

/// The payload of a registration request.
#[derive(Debug)]
pub struct RegisterUser {
    pub username: Username,
    pub email: String,
    pub password: String,
}

/// The envelope of a registration request.
#[derive(Debug)]
pub struct RegisterRequest {
    pub user: RegisterUser,
}

/// The body of an error response.
#[derive(Debug)]
pub struct ErrorBody {
    pub body: Vec<String>,
}

/// The envelope of an error response.
#[derive(Debug)]
pub struct ErrorResponse {
    pub errors: ErrorBody,
}

impl ErrorResponse {
    /// Wraps one message as an error response.
    pub fn new(message: String) -> (r: ErrorResponse)
        ensures
            r.errors.body@ == seq![message],
    {
        let mut body: Vec<String> = Vec::new();
        body.push(message);
        proof {
            assert(body@ =~= seq![message]);
        }
        ErrorResponse { errors: ErrorBody { body } }
    }
}

/// The envelope of a per-field validation error response: each offending
/// field with its messages.
#[derive(Debug)]
pub struct ValidationErrorResponse {
    pub errors: Vec<(String, Vec<String>)>,
}

/// A verified bearer token: the caller it identifies and the raw token it
/// was read from.
#[derive(Debug)]
pub struct AuthToken {
    pub user_id: crate::values::UserId,
    pub raw_token: String,
}

} // verus!
