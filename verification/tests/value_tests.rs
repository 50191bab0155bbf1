//! Value objects, slug derivation, placeholder rendering, commands and
//! configuration.

use realworld::commands::{
    GetFeedQuery, RegisterCommand, UpdateArticleCommand, UpdateUserCommand,
};
use realworld::config::{AppConfig, HttpConfig};
use realworld::dto::{
    ArticleListQuery, ErrorResponse, RegisterRequest, RegisterUser, UpdateArticle,
    UpdateArticleRequest, UpdateUser, UpdateUserRequest,
};
use realworld::fields::{IndexedArticleField, IndexedUserField};
use realworld::slug::slug_from_title;
use realworld::statement::{BindValue, Statement};
use realworld::text::u64_to_string;
use realworld::values::{CommentId, Limit, Offset, UserId, Username};

#[test]
fn decimal_rendering_is_exact() {
    assert_eq!(u64_to_string(0), "0");
    assert_eq!(u64_to_string(7), "7");
    assert_eq!(u64_to_string(10), "10");
    assert_eq!(u64_to_string(42), "42");
    assert_eq!(u64_to_string(65535), "65535");
    assert_eq!(u64_to_string(u64::MAX), "18446744073709551615");
}

#[test]
fn placeholders_count_from_one() {
    let mut st = Statement::new();
    for i in 0..12i64 {
        st.push_bind(BindValue::Int(i));
    }
    assert_eq!(st.text, "$1$2$3$4$5$6$7$8$9$10$11$12");
    assert_eq!(st.binds.len(), 12);
}

#[test]
fn slug_lowercases_and_dashes() {
    assert_eq!(slug_from_title("New Title"), "new-title");
    assert_eq!(slug_from_title("Get Me By Slug"), "get-me-by-slug");
    assert_eq!(slug_from_title("already-lower"), "already-lower");
    assert_eq!(slug_from_title("MiXeD CaSe 42!"), "mixed-case-42!");
    assert_eq!(slug_from_title(""), "");
}

#[test]
fn slug_leaves_non_ascii_letters_alone() {
    assert_eq!(slug_from_title("Füße Bahn"), "füße-bahn");
}

#[test]
fn pagination_defaults() {
    assert_eq!(Limit::default().value(), 50);
    assert_eq!(Offset::default().value(), 0);
    assert_eq!(Limit::new(10).value(), 10);
    assert_eq!(Offset::new(3).value(), 3);
}

#[test]
fn comment_id_round_trips() {
    let id = CommentId::from(7);
    assert_eq!(id.value(), 7);
    assert_eq!(CommentId(9).value(), 9);
}

#[test]
fn field_names() {
    assert_eq!(IndexedArticleField::Slug.to_field_name(), "slug");
    assert_eq!(IndexedArticleField::Id.to_field_name(), "id");
    assert_eq!(IndexedUserField::Email.to_field_name(), "email");
    assert_eq!(IndexedUserField::Username.to_field_name(), "username");
    assert_eq!(IndexedUserField::Id.to_field_name(), "id");
}

#[test]
fn error_response_wraps_one_message() {
    let r = ErrorResponse::new("boom".to_string());
    assert_eq!(r.errors.body, vec!["boom".to_string()]);
}

#[test]
fn http_config_url() {
    let cfg = AppConfig {
        http: HttpConfig { host: "0.0.0.0".to_string(), port: 8080 },
    };
    assert_eq!(cfg.http.url(), "0.0.0.0:8080");
}

#[test]
fn feed_query_takes_pagination_from_request() {
    let dto = ArticleListQuery {
        tag: None,
        author: None,
        favorited: None,
        limit: Some(10),
        offset: None,
    };
    let q = GetFeedQuery::from_request(dto, UserId(4));
    assert_eq!(q.user_id, UserId(4));
    assert_eq!(q.limit.map(|l| l.value()), Some(10));
    assert!(q.offset.is_none());
}

#[test]
fn register_command_copies_request() {
    let req = RegisterRequest {
        user: RegisterUser {
            username: Username::new("alice".to_string()),
            email: "a@b.c".to_string(),
            password: "pw".to_string(),
        },
    };
    let c = RegisterCommand::new(req);
    assert_eq!(c.username.value().as_str(), "alice");
    assert_eq!(c.email, "a@b.c");
    assert_eq!(c.password, "pw");
}

#[test]
fn update_article_command_from_request() {
    let req = UpdateArticleRequest {
        article: UpdateArticle {
            title: Some("T".to_string()),
            description: None,
            body: Some("B".to_string()),
        },
    };
    let c = UpdateArticleCommand::from_request(req, "old".to_string());
    assert_eq!(c.slug, "old");
    assert_eq!(c.title, Some("T".to_string()));
    assert_eq!(c.description, None);
    assert_eq!(c.body, Some("B".to_string()));
}

#[test]
fn update_user_command_hashes_at_the_edge() {
    let req = UpdateUserRequest {
        user: UpdateUser {
            email: Some("a@b.c".to_string()),
            username: Some(Username::new("alice".to_string())),
            password: Some("pw".to_string()),
            bio: None,
            image: None,
        },
    };
    let c = UpdateUserCommand::new(req, UserId(4));
    assert_eq!(c.user_id, UserId(4));
    assert_eq!(c.password, Some("pw".to_string()));
    let params = c.to_params(Some("hashed".to_string()));
    assert_eq!(params.user_id, UserId(4));
    assert_eq!(params.email, Some("a@b.c".to_string()));
    assert_eq!(params.username, Some("alice".to_string()));
    assert_eq!(params.password_hash, Some("hashed".to_string()));
    assert_eq!(params.bio, None);
    let list = params.as_list();
    assert_eq!(list.len(), 3);
    assert_eq!(list[2].0, "password_hash");
    assert_eq!(list[2].1, "hashed");
}
