//! Exact statement text and bind order of the point lookups, inserts and
//! deletes.

use realworld::article_statements::{
    add_tag_to_article_statement, delete_article_statement, favorite_article_statement,
    get_article_by_id_statement, get_article_by_statement, get_article_view_by_statement,
    insert_article_statement, unfavorite_article_statement, InsertArticleParams,
};
use realworld::comment_statements::{
    delete_comment_statement, get_comment_statement, get_comments_statement,
    insert_comment_statement, is_comment_author_statement, InsertCommentParams,
};
use realworld::fields::{IndexedArticleField, IndexedUserField};
use realworld::profile_statements::{
    follow_user_statement, is_following_statement, unfollow_user_statement,
};
use realworld::statement::BindValue;
use realworld::tag_statements::{
    get_all_tags_statement, get_tag_by_name_statement, insert_tag_statement,
};
use realworld::user_statements::{get_user_by_statement, insert_user_statement, InsertUserParams};
use realworld::values::{ArticleId, CommentId, TagId, UserId};

#[test]
fn article_point_lookup_by_slug() {
    let st = get_article_by_statement(
        IndexedArticleField::Slug,
        BindValue::Text("my-slug".to_string()),
    );
    assert_eq!(st.text, "SELECT * FROM article_view WHERE slug = $1");
    assert_eq!(st.binds.len(), 1);
    assert!(matches!(&st.binds[0], BindValue::Text(s) if s == "my-slug"));
}

#[test]
fn article_view_lookup_places_value_after_viewer_binds() {
    let st = get_article_view_by_statement(
        IndexedArticleField::Slug,
        BindValue::Text("my-slug".to_string()),
        &Some(UserId(4)),
    );
    assert!(st.text.ends_with("SELECT * FROM article_view WHERE slug = $3"));
    assert_eq!(st.binds.len(), 3);
    assert!(matches!(st.binds[0], BindValue::Id(4)));
    assert!(matches!(st.binds[1], BindValue::Id(4)));
    assert!(matches!(&st.binds[2], BindValue::Text(s) if s == "my-slug"));

    let st = get_article_view_by_statement(
        IndexedArticleField::Id,
        BindValue::Id(11),
        &None,
    );
    assert!(st.text.ends_with("SELECT * FROM article_view WHERE id = $1"));
    assert_eq!(st.binds.len(), 1);
}

#[test]
fn article_lookup_by_id_with_viewer() {
    let st = get_article_by_id_statement(ArticleId(11), &Some(UserId(4)));
    assert!(st.text.ends_with("SELECT * FROM article_view WHERE id = $3"));
    assert_eq!(st.binds.len(), 3);
    assert!(matches!(st.binds[2], BindValue::Id(11)));
}

#[test]
fn insert_article_binds_five_columns_in_order() {
    let st = insert_article_statement(InsertArticleParams {
        slug: "s".to_string(),
        title: "t".to_string(),
        description: "d".to_string(),
        body: "b".to_string(),
        author_id: UserId(1),
    });
    assert_eq!(
        st.text,
        "INSERT INTO articles (slug, title, description, body, author_id) VALUES ($1, $2, $3, \
         $4, $5) RETURNING id, slug, title, description, body, author_id, created_at, updated_at"
    );
    assert_eq!(st.binds.len(), 5);
    assert!(matches!(&st.binds[0], BindValue::Text(s) if s == "s"));
    assert!(matches!(st.binds[4], BindValue::Id(1)));
}

#[test]
fn delete_and_favorite_statements() {
    let st = delete_article_statement(ArticleId(11));
    assert_eq!(st.text, "DELETE FROM articles WHERE id = $1");
    assert_eq!(st.binds.len(), 1);

    let st = favorite_article_statement(UserId(4), ArticleId(11));
    assert_eq!(
        st.text,
        "INSERT INTO article_favorites (user_id, article_id) VALUES ($1, $2) ON CONFLICT \
         (user_id, article_id) DO NOTHING"
    );
    assert!(matches!(st.binds[0], BindValue::Id(4)));
    assert!(matches!(st.binds[1], BindValue::Id(11)));

    let st = unfavorite_article_statement(UserId(4), ArticleId(11));
    assert_eq!(
        st.text,
        "DELETE FROM article_favorites WHERE user_id = $1 AND article_id = $2"
    );

    let st = add_tag_to_article_statement(ArticleId(11), TagId(3));
    assert_eq!(
        st.text,
        "INSERT INTO article_tags (article_id, tag_id) VALUES ($1, $2) ON CONFLICT (article_id, \
         tag_id) DO NOTHING"
    );
    assert!(matches!(st.binds[0], BindValue::Id(11)));
    assert!(matches!(st.binds[1], BindValue::Id(3)));
}

#[test]
fn comment_statements_share_the_view_pattern() {
    let st = insert_comment_statement(InsertCommentParams {
        body: "hello".to_string(),
        article_id: ArticleId(11),
        author_id: UserId(4),
    });
    assert_eq!(
        st.text,
        "INSERT INTO comments (body, article_id, author_id) VALUES ($1, $2, $3) RETURNING id, \
         body, article_id, author_id, created_at, updated_at"
    );
    assert_eq!(st.binds.len(), 3);

    let st = delete_comment_statement(CommentId(5));
    assert_eq!(st.text, "DELETE FROM comments WHERE id = $1");
    assert!(matches!(st.binds[0], BindValue::Int(5)));

    let st = is_comment_author_statement(CommentId(5), UserId(4));
    assert_eq!(
        st.text,
        "SELECT EXISTS(SELECT 1 FROM comments WHERE id = $1 AND author_id = $2) AS is_author"
    );

    let st = get_comments_statement(ArticleId(11), &Some(UserId(4)));
    assert!(st.text.starts_with("WITH comment_view AS (SELECT c.id, c.body"));
    assert!(st.text.contains("uf.follower_id = $1"));
    assert!(st.text.ends_with(
        "SELECT * FROM comment_view WHERE id IN (SELECT id FROM comments WHERE article_id = $2) \
         ORDER BY created_at DESC"
    ));
    assert_eq!(st.binds.len(), 2);
    assert!(matches!(st.binds[1], BindValue::Id(11)));

    let st = get_comment_statement(CommentId(5), &None);
    assert!(st.text.contains(", FALSE AS following"));
    assert!(st.text.ends_with("SELECT * FROM comment_view WHERE id = $1"));
    assert_eq!(st.binds.len(), 1);
}

#[test]
fn user_statements() {
    let st = insert_user_statement(InsertUserParams {
        email: "a@b.c".to_string(),
        username: "alice".to_string(),
        password_hash: "h".to_string(),
    });
    assert_eq!(
        st.text,
        "INSERT INTO users (email, username, password_hash) VALUES ($1, $2, $3) RETURNING id, \
         email, username, password_hash, bio, image"
    );
    assert_eq!(st.binds.len(), 3);

    let st = get_user_by_statement(IndexedUserField::Email, BindValue::Text("a@b.c".to_string()));
    assert_eq!(
        st.text,
        "SELECT id, email, username, password_hash, bio, image FROM users WHERE email = $1"
    );
    let st = get_user_by_statement(IndexedUserField::Username, BindValue::Text("x".to_string()));
    assert!(st.text.ends_with("WHERE username = $1"));
    let st = get_user_by_statement(IndexedUserField::Id, BindValue::Id(4));
    assert!(st.text.ends_with("WHERE id = $1"));
}

#[test]
fn profile_statements() {
    let st = follow_user_statement(UserId(4), UserId(9));
    assert_eq!(
        st.text,
        "INSERT INTO user_follows (follower_id, followee_id) VALUES ($1, $2) ON CONFLICT \
         (follower_id, followee_id) DO NOTHING"
    );
    assert!(matches!(st.binds[0], BindValue::Id(4)));
    assert!(matches!(st.binds[1], BindValue::Id(9)));

    let st = unfollow_user_statement(UserId(4), UserId(9));
    assert_eq!(
        st.text,
        "DELETE FROM user_follows WHERE follower_id = $1 AND followee_id = $2"
    );

    let st = is_following_statement(UserId(4), UserId(9));
    assert_eq!(
        st.text,
        "SELECT EXISTS(SELECT 1 FROM user_follows WHERE follower_id = $1 AND followee_id = $2) \
         AS is_following"
    );
}

#[test]
fn tag_statements() {
    let st = insert_tag_statement("rust".to_string());
    assert_eq!(
        st.text,
        "INSERT INTO tags (name) VALUES ($1) RETURNING id, name, created_at"
    );
    assert!(matches!(&st.binds[0], BindValue::Text(s) if s == "rust"));

    let st = get_tag_by_name_statement("rust".to_string());
    assert_eq!(st.text, "SELECT id, name, created_at FROM tags WHERE name = $1");

    let st = get_all_tags_statement();
    assert_eq!(st.text, "SELECT name FROM tags ORDER BY name");
    assert!(st.binds.is_empty());
}
