//! The predicate compiler on zero, one, and many present filters.

use realworld::article_statements::{count_articles_statement, list_articles_statement};
use realworld::filters::ListArticlesParams;
use realworld::statement::BindValue;
use realworld::values::{Limit, Offset, UserId};

fn anon_article_cte() -> String {
    format!(
        "{}{}{}",
        "WITH article_view AS (SELECT a.id, a.slug, a.title, a.description, a.created_at, \
         a.updated_at, a.body, u.id AS author_id, u.username AS author_username, u.bio AS \
         author_bio, u.image AS author_image, COUNT(af.article_id) AS favorites_count, \
         COALESCE(ARRAY_AGG(t.name) FILTER (WHERE t.name IS NOT NULL), ARRAY[]::text[])::text[] \
         AS tag_list",
        ", FALSE AS following, FALSE AS favorited",
        " FROM articles a INNER JOIN users u ON a.author_id = u.id LEFT JOIN article_tags at ON \
         a.id = at.article_id LEFT JOIN tags t ON at.tag_id = t.id LEFT JOIN article_favorites af \
         ON af.article_id = a.id GROUP BY a.id, u.id) "
    )
}

fn viewer_article_cte(first: usize, second: usize) -> String {
    format!(
        "{}{}{}{}{}{}",
        "WITH article_view AS (SELECT a.id, a.slug, a.title, a.description, a.created_at, \
         a.updated_at, a.body, u.id AS author_id, u.username AS author_username, u.bio AS \
         author_bio, u.image AS author_image, COUNT(af.article_id) AS favorites_count, \
         COALESCE(ARRAY_AGG(t.name) FILTER (WHERE t.name IS NOT NULL), ARRAY[]::text[])::text[] \
         AS tag_list, EXISTS(SELECT 1 FROM user_follows uf WHERE uf.follower_id = $",
        first,
        " AND uf.followee_id = u.id) AS following, EXISTS(SELECT 1 FROM article_favorites f \
         WHERE f.user_id = $",
        second,
        " AND f.article_id = a.id) AS favorited",
        " FROM articles a INNER JOIN users u ON a.author_id = u.id LEFT JOIN article_tags at ON \
         a.id = at.article_id LEFT JOIN tags t ON at.tag_id = t.id LEFT JOIN article_favorites af \
         ON af.article_id = a.id GROUP BY a.id, u.id) "
    )
}

fn text_bind(b: &BindValue) -> &str {
    match b {
        BindValue::Text(s) => s.as_str(),
        _ => panic!("expected a text bind"),
    }
}

fn int_bind(b: &BindValue) -> i64 {
    match b {
        BindValue::Int(n) => *n,
        _ => panic!("expected an integer bind"),
    }
}

fn id_bind(b: &BindValue) -> u128 {
    match b {
        BindValue::Id(n) => *n,
        _ => panic!("expected an id bind"),
    }
}

#[test]
fn empty_filter_set_emits_no_where_clause() {
    let st = list_articles_statement(ListArticlesParams::empty());
    let expected = format!(
        "{}SELECT * FROM article_view av ORDER BY av.created_at DESC LIMIT $1 OFFSET $2",
        anon_article_cte()
    );
    assert_eq!(st.text, expected);
    assert!(!st.text.contains(" WHERE "));
    assert_eq!(st.binds.len(), 2);
    assert_eq!(int_bind(&st.binds[0]), 50);
    assert_eq!(int_bind(&st.binds[1]), 0);
}

#[test]
fn one_filter_conjoins_one_predicate_and_tautology() {
    let mut p = ListArticlesParams::empty();
    p.tag = Some("rust".to_string());
    let st = list_articles_statement(p);
    let expected = format!(
        "{}SELECT * FROM article_view av WHERE $1 = ANY(av.tag_list) AND 1=1 ORDER BY \
         av.created_at DESC LIMIT $2 OFFSET $3",
        anon_article_cte()
    );
    assert_eq!(st.text, expected);
    assert_eq!(st.binds.len(), 3);
    assert_eq!(text_bind(&st.binds[0]), "rust");
    assert_eq!(int_bind(&st.binds[1]), 50);
    assert_eq!(int_bind(&st.binds[2]), 0);
}

#[test]
fn two_filters_conjoin_in_declaration_order() {
    let mut p = ListArticlesParams::empty();
    p.tag = Some("rust".to_string());
    p.author = Some("alice".to_string());
    let st = list_articles_statement(p);
    let expected = format!(
        "{}SELECT * FROM article_view av WHERE $1 = ANY(av.tag_list) AND av.author_username = $2 \
         AND 1=1 ORDER BY av.created_at DESC LIMIT $3 OFFSET $4",
        anon_article_cte()
    );
    assert_eq!(st.text, expected);
    assert_eq!(st.binds.len(), 4);
    assert_eq!(text_bind(&st.binds[0]), "rust");
    assert_eq!(text_bind(&st.binds[1]), "alice");
}

#[test]
fn three_filters_conjoin_in_declaration_order() {
    let mut p = ListArticlesParams::empty();
    p.tag = Some("rust".to_string());
    p.author = Some("alice".to_string());
    p.favorited_by = Some("bob".to_string());
    let st = list_articles_statement(p);
    let expected = format!(
        "{}SELECT * FROM article_view av WHERE $1 = ANY(av.tag_list) AND av.author_username = $2 \
         AND av.id IN (SELECT f.article_id FROM article_favorites f INNER JOIN users u ON \
         f.user_id = u.id WHERE u.username = $3) AND 1=1 ORDER BY av.created_at DESC LIMIT $4 \
         OFFSET $5",
        anon_article_cte()
    );
    assert_eq!(st.text, expected);
    assert_eq!(st.binds.len(), 5);
    assert_eq!(text_bind(&st.binds[0]), "rust");
    assert_eq!(text_bind(&st.binds[1]), "alice");
    assert_eq!(text_bind(&st.binds[2]), "bob");
    assert_eq!(int_bind(&st.binds[3]), 50);
    assert_eq!(int_bind(&st.binds[4]), 0);
}

#[test]
fn favorited_by_alone_still_carries_tautology() {
    let mut p = ListArticlesParams::empty();
    p.favorited_by = Some("bob".to_string());
    let st = list_articles_statement(p);
    let expected = format!(
        "{}SELECT * FROM article_view av WHERE av.id IN (SELECT f.article_id FROM \
         article_favorites f INNER JOIN users u ON f.user_id = u.id WHERE u.username = $1) AND \
         1=1 ORDER BY av.created_at DESC LIMIT $2 OFFSET $3",
        anon_article_cte()
    );
    assert_eq!(st.text, expected);
    assert_eq!(st.binds.len(), 3);
}

#[test]
fn viewer_identity_shifts_placeholders_and_binds_first() {
    let mut p = ListArticlesParams::empty();
    p.user_id = Some(UserId(99));
    p.tag = Some("rust".to_string());
    let st = list_articles_statement(p);
    let expected = format!(
        "{}SELECT * FROM article_view av WHERE $3 = ANY(av.tag_list) AND 1=1 ORDER BY \
         av.created_at DESC LIMIT $4 OFFSET $5",
        viewer_article_cte(1, 2)
    );
    assert_eq!(st.text, expected);
    assert_eq!(st.binds.len(), 5);
    assert_eq!(id_bind(&st.binds[0]), 99);
    assert_eq!(id_bind(&st.binds[1]), 99);
    assert_eq!(text_bind(&st.binds[2]), "rust");
}

#[test]
fn explicit_pagination_overrides_defaults() {
    let mut p = ListArticlesParams::empty();
    p.tag = Some("rust".to_string());
    p.limit = Some(Limit::new(10));
    p.offset = Some(Offset::new(0));
    let st = list_articles_statement(p);
    assert_eq!(st.binds.len(), 3);
    assert_eq!(text_bind(&st.binds[0]), "rust");
    assert_eq!(int_bind(&st.binds[1]), 10);
    assert_eq!(int_bind(&st.binds[2]), 0);
}

#[test]
fn count_statement_ignores_pagination() {
    let mut p = ListArticlesParams::empty();
    p.tag = Some("rust".to_string());
    p.limit = Some(Limit::new(10));
    p.offset = Some(Offset::new(20));
    let st = count_articles_statement(p);
    let expected = format!(
        "{}SELECT COUNT(*) FROM article_view av WHERE $1 = ANY(av.tag_list) AND 1=1",
        anon_article_cte()
    );
    assert_eq!(st.text, expected);
    assert_eq!(st.binds.len(), 1);
    assert_eq!(text_bind(&st.binds[0]), "rust");
}

#[test]
fn count_statement_without_filters_has_no_where() {
    let st = count_articles_statement(ListArticlesParams::empty());
    let expected = format!("{}SELECT COUNT(*) FROM article_view av", anon_article_cte());
    assert_eq!(st.text, expected);
    assert_eq!(st.binds.len(), 0);
}
