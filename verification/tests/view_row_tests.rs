//! Entity view rows: viewer-relative booleans and fixture selection.

use realworld::article_statements::{article_view_cte, get_feed_articles_statement};
use realworld::comment_statements::comment_view_cte;
use realworld::filters::ListArticlesParams;
use realworld::statement::BindValue;
use realworld::values::{ArticleId, CommentId, Limit, Offset, UserId, Username};
use realworld::views::{
    build_article_view_row, build_comment_view_row, select_article_indices, ArticleRowData,
    ArticleViewRow, CommentRowData,
};

fn article_data(id: u128, title: &str, created_at: i64, author: u128, tags: &[&str]) -> ArticleRowData {
    ArticleRowData {
        id: ArticleId(id),
        slug: title.to_lowercase().replace(' ', "-"),
        title: title.to_string(),
        description: "d".to_string(),
        body: "b".to_string(),
        created_at,
        updated_at: created_at,
        author_id: UserId(author),
        author_username: Username::new("author".to_string()),
        author_bio: None,
        author_image: None,
        tag_list: tags.iter().map(|t| t.to_string()).collect(),
    }
}

#[test]
fn anonymous_view_never_surfaces_stored_relationships() {
    let follows = vec![(5u128, 1u128)];
    let favorites = vec![(5u128, 10u128)];
    let row = build_article_view_row(article_data(10, "T", 1, 1, &[]), &None, &follows, &favorites);
    assert!(!row.following);
    assert!(!row.favorited);
    assert_eq!(row.favorites_count, 1);
}

#[test]
fn anonymous_view_statement_hard_codes_false_flags() {
    let st = article_view_cte(&None);
    assert!(st.text.contains(", FALSE AS following, FALSE AS favorited"));
    assert!(!st.text.contains("EXISTS"));
    assert_eq!(st.binds.len(), 0);
    let cst = comment_view_cte(&None);
    assert!(cst.text.contains(", FALSE AS following"));
    assert_eq!(cst.binds.len(), 0);
}

#[test]
fn viewer_statement_binds_identity_for_existence_checks() {
    let st = article_view_cte(&Some(UserId(42)));
    assert!(st.text.contains("uf.follower_id = $1"));
    assert!(st.text.contains("f.user_id = $2"));
    assert_eq!(st.binds.len(), 2);
    assert!(matches!(st.binds[0], BindValue::Id(42)));
    assert!(matches!(st.binds[1], BindValue::Id(42)));
}

#[test]
fn viewer_flags_round_trip() {
    let data = || article_data(10, "T", 1, 1, &[]);
    let with_follows = vec![(5u128, 1u128)];
    let with_favorites = vec![(5u128, 10u128)];
    let viewer = Some(UserId(5));
    let row = build_article_view_row(data(), &viewer, &with_follows, &with_favorites);
    assert!(row.following);
    assert!(row.favorited);
    let none: Vec<(u128, u128)> = Vec::new();
    let row = build_article_view_row(data(), &viewer, &none, &none);
    assert!(!row.following);
    assert!(!row.favorited);
    assert_eq!(row.favorites_count, 0);
}

#[test]
fn other_viewers_relationships_do_not_leak() {
    let follows = vec![(6u128, 1u128)];
    let favorites = vec![(6u128, 10u128), (7u128, 10u128)];
    let viewer = Some(UserId(5));
    let row = build_article_view_row(article_data(10, "T", 1, 1, &[]), &viewer, &follows, &favorites);
    assert!(!row.following);
    assert!(!row.favorited);
    assert_eq!(row.favorites_count, 2);
}

#[test]
fn comment_row_follows_same_viewer_rule() {
    let follows = vec![(5u128, 1u128)];
    let data = CommentRowData {
        id: CommentId(3),
        body: "hi".to_string(),
        created_at: 1,
        updated_at: 1,
        author_id: UserId(1),
        author_username: Username::new("author".to_string()),
        author_bio: None,
        author_image: None,
    };
    let row = build_comment_view_row(data, &None, &follows);
    assert!(!row.following);
    let data = CommentRowData {
        id: CommentId(3),
        body: "hi".to_string(),
        created_at: 1,
        updated_at: 1,
        author_id: UserId(1),
        author_username: Username::new("author".to_string()),
        author_bio: None,
        author_image: None,
    };
    let row = build_comment_view_row(data, &Some(UserId(5)), &follows);
    assert!(row.following);
}

fn fixture_rows() -> Vec<ArticleViewRow> {
    let none: Vec<(u128, u128)> = Vec::new();
    vec![
        build_article_view_row(article_data(3, "Third", 30, 1, &["rust", "web"]), &None, &none, &none),
        build_article_view_row(article_data(2, "Second", 20, 1, &["rust"]), &None, &none, &none),
        build_article_view_row(article_data(1, "First", 10, 1, &["go"]), &None, &none, &none),
    ]
}

#[test]
fn tag_filter_selects_tagged_rows_newest_first() {
    let rows = fixture_rows();
    let mut p = ListArticlesParams::empty();
    p.tag = Some("rust".to_string());
    p.limit = Some(Limit::new(10));
    p.offset = Some(Offset::new(0));
    let picked = select_article_indices(&rows, &p, &Vec::new());
    assert_eq!(picked, vec![0, 1]);
    assert_eq!(rows[picked[0]].title, "Third");
    assert_eq!(rows[picked[1]].title, "Second");
    assert!(rows[picked[0]].created_at >= rows[picked[1]].created_at);
}

#[test]
fn author_filter_and_favorited_by_filter() {
    let rows = fixture_rows();
    let mut p = ListArticlesParams::empty();
    p.author = Some("author".to_string());
    let picked = select_article_indices(&rows, &p, &Vec::new());
    assert_eq!(picked, vec![0, 1, 2]);

    let favs = vec![("bob".to_string(), 2u128)];
    let mut p = ListArticlesParams::empty();
    p.favorited_by = Some("bob".to_string());
    let picked = select_article_indices(&rows, &p, &favs);
    assert_eq!(picked, vec![1]);
}

#[test]
fn offset_and_limit_window_the_matches() {
    let rows = fixture_rows();
    let mut p = ListArticlesParams::empty();
    p.limit = Some(Limit::new(1));
    p.offset = Some(Offset::new(1));
    let picked = select_article_indices(&rows, &p, &Vec::new());
    assert_eq!(picked, vec![1]);

    let mut p = ListArticlesParams::empty();
    p.offset = Some(Offset::new(5));
    let picked = select_article_indices(&rows, &p, &Vec::new());
    assert!(picked.is_empty());
}

#[test]
fn feed_statement_binds_viewer_thrice_then_pagination() {
    let st = get_feed_articles_statement(UserId(8), Some(Limit::new(10)), None);
    assert!(st.text.contains("INNER JOIN user_follows uf ON av.author_id = uf.followee_id"));
    assert!(st.text.contains("uf.follower_id = $3"));
    assert!(st.text.ends_with(" ORDER BY av.created_at DESC LIMIT $4 OFFSET $5"));
    assert_eq!(st.binds.len(), 5);
    assert!(matches!(st.binds[0], BindValue::Id(8)));
    assert!(matches!(st.binds[1], BindValue::Id(8)));
    assert!(matches!(st.binds[2], BindValue::Id(8)));
    assert!(matches!(st.binds[3], BindValue::Int(10)));
    assert!(matches!(st.binds[4], BindValue::Int(0)));
}
