//! Statement builders for the comment view.
//!
//! The comment view follows the article view's pattern without tags or
//! favorites: only the `following` boolean, conditioned identically on
//! viewer presence — a correlated existence check when a viewer is
//! present, the literal FALSE for anonymous access.

use vstd::prelude::*;
use crate::statement::{placeholder, BindValue, Statement};
use crate::values::{ArticleId, CommentId, UserId};

verus! {

/// How many bind values the comment view prelude takes: one copy of the
/// viewer identity when one is present.
pub open spec fn comment_viewer_bind_count(v: Option<UserId>) -> nat {
    match v {
        Some(_) => 1,
        None => 0,
    }
}

/// The bind values of the comment view prelude.
pub open spec fn comment_cte_binds(v: Option<UserId>) -> Seq<BindValue> {
    match v {
        Some(u) => seq![BindValue::Id(u.0)],
        None => Seq::<BindValue>::empty(),
    }
}

/// The text of the comment view prelude.
pub open spec fn comment_cte_text(with_viewer: bool) -> Seq<char> {
    "WITH comment_view AS (SELECT c.id, c.body, c.created_at, c.updated_at, u.username AS author_username, u.bio AS author_bio, u.image AS author_image"@
        + (if with_viewer {
        ", EXISTS(SELECT 1 FROM user_follows uf WHERE uf.follower_id = "@ + placeholder(1)
            + " AND uf.followee_id = u.id) AS following"@
    } else {
        ", FALSE AS following"@
    }) + " FROM comments c INNER JOIN users u ON c.author_id = u.id) "@
}

/// Builds the comment view prelude.
pub fn comment_view_cte(viewer: &Option<UserId>) -> (r: Statement)
    ensures
        r.text@ == comment_cte_text(viewer is Some),
        r.binds@ == comment_cte_binds(*viewer),
{
    let mut st = Statement::new();
    st.push(
        "WITH comment_view AS (SELECT c.id, c.body, c.created_at, c.updated_at, u.username AS author_username, u.bio AS author_bio, u.image AS author_image",
    );
    match viewer {
        Some(user_id) => {
            st.push(", EXISTS(SELECT 1 FROM user_follows uf WHERE uf.follower_id = ");
            st.push_bind(BindValue::Id(user_id.0));
            st.push(" AND uf.followee_id = u.id) AS following");
        },
        None => {
            st.push(", FALSE AS following");
        },
    }
    st.push(" FROM comments c INNER JOIN users u ON c.author_id = u.id) ");
    proof {
        assert(st.text@ =~= comment_cte_text(viewer is Some));
        assert(st.binds@ =~= comment_cte_binds(*viewer));
    }
    st
}

/// The columns of a fresh comment row.
#[derive(Debug)]
pub struct InsertCommentParams {
    pub body: String,
    pub article_id: ArticleId,
    pub author_id: UserId,
}

/// Builds the insert of a fresh comment row.
pub fn insert_comment_statement(params: InsertCommentParams) -> (r: Statement)
    ensures
        r.text@ == "INSERT INTO comments (body, article_id, author_id) VALUES ("@ + placeholder(1)
            + ", "@ + placeholder(2) + ", "@ + placeholder(3)
            + ") RETURNING id, body, article_id, author_id, created_at, updated_at"@,
        r.binds@ == seq![
            BindValue::Text(params.body),
            BindValue::Id(params.article_id.0),
            BindValue::Id(params.author_id.0),
        ],
{
    let InsertCommentParams { body, article_id, author_id } = params;
    let mut st = Statement::new();
    st.push("INSERT INTO comments (body, article_id, author_id) VALUES (");
    st.push_bind(BindValue::Text(body));
    st.push(", ");
    st.push_bind(BindValue::Id(article_id.value()));
    st.push(", ");
    st.push_bind(BindValue::Id(author_id.value()));
    st.push(") RETURNING id, body, article_id, author_id, created_at, updated_at");
    proof {
        assert(st.text@ =~= "INSERT INTO comments (body, article_id, author_id) VALUES ("@
            + placeholder(1) + ", "@ + placeholder(2) + ", "@ + placeholder(3)
            + ") RETURNING id, body, article_id, author_id, created_at, updated_at"@);
        assert(st.binds@ =~= seq![
            BindValue::Text(params.body),
            BindValue::Id(params.article_id.0),
            BindValue::Id(params.author_id.0),
        ]);
    }
    st
}

/// Builds the delete of a comment row by its id.
pub fn delete_comment_statement(comment_id: CommentId) -> (r: Statement)
    ensures
        r.text@ == "DELETE FROM comments WHERE id = "@ + placeholder(1),
        r.binds@ == seq![BindValue::Int(comment_id.0)],
{
    let mut st = Statement::new();
    st.push("DELETE FROM comments WHERE id = ");
    st.push_bind(BindValue::Int(comment_id.value()));
    proof {
        assert(st.text@ =~= "DELETE FROM comments WHERE id = "@ + placeholder(1));
        assert(st.binds@ =~= seq![BindValue::Int(comment_id.0)]);
    }
    st
}

/// Builds the authorship test of a comment.
pub fn is_comment_author_statement(comment_id: CommentId, user_id: UserId) -> (r: Statement)
    ensures
        r.text@ == "SELECT EXISTS(SELECT 1 FROM comments WHERE id = "@ + placeholder(1)
            + " AND author_id = "@ + placeholder(2) + ") AS is_author"@,
        r.binds@ == seq![BindValue::Int(comment_id.0), BindValue::Id(user_id.0)],
{
    let mut st = Statement::new();
    st.push("SELECT EXISTS(SELECT 1 FROM comments WHERE id = ");
    st.push_bind(BindValue::Int(comment_id.value()));
    st.push(" AND author_id = ");
    st.push_bind(BindValue::Id(user_id.value()));
    st.push(") AS is_author");
    proof {
        assert(st.text@ =~= "SELECT EXISTS(SELECT 1 FROM comments WHERE id = "@ + placeholder(1)
            + " AND author_id = "@ + placeholder(2) + ") AS is_author"@);
        assert(st.binds@ =~= seq![BindValue::Int(comment_id.0), BindValue::Id(user_id.0)]);
    }
    st
}

/// Builds the list of an article's comment view rows, newest first.
pub fn get_comments_statement(article_id: ArticleId, viewer: &Option<UserId>) -> (r: Statement)
    ensures
        r.text@ == comment_cte_text(viewer is Some)
            + "SELECT * FROM comment_view WHERE id IN (SELECT id FROM comments WHERE article_id = "@
            + placeholder(comment_viewer_bind_count(*viewer) + 1)
            + ") ORDER BY created_at DESC"@,
        r.binds@ == comment_cte_binds(*viewer).push(BindValue::Id(article_id.0)),
{
    let mut st = comment_view_cte(viewer);
    st.push("SELECT * FROM comment_view WHERE id IN (SELECT id FROM comments WHERE article_id = ");
    st.push_bind(BindValue::Id(article_id.value()));
    st.push(") ORDER BY created_at DESC");
    proof {
        assert(st.text@ =~= comment_cte_text(viewer is Some)
            + "SELECT * FROM comment_view WHERE id IN (SELECT id FROM comments WHERE article_id = "@
            + placeholder(comment_viewer_bind_count(*viewer) + 1)
            + ") ORDER BY created_at DESC"@);
        assert(st.binds@ =~= comment_cte_binds(*viewer).push(BindValue::Id(article_id.0)));
    }
    st
}

/// Builds the point lookup of one comment view row by its id.
pub fn get_comment_statement(comment_id: CommentId, viewer: &Option<UserId>) -> (r: Statement)
    ensures
        r.text@ == comment_cte_text(viewer is Some) + "SELECT * FROM comment_view WHERE id = "@
            + placeholder(comment_viewer_bind_count(*viewer) + 1),
        r.binds@ == comment_cte_binds(*viewer).push(BindValue::Int(comment_id.0)),
{
    let mut st = comment_view_cte(viewer);
    st.push("SELECT * FROM comment_view WHERE id = ");
    st.push_bind(BindValue::Int(comment_id.value()));
    proof {
        assert(st.text@ =~= comment_cte_text(viewer is Some)
            + "SELECT * FROM comment_view WHERE id = "@ + placeholder(
            comment_viewer_bind_count(*viewer) + 1,
        ));
        assert(st.binds@ =~= comment_cte_binds(*viewer).push(BindValue::Int(comment_id.0)));
    }
    st
}

} // verus!
