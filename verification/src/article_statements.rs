//! Statement builders for the article view.
//!
//! Every builder returns a complete [`Statement`]: the template text and
//! the bind values in placeholder order. The denormalized article view is
//! rebuilt per call as a common table expression, because a present viewer
//! identity changes its shape: only then are the two correlated existence
//! checks (following, favorited) emitted, and anonymous reads never pay
//! that cost — their booleans are the literal FALSE.

use vstd::prelude::*;
use crate::fields::{spec_article_field_name, IndexedArticleField};
use crate::filters::{filter_count, opt_count, spec_limit, spec_offset, ListArticlesParams};
use crate::statement::{placeholder, BindValue, Statement};
use crate::values::{ArticleId, Limit, Offset, TagId, UserId};

verus! {

/// How many bind values the article view prelude takes: two copies of the
/// viewer identity when one is present, none otherwise.
pub open spec fn viewer_bind_count(v: Option<UserId>) -> nat {
    match v {
        Some(_) => 2,
        None => 0,
    }
}

/// The bind values of the article view prelude.
pub open spec fn article_cte_binds(v: Option<UserId>) -> Seq<BindValue> {
    match v {
        Some(u) => seq![BindValue::Id(u.0), BindValue::Id(u.0)],
        None => Seq::<BindValue>::empty(),
    }
}

/// The text of the article view prelude. With a viewer the relationship
/// booleans are correlated existence checks on the viewer's identity; for
/// anonymous access they are hard-coded FALSE and no subquery is emitted.
pub open spec fn article_cte_text(with_viewer: bool) -> Seq<char> {
    "WITH article_view AS (SELECT a.id, a.slug, a.title, a.description, a.created_at, a.updated_at, a.body, u.id AS author_id, u.username AS author_username, u.bio AS author_bio, u.image AS author_image, COUNT(af.article_id) AS favorites_count, COALESCE(ARRAY_AGG(t.name) FILTER (WHERE t.name IS NOT NULL), ARRAY[]::text[])::text[] AS tag_list"@
        + (if with_viewer {
        ", EXISTS(SELECT 1 FROM user_follows uf WHERE uf.follower_id = "@ + placeholder(1)
            + " AND uf.followee_id = u.id) AS following, EXISTS(SELECT 1 FROM article_favorites f WHERE f.user_id = "@
            + placeholder(2) + " AND f.article_id = a.id) AS favorited"@
    } else {
        ", FALSE AS following, FALSE AS favorited"@
    })
        + " FROM articles a INNER JOIN users u ON a.author_id = u.id LEFT JOIN article_tags at ON a.id = at.article_id LEFT JOIN tags t ON at.tag_id = t.id LEFT JOIN article_favorites af ON af.article_id = a.id GROUP BY a.id, u.id) "@
}

/// Builds the article view prelude that the list, count and point-lookup
/// statements append their own clauses to.
pub fn article_view_cte(viewer: &Option<UserId>) -> (r: Statement)
    ensures
        r.text@ == article_cte_text(viewer is Some),
        r.binds@ == article_cte_binds(*viewer),
{
    let mut st = Statement::new();
    st.push(
        "WITH article_view AS (SELECT a.id, a.slug, a.title, a.description, a.created_at, a.updated_at, a.body, u.id AS author_id, u.username AS author_username, u.bio AS author_bio, u.image AS author_image, COUNT(af.article_id) AS favorites_count, COALESCE(ARRAY_AGG(t.name) FILTER (WHERE t.name IS NOT NULL), ARRAY[]::text[])::text[] AS tag_list",
    );
    match viewer {
        Some(user_id) => {
            st.push(", EXISTS(SELECT 1 FROM user_follows uf WHERE uf.follower_id = ");
            st.push_bind(BindValue::Id(user_id.0));
            st.push(
                " AND uf.followee_id = u.id) AS following, EXISTS(SELECT 1 FROM article_favorites f WHERE f.user_id = ",
            );
            st.push_bind(BindValue::Id(user_id.0));
            st.push(" AND f.article_id = a.id) AS favorited");
        },
        None => {
            st.push(", FALSE AS following, FALSE AS favorited");
        },
    }
    st.push(
        " FROM articles a INNER JOIN users u ON a.author_id = u.id LEFT JOIN article_tags at ON a.id = at.article_id LEFT JOIN tags t ON at.tag_id = t.id LEFT JOIN article_favorites af ON af.article_id = a.id GROUP BY a.id, u.id) ",
    );
    proof {
        assert(st.text@ =~= article_cte_text(viewer is Some));
        assert(st.binds@ =~= article_cte_binds(*viewer));
    }
    st
}

/// The conjunctive WHERE clause of a filter set, empty when no predicate
/// is present. Each present predicate contributes one comparison, in
/// filter-declaration order, each followed by AND; the trailing tautology
/// keeps the clause well-formed however many predicates preceded it.
/// `base` is how many bind values the statement holds before the clause.
pub open spec fn filters_where_text(p: ListArticlesParams, base: nat) -> Seq<char> {
    if filter_count(p) == 0 {
        Seq::<char>::empty()
    } else {
        " WHERE "@
            + (match p.tag {
            Some(_) => placeholder(base + 1) + " = ANY(av.tag_list) AND "@,
            None => Seq::<char>::empty(),
        })
            + (match p.author {
            Some(_) => "av.author_username = "@ + placeholder(base + opt_count(p.tag) + 1)
                + " AND "@,
            None => Seq::<char>::empty(),
        })
            + (match p.favorited_by {
            Some(_) => "av.id IN (SELECT f.article_id FROM article_favorites f INNER JOIN users u ON f.user_id = u.id WHERE u.username = "@
                + placeholder(base + opt_count(p.tag) + opt_count(p.author) + 1) + ") AND "@,
            None => Seq::<char>::empty(),
        })
            + "1=1"@
    }
}

/// The bind values the filter predicates contribute, in
/// filter-declaration order.
pub open spec fn filters_binds(p: ListArticlesParams) -> Seq<BindValue> {
    (match p.tag {
        Some(t) => seq![BindValue::Text(t)],
        None => Seq::<BindValue>::empty(),
    })
        + (match p.author {
        Some(a) => seq![BindValue::Text(a)],
        None => Seq::<BindValue>::empty(),
    })
        + (match p.favorited_by {
        Some(f) => seq![BindValue::Text(f)],
        None => Seq::<BindValue>::empty(),
    })
}

/// Appends the WHERE clause of `filters_where_text` to `st` and its bind
/// values to the bind list.
#[verifier::rlimit(60)]
#[verifier::spinoff_prover]
fn push_filters(
    st: &mut Statement,
    tag: Option<String>,
    author: Option<String>,
    favorited_by: Option<String>,
    p: Ghost<ListArticlesParams>,
)
    requires
        p@.tag == tag,
        p@.author == author,
        p@.favorited_by == favorited_by,
        old(st).binds@.len() + 3 < usize::MAX,
    ensures
        final(st).text@ == old(st).text@ + filters_where_text(p@, old(st).binds@.len()),
        final(st).binds@ == old(st).binds@ + filters_binds(p@),
{
    let non_empty = tag.is_some() || author.is_some() || favorited_by.is_some();
    if non_empty {
        st.push(" WHERE ");
        if let Some(t) = tag {
            st.push_bind(BindValue::Text(t));
            st.push(" = ANY(av.tag_list) AND ");
        }
        if let Some(a) = author {
            st.push("av.author_username = ");
            st.push_bind(BindValue::Text(a));
            st.push(" AND ");
        }
        if let Some(f) = favorited_by {
            st.push(
                "av.id IN (SELECT f.article_id FROM article_favorites f INNER JOIN users u ON f.user_id = u.id WHERE u.username = ",
            );
            st.push_bind(BindValue::Text(f));
            st.push(") AND ");
        }
        st.push("1=1");
    }
    proof {
        assert(st.text@ =~= old(st).text@ + filters_where_text(p@, old(st).binds@.len()));
        assert(st.binds@ =~= old(st).binds@ + filters_binds(p@));
    }
}

/// The text of the list statement for a filter set: the view prelude, the
/// filters' WHERE clause, and the fixed newest-first ordering with the
/// resolved pagination window bound last.
pub open spec fn list_articles_text(p: ListArticlesParams) -> Seq<char> {
    let base = viewer_bind_count(p.user_id);
    let k = filter_count(p);
    article_cte_text(p.user_id is Some) + "SELECT * FROM article_view av"@
        + filters_where_text(p, base) + " ORDER BY av.created_at DESC LIMIT "@
        + placeholder(base + k + 1) + " OFFSET "@ + placeholder(base + k + 2)
}

/// The bind values of the list statement, in placeholder order: viewer
/// identity (twice, when present), the present filter values in
/// filter-declaration order, then limit and offset.
pub open spec fn list_articles_binds(p: ListArticlesParams) -> Seq<BindValue> {
    article_cte_binds(p.user_id) + filters_binds(p)
        + seq![BindValue::Int(spec_limit(p)), BindValue::Int(spec_offset(p))]
}

/// Compiles a filter set into the list statement. Absence of filters is
/// valid, not an error: only the pagination window (with its defaults) is
/// appended then.
pub fn list_articles_statement(params: ListArticlesParams) -> (r: Statement)
    ensures
        r.text@ == list_articles_text(params),
        r.binds@ == list_articles_binds(params),
{
    let ListArticlesParams { user_id, tag, author, favorited_by, limit, offset } = params;
    let mut st = article_view_cte(&user_id);
    st.push("SELECT * FROM article_view av");
    push_filters(&mut st, tag, author, favorited_by, Ghost(params));
    st.push(" ORDER BY av.created_at DESC LIMIT ");
    let lim: i64 = match limit {
        Some(l) => l.value(),
        None => 50,
    };
    st.push_bind(BindValue::Int(lim));
    st.push(" OFFSET ");
    let off: i64 = match offset {
        Some(o) => o.value(),
        None => 0,
    };
    st.push_bind(BindValue::Int(off));
    proof {
        assert(st.text@ =~= list_articles_text(params));
        assert(st.binds@ =~= list_articles_binds(params));
    }
    st
}

/// The text of the count statement: the same view prelude and WHERE
/// clause as the list statement, but counting rows and ignoring
/// pagination.
pub open spec fn count_articles_text(p: ListArticlesParams) -> Seq<char> {
    article_cte_text(p.user_id is Some) + "SELECT COUNT(*) FROM article_view av"@
        + filters_where_text(p, viewer_bind_count(p.user_id))
}

/// The bind values of the count statement.
pub open spec fn count_articles_binds(p: ListArticlesParams) -> Seq<BindValue> {
    article_cte_binds(p.user_id) + filters_binds(p)
}

/// Compiles a filter set into the count statement; pagination is ignored.
pub fn count_articles_statement(params: ListArticlesParams) -> (r: Statement)
    ensures
        r.text@ == count_articles_text(params),
        r.binds@ == count_articles_binds(params),
{
    let ListArticlesParams { user_id, tag, author, favorited_by, limit: _, offset: _ } = params;
    let mut st = article_view_cte(&user_id);
    st.push("SELECT COUNT(*) FROM article_view av");
    push_filters(&mut st, tag, author, favorited_by, Ghost(params));
    proof {
        assert(st.text@ =~= count_articles_text(params));
        assert(st.binds@ =~= count_articles_binds(params));
    }
    st
}

/// The text of the feed statement: the articles of the authors the given
/// user follows, newest first, paginated.
pub open spec fn feed_articles_text() -> Seq<char> {
    article_cte_text(true)
        + "SELECT * FROM article_view av INNER JOIN user_follows uf ON av.author_id = uf.followee_id WHERE uf.follower_id = "@
        + placeholder(3) + " ORDER BY av.created_at DESC LIMIT "@ + placeholder(4) + " OFFSET "@
        + placeholder(5)
}

/// Builds the feed statement for a user: the view is always built with
/// that user as the viewer, and the same identity is bound once more for
/// the follower predicate, then the resolved pagination window.
pub fn get_feed_articles_statement(user_id: UserId, limit: Option<Limit>, offset: Option<Offset>) -> (r:
    Statement)
    ensures
        r.text@ == feed_articles_text(),
        r.binds@ == seq![
            BindValue::Id(user_id.0),
            BindValue::Id(user_id.0),
            BindValue::Id(user_id.0),
            BindValue::Int(match limit {
                Some(l) => l.0,
                None => 50,
            }),
            BindValue::Int(match offset {
                Some(o) => o.0,
                None => 0,
            }),
        ],
{
    let viewer = Some(user_id);
    let mut st = article_view_cte(&viewer);
    st.push(
        "SELECT * FROM article_view av INNER JOIN user_follows uf ON av.author_id = uf.followee_id WHERE uf.follower_id = ",
    );
    st.push_bind(BindValue::Id(user_id.value()));
    st.push(" ORDER BY av.created_at DESC LIMIT ");
    let lim: i64 = match limit {
        Some(l) => l.value(),
        None => 50,
    };
    st.push_bind(BindValue::Int(lim));
    st.push(" OFFSET ");
    let off: i64 = match offset {
        Some(o) => o.value(),
        None => 0,
    };
    st.push_bind(BindValue::Int(off));
    proof {
        assert(st.text@ =~= feed_articles_text());
    }
    st
}

/// Builds the point lookup of an article row by an indexed column, without
/// the view prelude.
pub fn get_article_by_statement(field: IndexedArticleField, value: BindValue) -> (r: Statement)
    ensures
        r.text@ == "SELECT * FROM article_view WHERE "@ + spec_article_field_name(field) + " = "@
            + placeholder(1),
        r.binds@ == seq![value],
{
    let mut st = Statement::new();
    st.push("SELECT * FROM article_view WHERE ");
    st.push(field.to_field_name());
    st.push(" = ");
    st.push_bind(value);
    proof {
        assert(st.text@ =~= "SELECT * FROM article_view WHERE "@ + spec_article_field_name(field)
            + " = "@ + placeholder(1));
        assert(st.binds@ =~= seq![value]);
    }
    st
}

/// The text of a view point lookup by an indexed column.
pub open spec fn article_view_by_text(field: IndexedArticleField, with_viewer: bool) -> Seq<char> {
    article_cte_text(with_viewer) + "SELECT * FROM article_view WHERE "@
        + spec_article_field_name(field) + " = "@ + placeholder(
        viewer_bind_count_of(with_viewer) + 1,
    )
}

/// `viewer_bind_count`, phrased over presence alone.
pub open spec fn viewer_bind_count_of(with_viewer: bool) -> nat {
    if with_viewer {
        2
    } else {
        0
    }
}

/// Builds the point lookup of an article view row by an indexed column,
/// viewer-relative when a viewer is present.
pub fn get_article_view_by_statement(
    field: IndexedArticleField,
    value: BindValue,
    viewer: &Option<UserId>,
) -> (r: Statement)
    ensures
        r.text@ == article_view_by_text(field, viewer is Some),
        r.binds@ == article_cte_binds(*viewer).push(value),
{
    let mut st = article_view_cte(viewer);
    st.push("SELECT * FROM article_view WHERE ");
    st.push(field.to_field_name());
    st.push(" = ");
    st.push_bind(value);
    proof {
        assert(st.text@ =~= article_view_by_text(field, viewer is Some));
        assert(st.binds@ =~= article_cte_binds(*viewer).push(value));
    }
    st
}

/// Builds the point lookup of an article view row by its id.
pub fn get_article_by_id_statement(article_id: ArticleId, viewer: &Option<UserId>) -> (r: Statement)
    ensures
        r.text@ == article_cte_text(viewer is Some) + "SELECT * FROM article_view WHERE id = "@
            + placeholder(viewer_bind_count(*viewer) + 1),
        r.binds@ == article_cte_binds(*viewer).push(BindValue::Id(article_id.0)),
{
    let mut st = article_view_cte(viewer);
    st.push("SELECT * FROM article_view WHERE id = ");
    st.push_bind(BindValue::Id(article_id.value()));
    proof {
        assert(st.text@ =~= article_cte_text(viewer is Some)
            + "SELECT * FROM article_view WHERE id = "@ + placeholder(
            viewer_bind_count(*viewer) + 1,
        ));
        assert(st.binds@ =~= article_cte_binds(*viewer).push(BindValue::Id(article_id.0)));
    }
    st
}

/// The columns of a fresh article row.
#[derive(Debug)]
pub struct InsertArticleParams {
    pub slug: String,
    pub title: String,
    pub description: String,
    pub body: String,
    pub author_id: UserId,
}

/// Builds the insert of a fresh article row.
pub fn insert_article_statement(params: InsertArticleParams) -> (r: Statement)
    ensures
        r.text@ == "INSERT INTO articles (slug, title, description, body, author_id) VALUES ("@
            + placeholder(1) + ", "@ + placeholder(2) + ", "@ + placeholder(3) + ", "@
            + placeholder(4) + ", "@ + placeholder(5)
            + ") RETURNING id, slug, title, description, body, author_id, created_at, updated_at"@,
        r.binds@ == seq![
            BindValue::Text(params.slug),
            BindValue::Text(params.title),
            BindValue::Text(params.description),
            BindValue::Text(params.body),
            BindValue::Id(params.author_id.0),
        ],
{
    let InsertArticleParams { slug, title, description, body, author_id } = params;
    let mut st = Statement::new();
    st.push("INSERT INTO articles (slug, title, description, body, author_id) VALUES (");
    st.push_bind(BindValue::Text(slug));
    st.push(", ");
    st.push_bind(BindValue::Text(title));
    st.push(", ");
    st.push_bind(BindValue::Text(description));
    st.push(", ");
    st.push_bind(BindValue::Text(body));
    st.push(", ");
    st.push_bind(BindValue::Id(author_id.value()));
    st.push(") RETURNING id, slug, title, description, body, author_id, created_at, updated_at");
    proof {
        assert(st.text@ =~= "INSERT INTO articles (slug, title, description, body, author_id) VALUES ("@
            + placeholder(1) + ", "@ + placeholder(2) + ", "@ + placeholder(3) + ", "@
            + placeholder(4) + ", "@ + placeholder(5)
            + ") RETURNING id, slug, title, description, body, author_id, created_at, updated_at"@);
        assert(st.binds@ =~= seq![
            BindValue::Text(params.slug),
            BindValue::Text(params.title),
            BindValue::Text(params.description),
            BindValue::Text(params.body),
            BindValue::Id(params.author_id.0),
        ]);
    }
    st
}

/// Builds the delete of an article row by its id.
pub fn delete_article_statement(article_id: ArticleId) -> (r: Statement)
    ensures
        r.text@ == "DELETE FROM articles WHERE id = "@ + placeholder(1),
        r.binds@ == seq![BindValue::Id(article_id.0)],
{
    let mut st = Statement::new();
    st.push("DELETE FROM articles WHERE id = ");
    st.push_bind(BindValue::Id(article_id.value()));
    proof {
        assert(st.text@ =~= "DELETE FROM articles WHERE id = "@ + placeholder(1));
        assert(st.binds@ =~= seq![BindValue::Id(article_id.0)]);
    }
    st
}

/// Builds the idempotent insert of a favorite relationship.
pub fn favorite_article_statement(user_id: UserId, article_id: ArticleId) -> (r: Statement)
    ensures
        r.text@ == "INSERT INTO article_favorites (user_id, article_id) VALUES ("@ + placeholder(1)
            + ", "@ + placeholder(2) + ") ON CONFLICT (user_id, article_id) DO NOTHING"@,
        r.binds@ == seq![BindValue::Id(user_id.0), BindValue::Id(article_id.0)],
{
    let mut st = Statement::new();
    st.push("INSERT INTO article_favorites (user_id, article_id) VALUES (");
    st.push_bind(BindValue::Id(user_id.value()));
    st.push(", ");
    st.push_bind(BindValue::Id(article_id.value()));
    st.push(") ON CONFLICT (user_id, article_id) DO NOTHING");
    proof {
        assert(st.text@ =~= "INSERT INTO article_favorites (user_id, article_id) VALUES ("@
            + placeholder(1) + ", "@ + placeholder(2)
            + ") ON CONFLICT (user_id, article_id) DO NOTHING"@);
        assert(st.binds@ =~= seq![BindValue::Id(user_id.0), BindValue::Id(article_id.0)]);
    }
    st
}

/// Builds the delete of a favorite relationship.
pub fn unfavorite_article_statement(user_id: UserId, article_id: ArticleId) -> (r: Statement)
    ensures
        r.text@ == "DELETE FROM article_favorites WHERE user_id = "@ + placeholder(1)
            + " AND article_id = "@ + placeholder(2),
        r.binds@ == seq![BindValue::Id(user_id.0), BindValue::Id(article_id.0)],
{
    let mut st = Statement::new();
    st.push("DELETE FROM article_favorites WHERE user_id = ");
    st.push_bind(BindValue::Id(user_id.value()));
    st.push(" AND article_id = ");
    st.push_bind(BindValue::Id(article_id.value()));
    proof {
        assert(st.text@ =~= "DELETE FROM article_favorites WHERE user_id = "@ + placeholder(1)
            + " AND article_id = "@ + placeholder(2));
        assert(st.binds@ =~= seq![BindValue::Id(user_id.0), BindValue::Id(article_id.0)]);
    }
    st
}

/// Builds the idempotent insert of one tag association; the caller issues
/// one statement per tag.
pub fn add_tag_to_article_statement(article_id: ArticleId, tag_id: TagId) -> (r: Statement)
    ensures
        r.text@ == "INSERT INTO article_tags (article_id, tag_id) VALUES ("@ + placeholder(1)
            + ", "@ + placeholder(2) + ") ON CONFLICT (article_id, tag_id) DO NOTHING"@,
        r.binds@ == seq![BindValue::Id(article_id.0), BindValue::Id(tag_id.0)],
{
    let mut st = Statement::new();
    st.push("INSERT INTO article_tags (article_id, tag_id) VALUES (");
    st.push_bind(BindValue::Id(article_id.value()));
    st.push(", ");
    st.push_bind(BindValue::Id(tag_id.value()));
    st.push(") ON CONFLICT (article_id, tag_id) DO NOTHING");
    proof {
        assert(st.text@ =~= "INSERT INTO article_tags (article_id, tag_id) VALUES ("@
            + placeholder(1) + ", "@ + placeholder(2)
            + ") ON CONFLICT (article_id, tag_id) DO NOTHING"@);
        assert(st.binds@ =~= seq![BindValue::Id(article_id.0), BindValue::Id(tag_id.0)]);
    }
    st
}

} // verus!
