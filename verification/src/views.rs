//! The entity view rows, as values.
//!
//! A view statement's row joins scalar entity columns, an author
//! sub-record, aggregates, and viewer-relative booleans. This module
//! states that shape over plain values: a row builder computes the
//! booleans and the favorites count from relationship facts exactly as
//! the view's correlated subqueries define them, and a selector applies a
//! filter set to a sequence of rows the way the compiled predicates do.
//! The row shape never depends on whether a viewer is present — only the
//! boolean values do, and for an anonymous viewer they are false whatever
//! relationships are stored.

use vstd::prelude::*;
use crate::filters::{spec_limit, spec_offset, ListArticlesParams};
use crate::values::{ArticleId, CommentId, UserId, Username};

verus! {

/// Whether the pair `(a, b)` is among the stored relationship facts.
pub open spec fn spec_contains_pair(v: Seq<(u128, u128)>, a: u128, b: u128) -> bool {
    exists|i: int| 0 <= i < v.len() && v[i].0 == a && v[i].1 == b
}

/// The `following` boolean of a view row: false for anonymous access,
/// else whether the viewer follows the author.
pub open spec fn spec_following_flag(
    viewer: Option<UserId>,
    author: UserId,
    follows: Seq<(u128, u128)>,
) -> bool {
    match viewer {
        None => false,
        Some(v) => spec_contains_pair(follows, v.0, author.0),
    }
}

/// The `favorited` boolean of an article view row: false for anonymous
/// access, else whether the viewer favorited the article.
pub open spec fn spec_favorited_flag(
    viewer: Option<UserId>,
    article: ArticleId,
    favorites: Seq<(u128, u128)>,
) -> bool {
    match viewer {
        None => false,
        Some(v) => spec_contains_pair(favorites, v.0, article.0),
    }
}

/// How many favorite facts name the article.
pub open spec fn count_favorites(favorites: Seq<(u128, u128)>, article: u128) -> nat
    decreases favorites.len(),
{
    if favorites.len() == 0 {
        0
    } else {
        count_favorites(favorites.drop_last(), article) + (if favorites.last().1 == article {
            1nat
        } else {
            0nat
        })
    }
}

fn contains_pair(v: &Vec<(u128, u128)>, a: u128, b: u128) -> (r: bool)
    ensures
        r == spec_contains_pair(v@, a, b),
{
    let mut i: usize = 0;
    while i < v.len()
        invariant
            i <= v@.len(),
            forall|j: int| 0 <= j < i ==> !(v@[j].0 == a && v@[j].1 == b),
        decreases v@.len() - i,
    {
        let p = &v[i];
        if p.0 == a && p.1 == b {
            return true;
        }
        i += 1;
    }
    false
}

fn favorites_count_of(favorites: &Vec<(u128, u128)>, article: u128) -> (r: u64)
    ensures
        r as nat == count_favorites(favorites@, article),
{
    let mut count: u64 = 0;
    let mut i: usize = 0;
    while i < favorites.len()
        invariant
            i <= favorites@.len(),
            count as nat == count_favorites(favorites@.take(i as int), article),
            count <= i,
        decreases favorites@.len() - i,
    {
        let p = &favorites[i];
        proof {
            assert(favorites@.take(i + 1).drop_last() =~= favorites@.take(i as int));
            assert(favorites@.take(i + 1).last() == favorites@[i as int]);
        }
        if p.1 == article {
            count = count + 1;
        }
        i += 1;
    }
    proof {
        assert(favorites@.take(favorites@.len() as int) =~= favorites@);
    }
    count
}

/// The scalar and author columns of an article view row, as the stored
/// tables hold them.
#[derive(Debug)]
pub struct ArticleRowData {
    pub id: ArticleId,
    pub slug: String,
    pub title: String,
    pub description: String,
    pub body: String,
    pub created_at: i64,
    pub updated_at: i64,
    pub author_id: UserId,
    pub author_username: Username,
    pub author_bio: Option<String>,
    pub author_image: Option<String>,
    pub tag_list: Vec<String>,
}

/// One row of the article view: scalar columns, author sub-record, the
/// aggregated tag list (empty, never absent, when no tags), the favorites
/// count, and the two viewer-relative booleans.
#[derive(Debug)]
pub struct ArticleViewRow {
    pub id: ArticleId,
    pub slug: String,
    pub title: String,
    pub description: String,
    pub body: String,
    pub created_at: i64,
    pub updated_at: i64,
    pub author_id: UserId,
    pub author_username: Username,
    pub author_bio: Option<String>,
    pub author_image: Option<String>,
    pub tag_list: Vec<String>,
    pub favorites_count: u64,
    pub following: bool,
    pub favorited: bool,
}

/// Builds an article view row from stored data and relationship facts,
/// exactly as the view statement computes it: the booleans are false for
/// anonymous access whatever facts are stored, else the viewer's stored
/// relationships; the favorites count is viewer-independent.
pub fn build_article_view_row(
    data: ArticleRowData,
    viewer: &Option<UserId>,
    follows: &Vec<(u128, u128)>,
    favorites: &Vec<(u128, u128)>,
) -> (r: ArticleViewRow)
    ensures
        r.id == data.id,
        r.slug == data.slug,
        r.title == data.title,
        r.description == data.description,
        r.body == data.body,
        r.created_at == data.created_at,
        r.updated_at == data.updated_at,
        r.author_id == data.author_id,
        r.author_username == data.author_username,
        r.author_bio == data.author_bio,
        r.author_image == data.author_image,
        r.tag_list == data.tag_list,
        r.favorites_count as nat == count_favorites(favorites@, data.id.0),
        r.following == spec_following_flag(*viewer, data.author_id, follows@),
        r.favorited == spec_favorited_flag(*viewer, data.id, favorites@),
{
    let favorites_count = favorites_count_of(favorites, data.id.value());
    let (following, favorited) = match viewer {
        None => (false, false),
        Some(v) => (
            contains_pair(follows, v.value(), data.author_id.value()),
            contains_pair(favorites, v.value(), data.id.value()),
        ),
    };
    let ArticleRowData {
        id,
        slug,
        title,
        description,
        body,
        created_at,
        updated_at,
        author_id,
        author_username,
        author_bio,
        author_image,
        tag_list,
    } = data;
    ArticleViewRow {
        id,
        slug,
        title,
        description,
        body,
        created_at,
        updated_at,
        author_id,
        author_username,
        author_bio,
        author_image,
        tag_list,
        favorites_count,
        following,
        favorited,
    }
}

/// The scalar and author columns of a comment view row.
#[derive(Debug)]
pub struct CommentRowData {
    pub id: CommentId,
    pub body: String,
    pub created_at: i64,
    pub updated_at: i64,
    pub author_id: UserId,
    pub author_username: Username,
    pub author_bio: Option<String>,
    pub author_image: Option<String>,
}

/// One row of the comment view: the article view's pattern without tags
/// or favorites, with only the `following` boolean.
#[derive(Debug)]
pub struct CommentViewRow {
    pub id: CommentId,
    pub body: String,
    pub created_at: i64,
    pub updated_at: i64,
    pub author_id: UserId,
    pub author_username: Username,
    pub author_bio: Option<String>,
    pub author_image: Option<String>,
    pub following: bool,
}

/// Builds a comment view row; `following` is computed exactly as for
/// article rows.
pub fn build_comment_view_row(
    data: CommentRowData,
    viewer: &Option<UserId>,
    follows: &Vec<(u128, u128)>,
) -> (r: CommentViewRow)
    ensures
        r.id == data.id,
        r.body == data.body,
        r.created_at == data.created_at,
        r.updated_at == data.updated_at,
        r.author_id == data.author_id,
        r.author_username == data.author_username,
        r.author_bio == data.author_bio,
        r.author_image == data.author_image,
        r.following == spec_following_flag(*viewer, data.author_id, follows@),
{
    let following = match viewer {
        None => false,
        Some(v) => contains_pair(follows, v.value(), data.author_id.value()),
    };
    let CommentRowData {
        id,
        body,
        created_at,
        updated_at,
        author_id,
        author_username,
        author_bio,
        author_image,
    } = data;
    CommentViewRow {
        id,
        body,
        created_at,
        updated_at,
        author_id,
        author_username,
        author_bio,
        author_image,
        following,
    }
}

/// Whether one of the strings reads `t`.
pub open spec fn contains_text(v: Seq<String>, t: Seq<char>) -> bool {
    exists|i: int| 0 <= i < v.len() && v[i]@ == t
}

fn vec_contains_str(v: &Vec<String>, t: &String) -> (r: bool)
    ensures
        r == contains_text(v@, t@),
{
    let mut i: usize = 0;
    while i < v.len()
        invariant
            i <= v@.len(),
            forall|j: int| 0 <= j < i ==> v@[j]@ != t@,
        decreases v@.len() - i,
    {
        if v[i].eq(t) {
            return true;
        }
        i += 1;
    }
    false
}

/// Whether the user with handle `handle` favorited article `article`,
/// per the stored `(handle, article)` facts.
pub open spec fn spec_handle_favorited(
    favs: Seq<(String, u128)>,
    handle: Seq<char>,
    article: u128,
) -> bool {
    exists|i: int| 0 <= i < favs.len() && favs[i].0@ == handle && favs[i].1 == article
}

fn handle_favorited(favs: &Vec<(String, u128)>, handle: &String, article: u128) -> (r: bool)
    ensures
        r == spec_handle_favorited(favs@, handle@, article),
{
    let mut i: usize = 0;
    while i < favs.len()
        invariant
            i <= favs@.len(),
            forall|j: int| 0 <= j < i ==> !(favs@[j].0@ == handle@ && favs@[j].1 == article),
        decreases favs@.len() - i,
    {
        let p = &favs[i];
        if p.0.eq(handle) && p.1 == article {
            return true;
        }
        i += 1;
    }
    false
}

/// Whether a row satisfies every present predicate of the filter set:
/// the tag is a member of the row's aggregated tag list, the author
/// handle equals the row's author column, and the row's id is among the
/// articles favorited by the named handle. Absent fields constrain
/// nothing.
pub open spec fn spec_row_matches(
    row: ArticleViewRow,
    p: ListArticlesParams,
    favs_by_handle: Seq<(String, u128)>,
) -> bool {
    (match p.tag {
        Some(t) => contains_text(row.tag_list@, t@),
        None => true,
    }) && (match p.author {
        Some(a) => row.author_username.0@ == a@,
        None => true,
    }) && (match p.favorited_by {
        Some(f) => spec_handle_favorited(favs_by_handle, f@, row.id.0),
        None => true,
    })
}

fn row_matches(
    row: &ArticleViewRow,
    params: &ListArticlesParams,
    favs_by_handle: &Vec<(String, u128)>,
) -> (r: bool)
    ensures
        r == spec_row_matches(*row, *params, favs_by_handle@),
{
    let tag_ok = match &params.tag {
        Some(t) => vec_contains_str(&row.tag_list, t),
        None => true,
    };
    let author_ok = match &params.author {
        Some(a) => row.author_username.value().eq(a),
        None => true,
    };
    let favorited_ok = match &params.favorited_by {
        Some(f) => handle_favorited(favs_by_handle, f, row.id.value()),
        None => true,
    };
    tag_ok && author_ok && favorited_ok
}

/// The indices below `i` of the rows that satisfy the filter set, in row
/// order.
pub open spec fn matching_up_to(
    rows: Seq<ArticleViewRow>,
    p: ListArticlesParams,
    favs_by_handle: Seq<(String, u128)>,
    i: int,
) -> Seq<int>
    decreases i,
{
    if i <= 0 {
        Seq::<int>::empty()
    } else {
        matching_up_to(rows, p, favs_by_handle, i - 1) + (if spec_row_matches(
            rows[i - 1],
            p,
            favs_by_handle,
        ) {
            seq![i - 1]
        } else {
            Seq::<int>::empty()
        })
    }
}

/// What a list query returns on the given rows: the indices of the
/// matching rows in row order, windowed by the resolved offset and limit.
pub open spec fn spec_selected_indices(
    rows: Seq<ArticleViewRow>,
    p: ListArticlesParams,
    favs_by_handle: Seq<(String, u128)>,
) -> Seq<int> {
    let all = matching_up_to(rows, p, favs_by_handle, rows.len() as int);
    let skip = if spec_offset(p) <= all.len() {
        spec_offset(p) as int
    } else {
        all.len() as int
    };
    let end = if skip + spec_limit(p) <= all.len() {
        skip + spec_limit(p) as int
    } else {
        all.len() as int
    };
    all.subrange(skip, end)
}

/// Applies a filter set to rows held in memory, exactly as the compiled
/// list statement selects: every present predicate must hold, row order
/// is kept (rows are given newest first, as the view orders them), and
/// the resolved offset and limit window the matches.
pub fn select_article_indices(
    rows: &Vec<ArticleViewRow>,
    params: &ListArticlesParams,
    favs_by_handle: &Vec<(String, u128)>,
) -> (r: Vec<usize>)
    requires
        spec_limit(*params) >= 0,
        spec_offset(*params) >= 0,
    ensures
        r@.map_values(|u: usize| u as int) == spec_selected_indices(
            rows@,
            *params,
            favs_by_handle@,
        ),
{
    let ghost all = matching_up_to(rows@, *params, favs_by_handle@, rows@.len() as int);
    let limit: i64 = match &params.limit {
        Some(l) => l.0,
        None => 50,
    };
    let offset: i64 = match &params.offset {
        Some(o) => o.0,
        None => 0,
    };
    let mut matches: Vec<usize> = Vec::new();
    let mut i: usize = 0;
    while i < rows.len()
        invariant
            i <= rows@.len(),
            matches@.map_values(|u: usize| u as int) == matching_up_to(
                rows@,
                *params,
                favs_by_handle@,
                i as int,
            ),
            forall|j: int| 0 <= j < matches@.len() ==> matches@[j] < i,
        decreases rows@.len() - i,
    {
        if row_matches(&rows[i], params, favs_by_handle) {
            matches.push(i);
        }
        proof {
            assert(matches@.map_values(|u: usize| u as int) =~= matching_up_to(
                rows@,
                *params,
                favs_by_handle@,
                i + 1,
            ));
        }
        i += 1;
    }
    let mut out: Vec<usize> = Vec::new();
    let mut skipped: i64 = 0;
    let mut taken: i64 = 0;
    let mut j: usize = 0;
    while j < matches.len() && taken < limit
        invariant
            j <= matches@.len(),
            matches@.map_values(|u: usize| u as int) == all,
            0 <= skipped <= offset,
            0 <= taken <= limit,
            skipped == (if j <= offset { j as int } else { offset as int }),
            taken == (if j <= offset { 0int } else { j - offset }),
            out@.map_values(|u: usize| u as int) == all.subrange(
                skipped as int,
                skipped + taken as int,
            ),
        decreases matches@.len() - j,
    {
        let ghost old_skipped = skipped as int;
        let ghost old_taken = taken as int;
        let ghost old_out = out@;
        if skipped < offset {
            skipped = skipped + 1;
            proof {
                assert(old_taken == 0);
                assert(out@.map_values(|u: usize| u as int) =~= all.subrange(
                    skipped as int,
                    skipped + taken as int,
                ));
            }
        } else {
            out.push(matches[j]);
            taken = taken + 1;
            proof {
                assert(j as int == old_skipped + old_taken);
                assert(all[j as int] == matches@[j as int] as int);
                assert(out@ == old_out.push(matches@[j as int]));
                assert(out@.map_values(|u: usize| u as int) =~= old_out.map_values(
                    |u: usize| u as int,
                ).push(all[j as int]));
                assert(out@.map_values(|u: usize| u as int) =~= all.subrange(
                    skipped as int,
                    skipped + taken as int,
                ));
            }
        }
        j += 1;
    }
    proof {
        assert(out@.map_values(|u: usize| u as int) =~= spec_selected_indices(
            rows@,
            *params,
            favs_by_handle@,
        ));
    }
    out
}

} // verus!
