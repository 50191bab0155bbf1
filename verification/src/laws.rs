//! The library's laws: what holds of every compiled statement and every
//! view row, stated over the same spec functions the builders' contracts
//! use.

use vstd::prelude::*;
use crate::article_statements::{
    article_cte_binds, article_cte_text, filters_binds, filters_where_text, list_articles_binds,
    list_articles_text, viewer_bind_count,
};
use crate::filters::{filter_count, opt_count, spec_limit, spec_offset, ListArticlesParams};
use crate::statement::{placeholder, BindValue};
use crate::update_params::{
    article_update_fields, set_assignment_binds, update_article_binds, update_user_binds,
    user_update_fields, UpdateArticleParams, UpdateField, UpdateUserParams,
};
use crate::values::{ArticleId, UserId};
use crate::views::{
    matching_up_to, spec_contains_pair, spec_favorited_flag, spec_following_flag,
    spec_selected_indices, ArticleViewRow,
};

verus! {

/// A filter set with no present predicate compiles to no WHERE clause at
/// all — the list text is the view prelude, the bare select, and the
/// pagination tail — and to no predicate bind value: anonymously, the
/// bind list is exactly limit then offset.
pub proof fn lemma_empty_filters_no_where(p: ListArticlesParams)
    requires
        filter_count(p) == 0,
    ensures
        filters_where_text(p, viewer_bind_count(p.user_id)) == Seq::<char>::empty(),
        list_articles_text(p) == article_cte_text(p.user_id is Some)
            + "SELECT * FROM article_view av"@ + " ORDER BY av.created_at DESC LIMIT "@
            + placeholder(viewer_bind_count(p.user_id) + 1) + " OFFSET "@ + placeholder(
            viewer_bind_count(p.user_id) + 2,
        ),
        list_articles_binds(p).len() == viewer_bind_count(p.user_id) + 2,
        p.user_id is None ==> list_articles_binds(p) == seq![
            BindValue::Int(spec_limit(p)),
            BindValue::Int(spec_offset(p)),
        ],
{
    assert(filters_binds(p) =~= Seq::<BindValue>::empty());
    assert(list_articles_text(p) =~= article_cte_text(p.user_id is Some)
        + "SELECT * FROM article_view av"@ + " ORDER BY av.created_at DESC LIMIT "@ + placeholder(
        viewer_bind_count(p.user_id) + 1,
    ) + " OFFSET "@ + placeholder(viewer_bind_count(p.user_id) + 2));
    if p.user_id is None {
        assert(list_articles_binds(p) =~= seq![
            BindValue::Int(spec_limit(p)),
            BindValue::Int(spec_offset(p)),
        ]);
    } else {
        assert(list_articles_binds(p).len() == viewer_bind_count(p.user_id) + 2);
    }
}

/// Each present predicate contributes exactly one bind value, in
/// filter-declaration order: the tag first, the author handle after any
/// tag, the favorited-by handle after both.
pub proof fn lemma_filter_binds_order(p: ListArticlesParams)
    ensures
        filters_binds(p).len() == filter_count(p),
        (match p.tag {
            Some(t) => filters_binds(p)[0] == BindValue::Text(t),
            None => true,
        }),
        (match p.author {
            Some(a) => filters_binds(p)[opt_count(p.tag) as int] == BindValue::Text(a),
            None => true,
        }),
        (match p.favorited_by {
            Some(f) => filters_binds(p)[(opt_count(p.tag) + opt_count(p.author)) as int]
                == BindValue::Text(f),
            None => true,
        }),
{
}

/// The list statement binds, end to end: the viewer identity twice when
/// present, the k present predicate values in declaration order, and the
/// resolved limit and offset as the last two positions — k + 2 values for
/// an anonymous query.
pub proof fn lemma_list_binds_shape(p: ListArticlesParams)
    ensures
        list_articles_binds(p).len() == viewer_bind_count(p.user_id) + filter_count(p) + 2,
        list_articles_binds(p)[list_articles_binds(p).len() - 2] == BindValue::Int(spec_limit(p)),
        list_articles_binds(p).last() == BindValue::Int(spec_offset(p)),
        forall|i: int|
            0 <= i < filter_count(p) ==> list_articles_binds(p)[viewer_bind_count(p.user_id) + i]
                == filters_binds(p)[i],
{
    lemma_filter_binds_order(p);
}

/// A partial update set compiles to nothing exactly when every field is
/// absent: the update compiler returns the empty-update error then, and
/// only then.
pub proof fn lemma_empty_article_update(p: UpdateArticleParams)
    ensures
        article_update_fields(p).len() == 0 <==> (p.slug is None && p.title is None
            && p.description is None && p.body is None),
{
}

/// The user update set likewise compiles to nothing exactly when every
/// field is absent.
pub proof fn lemma_empty_user_update(p: UpdateUserParams)
    ensures
        user_update_fields(p).len() == 0 <==> (p.email is None && p.username is None
            && p.password_hash is None && p.bio is None && p.image is None),
{
}

/// The assignments bind one value per present field, in assignment order.
pub proof fn lemma_set_assignment_binds_index(fields: Seq<UpdateField>, i: int)
    requires
        0 <= i <= fields.len(),
    ensures
        set_assignment_binds(fields, i).len() == fields.len() - i,
        forall|k: int|
            i <= k < fields.len() ==> set_assignment_binds(fields, i)[k - i] == BindValue::Text(
                fields[k].1,
            ),
    decreases fields.len() - i,
{
    if i < fields.len() {
        lemma_set_assignment_binds_index(fields, i + 1);
    }
}

/// An article update with k present fields binds k + 1 values: the k
/// field values in assignment order, then the article id at the last
/// position.
pub proof fn lemma_article_update_shape(p: UpdateArticleParams)
    ensures
        update_article_binds(p).len() == article_update_fields(p).len() + 1,
        update_article_binds(p).last() == BindValue::Id(p.article_id.0),
        forall|i: int|
            0 <= i < article_update_fields(p).len() ==> update_article_binds(p)[i]
                == BindValue::Text(article_update_fields(p)[i].1),
{
    lemma_set_assignment_binds_index(article_update_fields(p), 0);
}

/// A user update with k present fields binds k + 1 values: the k field
/// values in assignment order, then the user id at the last position.
pub proof fn lemma_user_update_shape(p: UpdateUserParams)
    ensures
        update_user_binds(p).len() == user_update_fields(p).len() + 1,
        update_user_binds(p).last() == BindValue::Id(p.user_id.0),
        forall|i: int|
            0 <= i < user_update_fields(p).len() ==> update_user_binds(p)[i] == BindValue::Text(
                user_update_fields(p)[i].1,
            ),
{
    lemma_set_assignment_binds_index(user_update_fields(p), 0);
}

/// An anonymous view never surfaces a stored relationship: with no viewer
/// identity both booleans are false whatever facts are stored, and the
/// view prelude binds nothing.
pub proof fn lemma_anonymous_view_flags(
    author: UserId,
    article: ArticleId,
    follows: Seq<(u128, u128)>,
    favorites: Seq<(u128, u128)>,
)
    ensures
        !spec_following_flag(None, author, follows),
        !spec_favorited_flag(None, article, favorites),
        article_cte_binds(None).len() == 0,
        crate::comment_statements::comment_cte_binds(None).len() == 0,
{
}

/// The indices of the matching rows are within range and strictly
/// increasing: selection keeps row order.
pub proof fn lemma_matching_indices_increasing(
    rows: Seq<ArticleViewRow>,
    p: ListArticlesParams,
    favs_by_handle: Seq<(String, u128)>,
    i: int,
)
    requires
        0 <= i <= rows.len(),
    ensures
        forall|a: int|
            0 <= a < matching_up_to(rows, p, favs_by_handle, i).len() ==> 0 <= #[trigger] matching_up_to(
                rows,
                p,
                favs_by_handle,
                i,
            )[a] < i,
        forall|a: int, b: int|
            #![trigger matching_up_to(rows, p, favs_by_handle, i)[a], matching_up_to(rows, p, favs_by_handle, i)[b]]
            0 <= a < b < matching_up_to(rows, p, favs_by_handle, i).len() ==> matching_up_to(
                rows,
                p,
                favs_by_handle,
                i,
            )[a] < matching_up_to(rows, p, favs_by_handle, i)[b],
    decreases i,
{
    if i > 0 {
        lemma_matching_indices_increasing(rows, p, favs_by_handle, i - 1);
        let prev = matching_up_to(rows, p, favs_by_handle, i - 1);
        let cur = matching_up_to(rows, p, favs_by_handle, i);
        assert forall|a: int| 0 <= a < cur.len() implies 0 <= #[trigger] cur[a] < i by {
            if a < prev.len() {
                assert(cur[a] == prev[a]);
            } else {
                assert(cur[a] == i - 1);
            }
        }
        assert forall|a: int, b: int|
            #![trigger cur[a], cur[b]]
            0 <= a < b < cur.len() implies cur[a] < cur[b] by {
            if b < prev.len() {
                assert(cur[a] == prev[a] && cur[b] == prev[b]);
            } else {
                assert(cur[b] == i - 1);
                assert(a < prev.len());
                assert(cur[a] == prev[a]);
                assert(prev[a] < i - 1);
            }
        }
    }
}

/// What a list query selects keeps row order: since the view presents
/// rows newest first, so does every windowed result.
pub proof fn lemma_selection_keeps_row_order(
    rows: Seq<ArticleViewRow>,
    p: ListArticlesParams,
    favs_by_handle: Seq<(String, u128)>,
)
    requires
        spec_limit(p) >= 0,
        spec_offset(p) >= 0,
    ensures
        forall|a: int|
            0 <= a < spec_selected_indices(rows, p, favs_by_handle).len() ==> 0
                <= #[trigger] spec_selected_indices(rows, p, favs_by_handle)[a] < rows.len(),
        forall|a: int, b: int|
            #![trigger spec_selected_indices(rows, p, favs_by_handle)[a], spec_selected_indices(rows, p, favs_by_handle)[b]]
            0 <= a < b < spec_selected_indices(rows, p, favs_by_handle).len()
                ==> spec_selected_indices(rows, p, favs_by_handle)[a] < spec_selected_indices(
                rows,
                p,
                favs_by_handle,
            )[b],
{
    lemma_matching_indices_increasing(rows, p, favs_by_handle, rows.len() as int);
    let all = matching_up_to(rows, p, favs_by_handle, rows.len() as int);
    let sel = spec_selected_indices(rows, p, favs_by_handle);
    let skip = if spec_offset(p) <= all.len() {
        spec_offset(p) as int
    } else {
        all.len() as int
    };
    let end = if skip + spec_limit(p) <= all.len() {
        skip + spec_limit(p) as int
    } else {
        all.len() as int
    };
    assert(sel == all.subrange(skip, end));
    assert forall|a: int| 0 <= a < sel.len() implies 0 <= #[trigger] sel[a] < rows.len() by {
        assert(sel[a] == all[skip + a]);
    }
    assert forall|a: int, b: int|
        #![trigger sel[a], sel[b]]
        0 <= a < b < sel.len() implies sel[a] < sel[b] by {
        assert(sel[a] == all[skip + a]);
        assert(sel[b] == all[skip + b]);
    }
}

/// Round trip of the viewer-relative booleans: a viewer who follows the
/// author and favorited the article sees both flags true; with either
/// relationship absent, that flag is false.
pub proof fn lemma_viewer_flags_round_trip(
    viewer: UserId,
    author: UserId,
    article: ArticleId,
    follows: Seq<(u128, u128)>,
    favorites: Seq<(u128, u128)>,
)
    ensures
        spec_following_flag(Some(viewer), author, follows) == spec_contains_pair(
            follows,
            viewer.0,
            author.0,
        ),
        spec_favorited_flag(Some(viewer), article, favorites) == spec_contains_pair(
            favorites,
            viewer.0,
            article.0,
        ),
{
}

} // verus!
