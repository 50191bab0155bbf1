//! Partial update sets and the update compiler.
//!
//! A partial update set names, per mutable entity, which columns change
//! and to what value; every field is independently optional. The compiler
//! enumerates the present fields in their fixed declared order, appends
//! one `column = $n` assignment per present field, and binds the entity id
//! at the final position — one placeholder counter shared across the SET
//! list and the trailing WHERE bind. An empty set is a contract violation,
//! rejected before anything could reach storage.

use vstd::prelude::*;
use vstd::string::StringExecFns;
use crate::statement::{placeholder, BindValue, Statement};
use crate::values::{ArticleId, UserId};

verus! {

/// Raised when a partial update set has no present field: there is
/// nothing to set, and the statement is never built.
#[derive(Debug, Clone, Copy, PartialEq, Eq, Structural)]
pub struct EmptyUpdateError;

impl EmptyUpdateError {
    /// The client-facing description of the violation.
    pub fn message(&self) -> (r: String)
        ensures
            r@ == "No fields to update"@,
    {
        String::from_str("No fields to update")
    }

    /// Surfaces the violation as the client-input error the callers
    /// report.
    pub fn to_app_error(&self) -> (r: crate::app_error::AppError)
        ensures
            r matches crate::app_error::AppError::BadData(m) && m@ == "No fields to update"@,
    {
        crate::app_error::AppError::BadData(self.message())
    }
}

/// The columns an article update may change.
#[derive(Debug)]
pub struct UpdateArticleParams {
    pub article_id: ArticleId,
    pub slug: Option<String>,
    pub title: Option<String>,
    pub description: Option<String>,
    pub body: Option<String>,
}

/// The columns a user update may change.
#[derive(Debug)]
pub struct UpdateUserParams {
    pub user_id: UserId,
    pub email: Option<String>,
    pub username: Option<String>,
    pub password_hash: Option<String>,
    pub bio: Option<String>,
    pub image: Option<String>,
}

/// One present field of a partial update set: the column name and the
/// value to bind.
pub type UpdateField = (Seq<char>, String);

/// Wraps a present field as a one-element sequence, an absent one as the
/// empty sequence.
pub open spec fn opt_field(name: Seq<char>, v: Option<String>) -> Seq<UpdateField> {
    match v {
        Some(s) => seq![(name, s)],
        None => Seq::<UpdateField>::empty(),
    }
}

/// The present fields of an article update, in the fixed declared column
/// order: slug, title, description, body.
pub open spec fn article_update_fields(p: UpdateArticleParams) -> Seq<UpdateField> {
    opt_field("slug"@, p.slug) + opt_field("title"@, p.title)
        + opt_field("description"@, p.description) + opt_field("body"@, p.body)
}

/// The present fields of a user update, in the fixed declared column
/// order: email, username, password_hash, bio, image.
pub open spec fn user_update_fields(p: UpdateUserParams) -> Seq<UpdateField> {
    opt_field("email"@, p.email) + opt_field("username"@, p.username)
        + opt_field("password_hash"@, p.password_hash) + opt_field("bio"@, p.bio)
        + opt_field("image"@, p.image)
}

impl UpdateArticleParams {
    /// The present fields as `(column name, value)` pairs, in the fixed
    /// declared column order.
    pub fn as_list(&self) -> (r: Vec<(String, String)>)
        ensures
            r@.len() == article_update_fields(*self).len(),
            forall|i: int|
                0 <= i < r@.len() ==> r@[i].0@ == article_update_fields(*self)[i].0
                    && r@[i].1 == article_update_fields(*self)[i].1,
    {
        let mut fields: Vec<(String, String)> = Vec::new();
        if let Some(slug) = &self.slug {
            fields.push((String::from_str("slug"), slug.clone()));
        }
        if let Some(title) = &self.title {
            fields.push((String::from_str("title"), title.clone()));
        }
        if let Some(description) = &self.description {
            fields.push((String::from_str("description"), description.clone()));
        }
        if let Some(body) = &self.body {
            fields.push((String::from_str("body"), body.clone()));
        }
        fields
    }
}

impl UpdateUserParams {
    /// The present fields as `(column name, value)` pairs, in the fixed
    /// declared column order.
    pub fn as_list(&self) -> (r: Vec<(String, String)>)
        ensures
            r@.len() == user_update_fields(*self).len(),
            forall|i: int|
                0 <= i < r@.len() ==> r@[i].0@ == user_update_fields(*self)[i].0
                    && r@[i].1 == user_update_fields(*self)[i].1,
    {
        let mut fields: Vec<(String, String)> = Vec::new();
        if let Some(email) = &self.email {
            fields.push((String::from_str("email"), email.clone()));
        }
        if let Some(username) = &self.username {
            fields.push((String::from_str("username"), username.clone()));
        }
        if let Some(password_hash) = &self.password_hash {
            fields.push((String::from_str("password_hash"), password_hash.clone()));
        }
        if let Some(bio) = &self.bio {
            fields.push((String::from_str("bio"), bio.clone()));
        }
        if let Some(image) = &self.image {
            fields.push((String::from_str("image"), image.clone()));
        }
        fields
    }
}

/// The SET-clause assignments from field `i` on: `name = $i+1`, separated
/// by commas, one per present field.
pub open spec fn set_assignments_text(fields: Seq<UpdateField>, i: int) -> Seq<char>
    decreases fields.len() - i,
{
    if i < 0 || i >= fields.len() {
        Seq::<char>::empty()
    } else {
        (if i > 0 {
            ", "@
        } else {
            Seq::<char>::empty()
        }) + fields[i].0 + " = "@ + placeholder((i + 1) as nat) + set_assignments_text(
            fields,
            i + 1,
        )
    }
}

/// The bind values from field `i` on, one per assignment, in assignment
/// order.
pub open spec fn set_assignment_binds(fields: Seq<UpdateField>, i: int) -> Seq<BindValue>
    decreases fields.len() - i,
{
    if i < 0 || i >= fields.len() {
        Seq::<BindValue>::empty()
    } else {
        seq![BindValue::Text(fields[i].1)] + set_assignment_binds(fields, i + 1)
    }
}

/// The assignments from field `i` on contribute one bind value each.
pub proof fn lemma_set_assignment_binds_len(fields: Seq<UpdateField>, i: int)
    requires
        0 <= i <= fields.len(),
    ensures
        set_assignment_binds(fields, i).len() == fields.len() - i,
    decreases fields.len() - i,
{
    if i < fields.len() {
        lemma_set_assignment_binds_len(fields, i + 1);
    }
}

/// Appends the assignments of `list[i..]` and their bind values; the
/// placeholder counter continues from the bind values already in `st`.
fn push_assignments(
    st: &mut Statement,
    list: &Vec<(String, String)>,
    i: usize,
    fields: Ghost<Seq<UpdateField>>,
)
    requires
        fields@.len() == list@.len(),
        forall|j: int|
            0 <= j < list@.len() ==> list@[j].0@ == fields@[j].0 && list@[j].1 == fields@[j].1,
        i <= list@.len(),
        old(st).binds@.len() == i,
        list@.len() < usize::MAX - 1,
    ensures
        final(st).text@ == old(st).text@ + set_assignments_text(fields@, i as int),
        final(st).binds@ == old(st).binds@ + set_assignment_binds(fields@, i as int),
    decreases list@.len() - i,
{
    if i < list.len() {
        if i > 0 {
            st.push(", ");
        }
        let pair: &(String, String) = &list[i];
        st.push(pair.0.as_str());
        st.push(" = ");
        st.push_bind(BindValue::Text(pair.1.clone()));
        push_assignments(st, list, i + 1, Ghost(fields@));
    }
    proof {
        assert(st.text@ =~= old(st).text@ + set_assignments_text(fields@, i as int));
        assert(st.binds@ =~= old(st).binds@ + set_assignment_binds(fields@, i as int));
    }
}

/// The text of an article update statement with present fields `fields`.
pub open spec fn update_article_text(p: UpdateArticleParams) -> Seq<char> {
    let fields = article_update_fields(p);
    "UPDATE articles SET updated_at = NOW(), "@ + set_assignments_text(fields, 0)
        + " WHERE id = "@ + placeholder(fields.len() + 1)
        + " RETURNING id, slug, title, description, body, author_id, created_at, updated_at"@
}

/// The bind values of an article update statement: the present fields'
/// values in assignment order, then the article id at the last position.
pub open spec fn update_article_binds(p: UpdateArticleParams) -> Seq<BindValue> {
    set_assignment_binds(article_update_fields(p), 0) + seq![BindValue::Id(p.article_id.0)]
}

/// Compiles an article update set, or rejects an empty one before any
/// statement exists.
pub fn update_article_statement(params: &UpdateArticleParams) -> (r: Result<
    Statement,
    EmptyUpdateError,
>)
    ensures
        r is Err <==> article_update_fields(*params).len() == 0,
        r matches Ok(st) ==> st.text@ == update_article_text(*params) && st.binds@
            == update_article_binds(*params),
{
    let updates = params.as_list();
    proof {
        assert(article_update_fields(*params).len() <= 4);
    }
    if updates.is_empty() {
        return Err(EmptyUpdateError);
    }
    let mut st = Statement::new();
    st.push("UPDATE articles SET updated_at = NOW(), ");
    push_assignments(&mut st, &updates, 0, Ghost(article_update_fields(*params)));
    proof {
        lemma_set_assignment_binds_len(article_update_fields(*params), 0);
    }
    st.push(" WHERE id = ");
    st.push_bind(BindValue::Id(params.article_id.value()));
    st.push(" RETURNING id, slug, title, description, body, author_id, created_at, updated_at");
    proof {
        assert(st.text@ =~= update_article_text(*params));
        assert(st.binds@ =~= update_article_binds(*params));
    }
    Ok(st)
}

/// The text of a user update statement with present fields `fields`.
pub open spec fn update_user_text(p: UpdateUserParams) -> Seq<char> {
    let fields = user_update_fields(p);
    "UPDATE users SET "@ + set_assignments_text(fields, 0) + " WHERE id = "@ + placeholder(
        fields.len() + 1,
    ) + " RETURNING id, email, username, password_hash, bio, image"@
}

/// The bind values of a user update statement: the present fields' values
/// in assignment order, then the user id at the last position.
pub open spec fn update_user_binds(p: UpdateUserParams) -> Seq<BindValue> {
    set_assignment_binds(user_update_fields(p), 0) + seq![BindValue::Id(p.user_id.0)]
}

/// Compiles a user update set, or rejects an empty one before any
/// statement exists.
pub fn update_user_statement(params: &UpdateUserParams) -> (r: Result<Statement, EmptyUpdateError>)
    ensures
        r is Err <==> user_update_fields(*params).len() == 0,
        r matches Ok(st) ==> st.text@ == update_user_text(*params) && st.binds@
            == update_user_binds(*params),
{
    let updates = params.as_list();
    proof {
        assert(user_update_fields(*params).len() <= 5);
    }
    if updates.is_empty() {
        return Err(EmptyUpdateError);
    }
    let mut st = Statement::new();
    st.push("UPDATE users SET ");
    push_assignments(&mut st, &updates, 0, Ghost(user_update_fields(*params)));
    proof {
        lemma_set_assignment_binds_len(user_update_fields(*params), 0);
    }
    st.push(" WHERE id = ");
    st.push_bind(BindValue::Id(params.user_id.value()));
    st.push(" RETURNING id, email, username, password_hash, bio, image");
    proof {
        assert(st.text@ =~= update_user_text(*params));
        assert(st.binds@ =~= update_user_binds(*params));
    }
    Ok(st)
}

} // verus!
