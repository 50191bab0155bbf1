//! Statement builders for tag rows.

use vstd::prelude::*;
use crate::statement::{placeholder, BindValue, Statement};

verus! {

/// Builds the insert of a fresh tag row.
pub fn insert_tag_statement(name: String) -> (r: Statement)
    ensures
        r.text@ == "INSERT INTO tags (name) VALUES ("@ + placeholder(1)
            + ") RETURNING id, name, created_at"@,
        r.binds@ == seq![BindValue::Text(name)],
{
    let mut st = Statement::new();
    st.push("INSERT INTO tags (name) VALUES (");
    st.push_bind(BindValue::Text(name));
    st.push(") RETURNING id, name, created_at");
    proof {
        assert(st.text@ =~= "INSERT INTO tags (name) VALUES ("@ + placeholder(1)
            + ") RETURNING id, name, created_at"@);
        assert(st.binds@ =~= seq![BindValue::Text(name)]);
    }
    st
}

/// Builds the point lookup of a tag row by its name.
pub fn get_tag_by_name_statement(name: String) -> (r: Statement)
    ensures
        r.text@ == "SELECT id, name, created_at FROM tags WHERE name = "@ + placeholder(1),
        r.binds@ == seq![BindValue::Text(name)],
{
    let mut st = Statement::new();
    st.push("SELECT id, name, created_at FROM tags WHERE name = ");
    st.push_bind(BindValue::Text(name));
    proof {
        assert(st.text@ =~= "SELECT id, name, created_at FROM tags WHERE name = "@
            + placeholder(1));
        assert(st.binds@ =~= seq![BindValue::Text(name)]);
    }
    st
}

/// Builds the list of every tag name, ordered by name.
pub fn get_all_tags_statement() -> (r: Statement)
    ensures
        r.text@ == "SELECT name FROM tags ORDER BY name"@,
        r.binds@ == Seq::<BindValue>::empty(),
{
    let mut st = Statement::new();
    st.push("SELECT name FROM tags ORDER BY name");
    proof {
        assert(st.text@ =~= "SELECT name FROM tags ORDER BY name"@);
    }
    st
}

} // verus!
