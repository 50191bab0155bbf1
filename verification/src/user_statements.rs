//! Statement builders for user rows.
//!
//! The sparse user update lives with the other update compilation in
//! `update_params`; here are the insert and the indexed point lookup.

use vstd::prelude::*;
use crate::fields::{spec_user_field_name, IndexedUserField};
use crate::statement::{placeholder, BindValue, Statement};

verus! {

/// The columns of a fresh user row.
#[derive(Debug)]
pub struct InsertUserParams {
    pub email: String,
    pub username: String,
    pub password_hash: String,
}

/// Builds the insert of a fresh user row.
pub fn insert_user_statement(params: InsertUserParams) -> (r: Statement)
    ensures
        r.text@ == "INSERT INTO users (email, username, password_hash) VALUES ("@ + placeholder(1)
            + ", "@ + placeholder(2) + ", "@ + placeholder(3)
            + ") RETURNING id, email, username, password_hash, bio, image"@,
        r.binds@ == seq![
            BindValue::Text(params.email),
            BindValue::Text(params.username),
            BindValue::Text(params.password_hash),
        ],
{
    let InsertUserParams { email, username, password_hash } = params;
    let mut st = Statement::new();
    st.push("INSERT INTO users (email, username, password_hash) VALUES (");
    st.push_bind(BindValue::Text(email));
    st.push(", ");
    st.push_bind(BindValue::Text(username));
    st.push(", ");
    st.push_bind(BindValue::Text(password_hash));
    st.push(") RETURNING id, email, username, password_hash, bio, image");
    proof {
        assert(st.text@ =~= "INSERT INTO users (email, username, password_hash) VALUES ("@
            + placeholder(1) + ", "@ + placeholder(2) + ", "@ + placeholder(3)
            + ") RETURNING id, email, username, password_hash, bio, image"@);
        assert(st.binds@ =~= seq![
            BindValue::Text(params.email),
            BindValue::Text(params.username),
            BindValue::Text(params.password_hash),
        ]);
    }
    st
}

/// Builds the point lookup of a user row by an indexed column.
pub fn get_user_by_statement(field: IndexedUserField, value: BindValue) -> (r: Statement)
    ensures
        r.text@ == "SELECT id, email, username, password_hash, bio, image FROM users WHERE "@
            + spec_user_field_name(field) + " = "@ + placeholder(1),
        r.binds@ == seq![value],
{
    let mut st = Statement::new();
    st.push("SELECT id, email, username, password_hash, bio, image FROM users WHERE ");
    st.push(field.to_field_name());
    st.push(" = ");
    st.push_bind(value);
    proof {
        assert(st.text@ =~= "SELECT id, email, username, password_hash, bio, image FROM users WHERE "@
            + spec_user_field_name(field) + " = "@ + placeholder(1));
        assert(st.binds@ =~= seq![value]);
    }
    st
}

} // verus!
