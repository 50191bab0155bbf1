//! Statement builders for the follow relationship.

use vstd::prelude::*;
use crate::statement::{placeholder, BindValue, Statement};
use crate::values::UserId;

verus! {

/// Builds the idempotent insert of a follow relationship.
pub fn follow_user_statement(follower_id: UserId, followee_id: UserId) -> (r: Statement)
    ensures
        r.text@ == "INSERT INTO user_follows (follower_id, followee_id) VALUES ("@ + placeholder(1)
            + ", "@ + placeholder(2) + ") ON CONFLICT (follower_id, followee_id) DO NOTHING"@,
        r.binds@ == seq![BindValue::Id(follower_id.0), BindValue::Id(followee_id.0)],
{
    let mut st = Statement::new();
    st.push("INSERT INTO user_follows (follower_id, followee_id) VALUES (");
    st.push_bind(BindValue::Id(follower_id.value()));
    st.push(", ");
    st.push_bind(BindValue::Id(followee_id.value()));
    st.push(") ON CONFLICT (follower_id, followee_id) DO NOTHING");
    proof {
        assert(st.text@ =~= "INSERT INTO user_follows (follower_id, followee_id) VALUES ("@
            + placeholder(1) + ", "@ + placeholder(2)
            + ") ON CONFLICT (follower_id, followee_id) DO NOTHING"@);
        assert(st.binds@ =~= seq![BindValue::Id(follower_id.0), BindValue::Id(followee_id.0)]);
    }
    st
}

/// Builds the delete of a follow relationship.
pub fn unfollow_user_statement(follower_id: UserId, followee_id: UserId) -> (r: Statement)
    ensures
        r.text@ == "DELETE FROM user_follows WHERE follower_id = "@ + placeholder(1)
            + " AND followee_id = "@ + placeholder(2),
        r.binds@ == seq![BindValue::Id(follower_id.0), BindValue::Id(followee_id.0)],
{
    let mut st = Statement::new();
    st.push("DELETE FROM user_follows WHERE follower_id = ");
    st.push_bind(BindValue::Id(follower_id.value()));
    st.push(" AND followee_id = ");
    st.push_bind(BindValue::Id(followee_id.value()));
    proof {
        assert(st.text@ =~= "DELETE FROM user_follows WHERE follower_id = "@ + placeholder(1)
            + " AND followee_id = "@ + placeholder(2));
        assert(st.binds@ =~= seq![BindValue::Id(follower_id.0), BindValue::Id(followee_id.0)]);
    }
    st
}

/// Builds the existence test of a follow relationship.
pub fn is_following_statement(follower_id: UserId, followee_id: UserId) -> (r: Statement)
    ensures
        r.text@ == "SELECT EXISTS(SELECT 1 FROM user_follows WHERE follower_id = "@
            + placeholder(1) + " AND followee_id = "@ + placeholder(2) + ") AS is_following"@,
        r.binds@ == seq![BindValue::Id(follower_id.0), BindValue::Id(followee_id.0)],
{
    let mut st = Statement::new();
    st.push("SELECT EXISTS(SELECT 1 FROM user_follows WHERE follower_id = ");
    st.push_bind(BindValue::Id(follower_id.value()));
    st.push(" AND followee_id = ");
    st.push_bind(BindValue::Id(followee_id.value()));
    st.push(") AS is_following");
    proof {
        assert(st.text@ =~= "SELECT EXISTS(SELECT 1 FROM user_follows WHERE follower_id = "@
            + placeholder(1) + " AND followee_id = "@ + placeholder(2) + ") AS is_following"@);
        assert(st.binds@ =~= seq![BindValue::Id(follower_id.0), BindValue::Id(followee_id.0)]);
    }
    st
}

} // verus!
