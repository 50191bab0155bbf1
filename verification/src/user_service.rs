//! The decisions of the user service.
//!
//! The service itself orchestrates storage lookups and the password
//! hasher at the process edge; what it decides from their answers is
//! here, as functions from plain answers to the action taken.

use vstd::prelude::*;
use vstd::string::StringExecFns;
use crate::app_error::AppError;
use crate::values::Username;

verus! {

/// Decides a registration from the two uniqueness lookups: a taken
/// username is refused first, then a registered email; only when both are
/// free may the insert proceed.
pub fn register_decision(
    username_taken: bool,
    email_taken: bool,
    username: &Username,
    email: &String,
) -> (r: Result<(), AppError>)
    ensures
        r is Ok <==> (!username_taken && !email_taken),
        username_taken ==> (r matches Err(AppError::DataConflict(m)) && m@ == "Username '"@
            + username.0@ + "' is already taken"@),
        (!username_taken && email_taken) ==> (r matches Err(AppError::DataConflict(m)) && m@
            == "Email '"@ + email@ + "' is already registered"@),
{
    if username_taken {
        let mut m = String::from_str("Username '");
        m.append(username.value().as_str());
        m.append("' is already taken");
        Err(AppError::DataConflict(m))
    } else if email_taken {
        let mut m = String::from_str("Email '");
        m.append(email.as_str());
        m.append("' is already registered");
        Err(AppError::DataConflict(m))
    } else {
        Ok(())
    }
}

/// Decides a login from the storage and credential answers: the user must
/// exist and the password must verify; everything else is the same
/// unauthorized refusal, never a hint at which part failed.
pub fn login_decision(user_found: bool, password_ok: bool) -> (r: Result<(), AppError>)
    ensures
        r is Ok <==> (user_found && password_ok),
        r is Err ==> r matches Err(AppError::Unauthorized),
{
    if user_found && password_ok {
        Ok(())
    } else {
        Err(AppError::Unauthorized)
    }
}

} // verus!
