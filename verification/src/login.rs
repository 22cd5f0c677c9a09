//! What the login and logout pages decide: where to send the browser once
//! the backend and the session store have answered.

use vstd::prelude::*;
use vstd::string::StringExecFns;
use crate::auth::{AuthError, User};

verus! {

/// The answer to a login or logout request.
#[derive(Debug, Clone, PartialEq, Eq)]
pub enum Reply {
    /// Send the browser to this address.
    Redirect(String),
    /// Something failed on the server's side.
    InternalError,
}

/// What follows the backend's answer to a login attempt.
#[derive(Debug, PartialEq, Eq)]
pub enum LoginStep {
    /// The credentials were right: open a session for this user.
    Establish(User),
    /// The attempt ends with this reply.
    Finish(Reply),
}

/// The address of the login page, with the page to go on to where one was
/// asked for.
pub open spec fn login_url(next: Option<Seq<char>>) -> Seq<char> {
    match next {
        Some(page) => "/login"@ + "?next="@ + page,
        None => "/login"@,
    }
}

/// The address to go to after a login: the page asked for, or the root.
pub open spec fn landing_url(next: Option<Seq<char>>) -> Seq<char> {
    match next {
        Some(page) => page,
        None => "/"@,
    }
}

/// The view of an optional string.
pub open spec fn next_view(next: Option<String>) -> Option<Seq<char>> {
    match next {
        Some(page) => Some(page@),
        None => None,
    }
}

/// After the backend has answered a login attempt. A known user gets a
/// session. Wrong credentials lead back to the login page, which keeps the
/// page asked for. An error of the backend's is an internal error.
pub fn after_authenticate(outcome: Result<Option<User>, AuthError>, next: &Option<String>) -> (step:
    LoginStep)
    ensures
        match outcome {
            Ok(Some(user)) => step == LoginStep::Establish(user),
            Ok(None) => step matches LoginStep::Finish(Reply::Redirect(to)) && to@ == login_url(
                next_view(*next),
            ),
            Err(_) => step == LoginStep::Finish(Reply::InternalError),
        },
{
    match outcome {
        Ok(Some(user)) => LoginStep::Establish(user),
        Ok(None) => {
            let mut to = String::from_str("/login");
            match next {
                Some(page) => {
                    to.append("?next=");
                    to.append(page.as_str());
                },
                None => {},
            }
            LoginStep::Finish(Reply::Redirect(to))
        },
        Err(_) => LoginStep::Finish(Reply::InternalError),
    }
}

/// After the session store has answered: with a session the browser goes to
/// the page asked for, or to the root; without one the attempt has failed on
/// the server's side.
pub fn after_session(established: bool, next: &Option<String>) -> (reply: Reply)
    ensures
        established ==> (reply matches Reply::Redirect(to) && to@ == landing_url(next_view(*next))),
        !established ==> reply == Reply::InternalError,
{
    if !established {
        return Reply::InternalError;
    }
    match next {
        Some(page) => Reply::Redirect(page.clone()),
        None => Reply::Redirect(String::from_str("/")),
    }
}

/// After a logout: back to the login page, unless the session store failed.
pub fn after_logout(closed: bool) -> (reply: Reply)
    ensures
        closed ==> (reply matches Reply::Redirect(to) && to@ == login_url(None)),
        !closed ==> reply == Reply::InternalError,
{
    if closed {
        Reply::Redirect(String::from_str("/login"))
    } else {
        Reply::InternalError
    }
}

} // verus!
