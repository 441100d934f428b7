//! The HTML pages: served to a signed-in user, otherwise a redirect to where one starts.
use vstd::prelude::*;
use crate::ports::repository::RepoError;

verus! {

/// What a request for a page gets.
#[derive(Debug, PartialEq, Eq, Structural)]
pub enum PageReply {
    /// The page itself.
    Serve,
    /// A redirect to the setup page: the vault has no account yet.
    RedirectToSetup,
    /// A redirect to the login page.
    RedirectToLogin,
}

/// Where a visitor who is not signed in is sent, given the number of accounts: to setup while
/// there is none, else (or when the count failed) to the login page.
pub fn page_for_visitor(count: Result<u64, RepoError>) -> (r: PageReply)
    ensures
        r == (if count matches Ok(n) && n == 0 {
            PageReply::RedirectToSetup
        } else {
            PageReply::RedirectToLogin
        }),
{
    match count {
        Ok(0) => PageReply::RedirectToSetup,
        _ => PageReply::RedirectToLogin,
    }
}

/// The reply to a page request: the page for a signed-in user, else the visitor's redirect
/// (`count` is the number of accounts, asked only for visitors).
pub fn page_reply(signed_in: bool, count: Option<Result<u64, RepoError>>) -> (r: PageReply)
    ensures
        signed_in ==> r == PageReply::Serve,
        !signed_in ==> r == (if count matches Some(Ok(n)) && n == 0 {
            PageReply::RedirectToSetup
        } else {
            PageReply::RedirectToLogin
        }),
{
    if signed_in {
        PageReply::Serve
    } else {
        match count {
            Some(c) => page_for_visitor(c),
            None => PageReply::RedirectToLogin,
        }
    }
}

/// A visitor is never served a page: a signed-out request is redirected, to setup exactly
/// when the vault has no account.
pub proof fn law_visitors_are_redirected(signed_in: bool, count: Option<Result<u64, RepoError>>, r: PageReply)
    requires
        signed_in ==> r == PageReply::Serve,
        !signed_in ==> r == (if count matches Some(Ok(n)) && n == 0 {
            PageReply::RedirectToSetup
        } else {
            PageReply::RedirectToLogin
        }),
    ensures
        r == PageReply::Serve <==> signed_in,
        r == PageReply::RedirectToSetup <==> (!signed_in && (count matches Some(Ok(n)) && n == 0)),
{
}

} // verus!
