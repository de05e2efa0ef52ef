//! The request each endpoint issues, computed before any network traffic.
//!
//! Every endpoint function of the shell first asks this module for a
//! [`RequestPlan`] and only then hands it to the transport. An endpoint
//! that requires authentication therefore fails with
//! [`RoboatError::MissingAuthentication`] here, before a single network
//! call is made, whenever the session holds no token.

use vstd::prelude::*;

use crate::error::RoboatError;
use crate::friends::{friend_requests_url, friends_list_url, pending_friend_requests_url};
use crate::friends::spec_friends_list_url;
use crate::session::{spec_cookie_string, spec_cookie_view, Session};
use crate::users::{
    authenticated_user_url, spec_user_details_url, spec_user_presence_body, spec_user_search_url,
    spec_username_users_body, user_details_url, user_presence_request_body, user_presence_url,
    user_search_url, username_users_request_body, username_users_url,
};

verus! {

/// The HTTP verb of a planned request.
#[derive(Clone, Copy, Debug, PartialEq, Eq, Structural)]
pub enum HttpMethod {
    Get,
    Post,
}

/// One fully determined HTTP request: verb, URL, the cookie header to
/// attach (`None` means no cookie header at all), and the JSON body for
/// POST endpoints.
#[derive(Clone, Debug, PartialEq, Eq)]
pub struct RequestPlan {
    pub method: HttpMethod,
    pub url: String,
    pub cookie: Option<String>,
    pub body: Option<String>,
}

/// Plans the friends-list request: unauthenticated GET, no cookie header.
pub fn friends_list_request(user_id: u64) -> (r: RequestPlan)
    ensures
        r.method == HttpMethod::Get,
        r.url@ == spec_friends_list_url(user_id),
        r.cookie is None,
        r.body is None,
{
    RequestPlan {
        method: HttpMethod::Get,
        url: friends_list_url(user_id),
        cookie: None,
        body: None,
    }
}

/// Plans the friend-requests request. Requires authentication: with no
/// token the plan is refused with [`RoboatError::MissingAuthentication`]
/// and nothing is sent.
pub fn friend_requests_request(session: &Session) -> (r: Result<RequestPlan, RoboatError>)
    ensures
        session.roblosecurity is None ==> r == Err::<RequestPlan, RoboatError>(
            RoboatError::MissingAuthentication,
        ),
        session.roblosecurity matches Some(token) ==> (r matches Ok(p) && p.method
            == HttpMethod::Get && p.url@
            == "https://friends.roblox.com/v1/my/friends/requests?limit=10"@ && spec_cookie_view(
            p.cookie,
        ) == Some(spec_cookie_string(token@)) && p.body is None),
{
    let cookie = session.cookie_string()?;
    Ok(
        RequestPlan {
            method: HttpMethod::Get,
            url: friend_requests_url(),
            cookie: Some(cookie),
            body: None,
        },
    )
}

/// Plans the pending friend-request count request. Requires
/// authentication, refused before any network call without a token.
pub fn pending_friend_requests_request(session: &Session) -> (r: Result<RequestPlan, RoboatError>)
    ensures
        session.roblosecurity is None ==> r == Err::<RequestPlan, RoboatError>(
            RoboatError::MissingAuthentication,
        ),
        session.roblosecurity matches Some(token) ==> (r matches Ok(p) && p.method
            == HttpMethod::Get && p.url@
            == "https://friends.roblox.com/v1/user/friend-requests/count"@ && spec_cookie_view(
            p.cookie,
        ) == Some(spec_cookie_string(token@)) && p.body is None),
{
    let cookie = session.cookie_string()?;
    Ok(
        RequestPlan {
            method: HttpMethod::Get,
            url: pending_friend_requests_url(),
            cookie: Some(cookie),
            body: None,
        },
    )
}

/// Plans the authenticated-identity request. Requires authentication,
/// refused before any network call without a token.
pub fn authenticated_user_request(session: &Session) -> (r: Result<RequestPlan, RoboatError>)
    ensures
        session.roblosecurity is None ==> r == Err::<RequestPlan, RoboatError>(
            RoboatError::MissingAuthentication,
        ),
        session.roblosecurity matches Some(token) ==> (r matches Ok(p) && p.method
            == HttpMethod::Get && p.url@ == "https://users.roblox.com/v1/users/authenticated"@
            && spec_cookie_view(p.cookie) == Some(spec_cookie_string(token@)) && p.body is None),
{
    let cookie = session.cookie_string()?;
    Ok(
        RequestPlan {
            method: HttpMethod::Get,
            url: authenticated_user_url(),
            cookie: Some(cookie),
            body: None,
        },
    )
}

/// Plans the user-search request. Authentication is optional: the cookie
/// header is always sent, with the real cookie when a token is present and
/// empty otherwise (anonymous calls face a much lower rate limit).
pub fn user_search_request(session: &Session, keyword: &str) -> (r: RequestPlan)
    ensures
        r.method == HttpMethod::Get,
        r.url@ == spec_user_search_url(keyword@),
        session.roblosecurity matches Some(token) ==> (r.cookie matches Some(c) && c@
            == spec_cookie_string(token@)),
        session.roblosecurity is None ==> (r.cookie matches Some(c) && c@ == Seq::<char>::empty()),
        r.body is None,
{
    RequestPlan {
        method: HttpMethod::Get,
        url: user_search_url(keyword),
        cookie: Some(session.cookie_string_or_empty()),
        body: None,
    }
}

/// Plans the user-presence batch request. Authentication is optional, as
/// in [`user_search_request`]; the body carries the requested ids.
pub fn user_presence_request(session: &Session, user_ids: &Vec<u64>) -> (r: RequestPlan)
    ensures
        r.method == HttpMethod::Post,
        r.url@ == "https://presence.roblox.com/v1/presence/users"@,
        session.roblosecurity matches Some(token) ==> (r.cookie matches Some(c) && c@
            == spec_cookie_string(token@)),
        session.roblosecurity is None ==> (r.cookie matches Some(c) && c@ == Seq::<char>::empty()),
        r.body matches Some(b) && b@ == spec_user_presence_body(user_ids@),
{
    RequestPlan {
        method: HttpMethod::Post,
        url: user_presence_url(),
        cookie: Some(session.cookie_string_or_empty()),
        body: Some(user_presence_request_body(user_ids)),
    }
}

/// Plans the user-details request: unauthenticated GET.
pub fn user_details_request(user_id: u64) -> (r: RequestPlan)
    ensures
        r.method == HttpMethod::Get,
        r.url@ == spec_user_details_url(user_id),
        r.cookie is None,
        r.body is None,
{
    RequestPlan {
        method: HttpMethod::Get,
        url: user_details_url(user_id),
        cookie: None,
        body: None,
    }
}

/// Plans the username-details batch request: unauthenticated POST whose
/// body carries the usernames and the exclude-banned flag.
pub fn username_users_request(usernames: &Vec<String>, exclude_banned_users: bool) -> (r:
    RequestPlan)
    ensures
        r.method == HttpMethod::Post,
        r.url@ == "https://users.roblox.com/v1/usernames/users"@,
        r.cookie is None,
        r.body matches Some(b) && b@ == spec_username_users_body(
            usernames.deep_view(),
            exclude_banned_users,
        ),
{
    RequestPlan {
        method: HttpMethod::Post,
        url: username_users_url(),
        cookie: None,
        body: Some(username_users_request_body(usernames, exclude_banned_users)),
    }
}

} // verus!
