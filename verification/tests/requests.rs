use roboat::requests::{
    authenticated_user_request, friend_requests_request, friends_list_request,
    pending_friend_requests_request, user_details_request, user_presence_request,
    user_search_request, username_users_request, HttpMethod,
};
use roboat::session::Session;
use roboat::RoboatError;

#[test]
fn friend_requests_without_token_fails_before_any_network_call() {
    let session = Session::new(None);
    assert_eq!(friend_requests_request(&session), Err(RoboatError::MissingAuthentication));
}

#[test]
fn pending_count_without_token_fails_before_any_network_call() {
    let session = Session::new(None);
    assert_eq!(
        pending_friend_requests_request(&session),
        Err(RoboatError::MissingAuthentication)
    );
}

#[test]
fn authenticated_identity_without_token_fails_before_any_network_call() {
    let session = Session::new(None);
    assert_eq!(authenticated_user_request(&session), Err(RoboatError::MissingAuthentication));
}

#[test]
fn friend_requests_plan_with_token() {
    let session = Session::new(Some("t".to_string()));
    let plan = friend_requests_request(&session).unwrap();
    assert_eq!(plan.method, HttpMethod::Get);
    assert_eq!(plan.url, "https://friends.roblox.com/v1/my/friends/requests?limit=10");
    assert_eq!(plan.cookie, Some(".ROBLOSECURITY=t".to_string()));
    assert_eq!(plan.body, None);
}

#[test]
fn pending_count_plan_with_token() {
    let session = Session::new(Some("t".to_string()));
    let plan = pending_friend_requests_request(&session).unwrap();
    assert_eq!(plan.method, HttpMethod::Get);
    assert_eq!(plan.url, "https://friends.roblox.com/v1/user/friend-requests/count");
    assert_eq!(plan.cookie, Some(".ROBLOSECURITY=t".to_string()));
    assert_eq!(plan.body, None);
}

#[test]
fn authenticated_identity_plan_with_token() {
    let session = Session::new(Some("t".to_string()));
    let plan = authenticated_user_request(&session).unwrap();
    assert_eq!(plan.method, HttpMethod::Get);
    assert_eq!(plan.url, "https://users.roblox.com/v1/users/authenticated");
    assert_eq!(plan.cookie, Some(".ROBLOSECURITY=t".to_string()));
    assert_eq!(plan.body, None);
}

#[test]
fn friends_list_plan_sends_no_cookie() {
    let plan = friends_list_request(2207291);
    assert_eq!(plan.method, HttpMethod::Get);
    assert_eq!(plan.url, "https://friends.roblox.com/v1/users/2207291/friends");
    assert_eq!(plan.cookie, None);
    assert_eq!(plan.body, None);
}

#[test]
fn user_search_plan_sends_empty_cookie_without_token() {
    let session = Session::new(None);
    let plan = user_search_request(&session, "linkmon");
    assert_eq!(plan.method, HttpMethod::Get);
    assert_eq!(plan.url, "https://users.roblox.com/v1/users/search?keyword=linkmon");
    assert_eq!(plan.cookie, Some("".to_string()));
    assert_eq!(plan.body, None);
}

#[test]
fn user_search_plan_sends_cookie_with_token() {
    let session = Session::new(Some("t".to_string()));
    let plan = user_search_request(&session, "linkmon");
    assert_eq!(plan.cookie, Some(".ROBLOSECURITY=t".to_string()));
}

#[test]
fn user_presence_plan_carries_batch_body() {
    let session = Session::new(None);
    let plan = user_presence_request(&session, &vec![2207291, 123]);
    assert_eq!(plan.method, HttpMethod::Post);
    assert_eq!(plan.url, "https://presence.roblox.com/v1/presence/users");
    assert_eq!(plan.cookie, Some("".to_string()));
    assert_eq!(plan.body, Some("{\"userIds\":[2207291,123]}".to_string()));
}

#[test]
fn user_details_plan() {
    let plan = user_details_request(2207291);
    assert_eq!(plan.method, HttpMethod::Get);
    assert_eq!(plan.url, "https://users.roblox.com/v1/users/2207291");
    assert_eq!(plan.cookie, None);
    assert_eq!(plan.body, None);
}

#[test]
fn username_users_plan_carries_body_and_flag() {
    let plan = username_users_request(&vec!["Builderman".to_string()], true);
    assert_eq!(plan.method, HttpMethod::Post);
    assert_eq!(plan.url, "https://users.roblox.com/v1/usernames/users");
    assert_eq!(plan.cookie, None);
    assert_eq!(
        plan.body,
        Some("{\"usernames\":[\"Builderman\"],\"excludeBannedUsers\":true}".to_string())
    );
}
