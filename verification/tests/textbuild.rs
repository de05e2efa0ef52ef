use roboat::decimal::format_u64;
use roboat::friends::friends_list_url;
use roboat::users::{
    user_details_url, user_presence_request_body, user_search_url, username_users_request_body,
};

#[test]
fn format_u64_zero() {
    assert_eq!(format_u64(0), "0");
}

#[test]
fn format_u64_round_number_keeps_inner_zeros() {
    assert_eq!(format_u64(1050), "1050");
}

#[test]
fn format_u64_largest_value() {
    assert_eq!(format_u64(u64::MAX), "18446744073709551615");
}

#[test]
fn friends_list_url_substitutes_the_id() {
    assert_eq!(friends_list_url(0), "https://friends.roblox.com/v1/users/0/friends");
    assert_eq!(
        friends_list_url(2207291),
        "https://friends.roblox.com/v1/users/2207291/friends"
    );
}

#[test]
fn user_details_url_substitutes_the_id() {
    assert_eq!(user_details_url(123), "https://users.roblox.com/v1/users/123");
}

#[test]
fn user_search_url_appends_the_keyword_verbatim() {
    assert_eq!(user_search_url(""), "https://users.roblox.com/v1/users/search?keyword=");
    assert_eq!(
        user_search_url("linkmon"),
        "https://users.roblox.com/v1/users/search?keyword=linkmon"
    );
}

#[test]
fn presence_body_empty_batch() {
    assert_eq!(user_presence_request_body(&vec![]), "{\"userIds\":[]}");
}

#[test]
fn presence_body_single_id() {
    assert_eq!(user_presence_request_body(&vec![7]), "{\"userIds\":[7]}");
}

#[test]
fn presence_body_keeps_order() {
    assert_eq!(
        user_presence_request_body(&vec![3, 1, 2]),
        "{\"userIds\":[3,1,2]}"
    );
}

#[test]
fn username_body_single_name() {
    assert_eq!(
        username_users_request_body(&vec!["Builderman".to_string()], true),
        "{\"usernames\":[\"Builderman\"],\"excludeBannedUsers\":true}"
    );
}

#[test]
fn username_body_flag_false() {
    assert_eq!(
        username_users_request_body(&vec!["a".to_string(), "b".to_string()], false),
        "{\"usernames\":[\"a\",\"b\"],\"excludeBannedUsers\":false}"
    );
}

#[test]
fn username_body_empty_batch() {
    assert_eq!(
        username_users_request_body(&vec![], true),
        "{\"usernames\":[],\"excludeBannedUsers\":true}"
    );
}

#[test]
fn username_body_escapes_quote_and_backslash() {
    assert_eq!(
        username_users_request_body(&vec!["a\"b\\c".to_string()], true),
        "{\"usernames\":[\"a\\\"b\\\\c\"],\"excludeBannedUsers\":true}"
    );
}

#[test]
fn username_body_escapes_named_control_characters() {
    assert_eq!(
        username_users_request_body(&vec!["a\nb\tc\rd".to_string()], false),
        "{\"usernames\":[\"a\\nb\\tc\\rd\"],\"excludeBannedUsers\":false}"
    );
    assert_eq!(
        username_users_request_body(&vec!["x\u{8}y\u{c}z".to_string()], false),
        "{\"usernames\":[\"x\\by\\fz\"],\"excludeBannedUsers\":false}"
    );
}

#[test]
fn username_body_escapes_other_control_characters_as_hex() {
    assert_eq!(
        username_users_request_body(&vec!["a\u{1}b\u{1f}c".to_string()], true),
        "{\"usernames\":[\"a\\u0001b\\u001fc\"],\"excludeBannedUsers\":true}"
    );
}

#[test]
fn username_body_keeps_unicode_verbatim() {
    assert_eq!(
        username_users_request_body(&vec!["héllo".to_string()], true),
        "{\"usernames\":[\"héllo\"],\"excludeBannedUsers\":true}"
    );
}
