//! The users endpoints: authenticated identity, user search, user details,
//! username-to-details batch lookup, and user presence.
//!
//! As in the friends module, each response has a wire structure mirroring
//! the remote JSON field names and a verified mapping onto the public
//! model; the two POST endpoints also have verified request-body builders.

use vstd::prelude::*;

use crate::decimal::{append_u64, dec_str};
use crate::jsontext::{append_joined_dec, append_joined_quoted, join_dec, join_quoted};
use crate::session::ClientUserInformation;

verus! {

/// The minimal identity triple of a user.
#[derive(Clone, Debug, PartialEq, Eq, PartialOrd, Ord, Hash, Default)]
pub struct User {
    pub user_id: u64,
    pub username: String,
    pub display_name: String,
}

/// The details of a user fetched by user id.
#[derive(Clone, Debug, PartialEq, Eq, PartialOrd, Ord, Hash, Default)]
pub struct UserDetails {
    pub username: String,
    pub display_name: String,
    pub id: u64,
    pub description: String,
    /// A time string of when the account was created. Follows ISO 8061
    /// format.
    pub created_at: String,
    /// Whether the account is terminated. Does not include non-termination
    /// bans.
    pub is_terminated: bool,
    pub has_verified_badge: bool,
}

/// The details of a user fetched by username through the batch endpoint.
#[derive(Clone, Debug, PartialEq, Eq, PartialOrd, Ord, Hash, Default)]
pub struct UsernameUserDetails {
    /// The username the caller asked for, exactly as it was sent; the
    /// remote service matches it case-insensitively.
    pub requested_username: String,
    pub username: String,
    pub display_name: String,
    pub id: u64,
    pub has_verified_badge: bool,
}

/// The presence of one user. Every optional field reflects the remote
/// service's own optionality: a field absent on the wire (as they all are
/// for an offline user) stays absent here, never a zero or an empty string.
#[derive(Clone, Debug, PartialEq, Eq, PartialOrd, Ord, Hash, Default)]
pub struct UserPresenceRaw {
    /// Where the user is. ['Offline' = 0, 'Online' = 1, 'InGame' = 2,
    /// 'InStudio' = 3, 'Invisible' = 4]
    pub user_presence_type: i32,
    pub last_location: Option<String>,
    pub place_id: Option<u64>,
    pub root_place_id: Option<u64>,
    pub game_id: Option<String>,
    pub universe_id: Option<u64>,
    pub user_id: Option<u64>,
    pub last_online: String,
    pub invisible_mod_expiry: Option<String>,
}

/// The presence response body: one entry per requested user.
#[derive(Clone, Debug, PartialEq, Eq)]
pub struct UserPresenceResponse {
    pub user_presences: Vec<UserPresenceRaw>,
}

/// The authenticated-identity response body as it stands on the wire
/// (`id`, `name`, `displayName`).
#[derive(Clone, Debug, PartialEq, Eq)]
pub struct ClientUserInformationRaw {
    pub id: u64,
    pub name: String,
    pub display_name: String,
}

/// The user-details response body as it stands on the wire.
#[derive(Clone, Debug, PartialEq, Eq)]
pub struct UserDetailsRaw {
    pub name: String,
    pub display_name: String,
    pub id: u64,
    pub description: String,
    pub created: String,
    pub is_banned: bool,
    pub has_verified_badge: bool,
}

/// One user-search entry as it stands on the wire.
#[derive(Clone, Debug, PartialEq, Eq)]
pub struct UserSearchUserInformationRaw {
    pub id: u64,
    pub name: String,
    pub has_verified_badge: bool,
    pub previous_usernames: Vec<String>,
    pub display_name: String,
}

/// The user-search response body. The cursors are decoded but not exposed:
/// the remote service does not honor pagination on this endpoint, so the
/// library surfaces a single full page per call.
#[derive(Clone, Debug, PartialEq, Eq)]
pub struct UserSearchResponse {
    pub previous_page_cursor: Option<String>,
    pub next_page_cursor: String,
    pub data: Vec<UserSearchUserInformationRaw>,
}

/// One username-details entry as it stands on the wire.
#[derive(Clone, Debug, PartialEq, Eq)]
pub struct UsernameUserInformationRaw {
    pub requested_username: String,
    pub has_verified_badge: bool,
    pub id: u64,
    pub name: String,
    pub display_name: String,
}

/// The username-details response body: `{ "data": [...] }`.
#[derive(Clone, Debug, PartialEq, Eq)]
pub struct UsernameUserDetailsResponse {
    pub data: Vec<UsernameUserInformationRaw>,
}

/// The identity triple a wire authenticated-identity body maps to: wire
/// `id` becomes `user_id`, wire `name` becomes `username`.
pub open spec fn spec_map_client_user_information(raw: ClientUserInformationRaw)
    -> ClientUserInformation {
    ClientUserInformation {
        user_id: raw.id,
        username: raw.name,
        display_name: raw.display_name,
    }
}

/// Law: mapping the wire authenticated-identity body onto the cached
/// identity triple preserves every field under the documented renames.
pub proof fn lemma_client_user_information_mapping_preserves_fields(raw: ClientUserInformationRaw)
    ensures
        spec_map_client_user_information(raw).user_id == raw.id,
        spec_map_client_user_information(raw).username == raw.name,
        spec_map_client_user_information(raw).display_name == raw.display_name,
{
}

/// Maps the wire authenticated-identity body onto the identity triple the
/// session caches.
pub fn map_client_user_information(raw: ClientUserInformationRaw) -> (r: ClientUserInformation)
    ensures
        r == spec_map_client_user_information(raw),
{
    ClientUserInformation { user_id: raw.id, username: raw.name, display_name: raw.display_name }
}

/// The public details a wire user-details body maps to: wire `created`
/// becomes `created_at` and wire `isBanned` becomes `is_terminated`; the
/// rest carries over unchanged.
pub open spec fn spec_map_user_details(raw: UserDetailsRaw) -> UserDetails {
    UserDetails {
        username: raw.name,
        display_name: raw.display_name,
        id: raw.id,
        description: raw.description,
        created_at: raw.created,
        is_terminated: raw.is_banned,
        has_verified_badge: raw.has_verified_badge,
    }
}

/// Law: mapping the wire user-details body onto the public model
/// preserves every field, under the documented renames (`name` to
/// `username`, `created` to `created_at`, `isBanned` to `is_terminated`).
pub proof fn lemma_user_details_mapping_preserves_fields(raw: UserDetailsRaw)
    ensures
        spec_map_user_details(raw).username == raw.name,
        spec_map_user_details(raw).display_name == raw.display_name,
        spec_map_user_details(raw).id == raw.id,
        spec_map_user_details(raw).description == raw.description,
        spec_map_user_details(raw).created_at == raw.created,
        spec_map_user_details(raw).is_terminated == raw.is_banned,
        spec_map_user_details(raw).has_verified_badge == raw.has_verified_badge,
{
}

/// Maps the wire user-details body onto the public model.
pub fn map_user_details(raw: UserDetailsRaw) -> (r: UserDetails)
    ensures
        r == spec_map_user_details(raw),
{
    UserDetails {
        username: raw.name,
        display_name: raw.display_name,
        id: raw.id,
        description: raw.description,
        created_at: raw.created,
        is_terminated: raw.is_banned,
        has_verified_badge: raw.has_verified_badge,
    }
}

/// The identity triple a wire search entry maps to; the extra wire fields
/// (badge status, previous usernames) are not part of the search result
/// model and are dropped.
pub open spec fn spec_map_search_user(raw: UserSearchUserInformationRaw) -> User {
    User { user_id: raw.id, username: raw.name, display_name: raw.display_name }
}

/// Law: mapping a wire search entry onto the identity triple preserves
/// the identity fields under the documented renames.
pub proof fn lemma_search_user_mapping_preserves_fields(raw: UserSearchUserInformationRaw)
    ensures
        spec_map_search_user(raw).user_id == raw.id,
        spec_map_search_user(raw).username == raw.name,
        spec_map_search_user(raw).display_name == raw.display_name,
{
}

/// Maps a decoded user-search response onto the list the caller receives:
/// one identity triple per wire entry, in order.
pub fn map_user_search(raw: UserSearchResponse) -> (r: Vec<User>)
    ensures
        r@.len() == raw.data@.len(),
        forall|i: int| 0 <= i < raw.data@.len() ==> r@[i] == spec_map_search_user(raw.data@[i]),
{
    let mut data = raw.data;
    let ghost snapshot: Seq<UserSearchUserInformationRaw> = data@;
    let mut out: Vec<User> = Vec::new();
    while data.len() > 0
        invariant
            out@.len() + data@.len() == snapshot.len(),
            data@ == snapshot.subrange(out@.len() as int, snapshot.len() as int),
            forall|i: int| 0 <= i < out@.len() ==> out@[i] == spec_map_search_user(snapshot[i]),
        decreases data@.len(),
    {
        let item = data.remove(0);
        proof {
            assert(item == snapshot[out@.len() as int]);
        }
        out.push(
            User { user_id: item.id, username: item.name, display_name: item.display_name },
        );
        proof {
            assert(data@ =~= snapshot.subrange(out@.len() as int, snapshot.len() as int));
        }
    }
    out
}

/// The public entry a wire username-details entry maps to: wire `name`
/// becomes `username`; `requested_username` carries over exactly as the
/// caller sent it.
pub open spec fn spec_map_username_user(raw: UsernameUserInformationRaw) -> UsernameUserDetails {
    UsernameUserDetails {
        requested_username: raw.requested_username,
        username: raw.name,
        display_name: raw.display_name,
        id: raw.id,
        has_verified_badge: raw.has_verified_badge,
    }
}

/// Law: mapping a wire username-details entry onto the public model
/// preserves every field; in particular `requested_username` is exactly
/// the string the caller sent, whatever case the remote service matched.
pub proof fn lemma_username_user_mapping_preserves_fields(raw: UsernameUserInformationRaw)
    ensures
        spec_map_username_user(raw).requested_username == raw.requested_username,
        spec_map_username_user(raw).username == raw.name,
        spec_map_username_user(raw).display_name == raw.display_name,
        spec_map_username_user(raw).id == raw.id,
        spec_map_username_user(raw).has_verified_badge == raw.has_verified_badge,
{
}

/// Maps a decoded username-details response onto the list the caller
/// receives: one public entry per wire entry, in order.
pub fn map_username_user_details(raw: UsernameUserDetailsResponse) -> (r: Vec<UsernameUserDetails>)
    ensures
        r@.len() == raw.data@.len(),
        forall|i: int| 0 <= i < raw.data@.len() ==> r@[i] == spec_map_username_user(raw.data@[i]),
{
    let mut data = raw.data;
    let ghost snapshot: Seq<UsernameUserInformationRaw> = data@;
    let mut out: Vec<UsernameUserDetails> = Vec::new();
    while data.len() > 0
        invariant
            out@.len() + data@.len() == snapshot.len(),
            data@ == snapshot.subrange(out@.len() as int, snapshot.len() as int),
            forall|i: int| 0 <= i < out@.len() ==> out@[i] == spec_map_username_user(snapshot[i]),
        decreases data@.len(),
    {
        let item = data.remove(0);
        proof {
            assert(item == snapshot[out@.len() as int]);
        }
        out.push(
            UsernameUserDetails {
                requested_username: item.requested_username,
                username: item.name,
                display_name: item.display_name,
                id: item.id,
                has_verified_badge: item.has_verified_badge,
            },
        );
        proof {
            assert(data@ =~= snapshot.subrange(out@.len() as int, snapshot.len() as int));
        }
    }
    out
}

/// The authenticated-identity URL.
pub fn authenticated_user_url() -> (r: String)
    ensures
        r@ == "https://users.roblox.com/v1/users/authenticated"@,
{
    String::from_str("https://users.roblox.com/v1/users/authenticated")
}

/// The user-search URL for a keyword: the keyword substituted into the
/// query string exactly as given.
pub open spec fn spec_user_search_url(keyword: Seq<char>) -> Seq<char> {
    "https://users.roblox.com/v1/users/search?keyword="@ + keyword
}

/// Builds the user-search URL for `keyword`.
pub fn user_search_url(keyword: &str) -> (r: String)
    ensures
        r@ == spec_user_search_url(keyword@),
{
    let mut url = String::from_str("https://users.roblox.com/v1/users/search?keyword=");
    url.append(keyword);
    url
}

/// The user-details URL for a user: the user id substituted into the path.
pub open spec fn spec_user_details_url(user_id: u64) -> Seq<char> {
    "https://users.roblox.com/v1/users/"@ + dec_str(user_id as nat)
}

/// Builds the user-details URL for `user_id`.
pub fn user_details_url(user_id: u64) -> (r: String)
    ensures
        r@ == spec_user_details_url(user_id),
{
    let mut url = String::from_str("https://users.roblox.com/v1/users/");
    append_u64(&mut url, user_id);
    url
}

/// The username-details batch URL.
pub fn username_users_url() -> (r: String)
    ensures
        r@ == "https://users.roblox.com/v1/usernames/users"@,
{
    String::from_str("https://users.roblox.com/v1/usernames/users")
}

/// The user-presence batch URL.
pub fn user_presence_url() -> (r: String)
    ensures
        r@ == "https://presence.roblox.com/v1/presence/users"@,
{
    String::from_str("https://presence.roblox.com/v1/presence/users")
}

/// The presence request body for a batch of user ids:
/// `{"userIds":[...]}` with the ids in the order given.
pub open spec fn spec_user_presence_body(user_ids: Seq<u64>) -> Seq<char> {
    "{\"userIds\":["@ + join_dec(user_ids) + "]}"@
}

/// Builds the presence request body for `user_ids`.
pub fn user_presence_request_body(user_ids: &Vec<u64>) -> (r: String)
    ensures
        r@ == spec_user_presence_body(user_ids@),
{
    let mut body = String::from_str("{\"userIds\":[");
    append_joined_dec(&mut body, user_ids);
    body.append("]}");
    proof {
        assert(body@ =~= spec_user_presence_body(user_ids@));
    }
    body
}

/// The username-details request body:
/// `{"usernames":[...],"excludeBannedUsers":...}` with each username as a
/// JSON string literal, in the order given.
pub open spec fn spec_username_users_body(usernames: Seq<Seq<char>>, exclude_banned_users: bool)
    -> Seq<char> {
    "{\"usernames\":["@ + join_quoted(usernames) + "],\"excludeBannedUsers\":"@ + (
    if exclude_banned_users {
        "true"@
    } else {
        "false"@
    }) + "}"@
}

/// Builds the username-details request body for `usernames`.
pub fn username_users_request_body(usernames: &Vec<String>, exclude_banned_users: bool) -> (r:
    String)
    ensures
        r@ == spec_username_users_body(usernames.deep_view(), exclude_banned_users),
{
    let mut body = String::from_str("{\"usernames\":[");
    append_joined_quoted(&mut body, usernames);
    body.append("],\"excludeBannedUsers\":");
    if exclude_banned_users {
        body.append("true");
    } else {
        body.append("false");
    }
    body.append("}");
    proof {
        assert(body@ =~= spec_username_users_body(usernames.deep_view(), exclude_banned_users));
    }
    body
}

} // verus!
