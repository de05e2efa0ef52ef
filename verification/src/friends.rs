//! The friends endpoints: friends list, friend requests, pending
//! friend-request count.
//!
//! Each endpoint contributes a URL builder and, for responses, a wire
//! structure whose field names mirror the remote JSON together with the
//! mapping onto the public model. The wire structures exist only between
//! the decoder and the mapping; callers see the public models.

use vstd::prelude::*;

use crate::decimal::{append_u64, dec_str};

verus! {

/// User information from the friends list, including select presence
/// information.
#[derive(Clone, Debug, PartialEq, Eq, PartialOrd, Ord, Hash, Default)]
pub struct FriendsUserInformation {
    pub user_id: u64,
    pub external_app_display_name: Option<String>,
    pub username: String,
    pub display_name: String,
    /// Whether the user is online.
    pub is_online: bool,
    /// Where the user is online. ['Offline' = 0, 'Online' = 1, 'InGame' = 2,
    /// 'InStudio' = 3, 'Invisible' = 4]. `None` when the user is not online.
    pub presence_type: Option<i32>,
    /// Whether the user is deleted.
    pub is_deleted: bool,
    pub is_banned: bool,
    /// Frequents value for the user.
    pub friend_frequent_score: i64,
    /// Frequents rank for the user.
    pub friend_frequent_rank: i64,
    /// The user's verified badge status.
    pub has_verified_badge: bool,
    pub description: Option<String>,
    pub created: String,
}

/// One friends-list entry as it stands on the wire: field names mirror the
/// remote JSON (`id`, `name`, `displayName`, ...), written in snake case.
#[derive(Clone, Debug, PartialEq, Eq)]
pub struct FriendsUserInformationRaw {
    pub id: u64,
    pub external_app_display_name: Option<String>,
    pub name: String,
    pub display_name: String,
    pub is_online: bool,
    pub presence_type: Option<i32>,
    pub is_deleted: bool,
    pub is_banned: bool,
    pub friend_frequent_score: i64,
    pub friend_frequent_rank: i64,
    pub has_verified_badge: bool,
    pub description: Option<String>,
    pub created: String,
}

/// The friends-list response body: `{ "data": [...] }`.
#[derive(Clone, Debug, PartialEq, Eq)]
pub struct FriendsListResponse {
    pub data: Vec<FriendsUserInformationRaw>,
}

/// The public entry a wire friends-list entry maps to: wire `id` becomes
/// `user_id`, wire `name` becomes `username`, every other field carries
/// over unchanged.
pub open spec fn spec_map_friend(raw: FriendsUserInformationRaw) -> FriendsUserInformation {
    FriendsUserInformation {
        user_id: raw.id,
        external_app_display_name: raw.external_app_display_name,
        username: raw.name,
        display_name: raw.display_name,
        is_online: raw.is_online,
        presence_type: raw.presence_type,
        is_deleted: raw.is_deleted,
        is_banned: raw.is_banned,
        friend_frequent_score: raw.friend_frequent_score,
        friend_frequent_rank: raw.friend_frequent_rank,
        has_verified_badge: raw.has_verified_badge,
        description: raw.description,
        created: raw.created,
    }
}

/// Maps one wire friends-list entry onto the public model, field for field
/// under the documented renames.
pub fn map_friend(raw: FriendsUserInformationRaw) -> (r: FriendsUserInformation)
    ensures
        r == spec_map_friend(raw),
{
    FriendsUserInformation {
        user_id: raw.id,
        external_app_display_name: raw.external_app_display_name,
        username: raw.name,
        display_name: raw.display_name,
        is_online: raw.is_online,
        presence_type: raw.presence_type,
        is_deleted: raw.is_deleted,
        is_banned: raw.is_banned,
        friend_frequent_score: raw.friend_frequent_score,
        friend_frequent_rank: raw.friend_frequent_rank,
        has_verified_badge: raw.has_verified_badge,
        description: raw.description,
        created: raw.created,
    }
}

/// Law: mapping a wire friends-list entry onto the public model preserves
/// every field, under the documented renames (`id` to `user_id`, `name` to
/// `username`) and otherwise name for name.
pub proof fn lemma_friend_mapping_preserves_fields(raw: FriendsUserInformationRaw)
    ensures
        spec_map_friend(raw).user_id == raw.id,
        spec_map_friend(raw).username == raw.name,
        spec_map_friend(raw).display_name == raw.display_name,
        spec_map_friend(raw).external_app_display_name == raw.external_app_display_name,
        spec_map_friend(raw).is_online == raw.is_online,
        spec_map_friend(raw).presence_type == raw.presence_type,
        spec_map_friend(raw).is_deleted == raw.is_deleted,
        spec_map_friend(raw).is_banned == raw.is_banned,
        spec_map_friend(raw).friend_frequent_score == raw.friend_frequent_score,
        spec_map_friend(raw).friend_frequent_rank == raw.friend_frequent_rank,
        spec_map_friend(raw).has_verified_badge == raw.has_verified_badge,
        spec_map_friend(raw).description == raw.description,
        spec_map_friend(raw).created == raw.created,
{
}

/// Maps a decoded friends-list response onto the list the caller receives:
/// one public entry per wire entry, in order.
pub fn map_friends_list(raw: FriendsListResponse) -> (r: Vec<FriendsUserInformation>)
    ensures
        r@.len() == raw.data@.len(),
        forall|i: int| 0 <= i < raw.data@.len() ==> r@[i] == spec_map_friend(raw.data@[i]),
{
    let mut data = raw.data;
    let ghost snapshot: Seq<FriendsUserInformationRaw> = data@;
    let mut out: Vec<FriendsUserInformation> = Vec::new();
    while data.len() > 0
        invariant
            out@.len() + data@.len() == snapshot.len(),
            data@ == snapshot.subrange(out@.len() as int, snapshot.len() as int),
            forall|i: int| 0 <= i < out@.len() ==> out@[i] == spec_map_friend(snapshot[i]),
        decreases data@.len(),
    {
        let item = data.remove(0);
        proof {
            assert(item == snapshot[out@.len() as int]);
        }
        out.push(map_friend(item));
        proof {
            assert(data@ =~= snapshot.subrange(out@.len() as int, snapshot.len() as int));
        }
    }
    out
}

/// One incoming friend request record.
#[derive(Clone, Debug, PartialEq, Eq, PartialOrd, Ord, Hash, Default)]
pub struct FriendRequest {
    /// The sender user id.
    pub sender_id: u64,
    /// The source universe id which the request was sent in.
    pub source_universe_id: u64,
    /// When the friend request was sent.
    pub sent_at: String,
    /// The origin source type associated with the friend request.
    /// ['Unknown' = 0, 'PlayerSearch' = 1, 'QrCode' = 2, 'InGame' = 3,
    /// 'UserProfile' = 4, 'QqContactImporter' = 5, 'WeChatContactImporter' = 6,
    /// 'ProfileShare' = 7, 'PhoneContactImporter' = 8,
    /// 'FriendRecommendations' = 9], carried as the string the remote
    /// service sends.
    pub origin_source_type: String,
    /// The contact name associated with the friend request.
    pub contact_name: Option<String>,
}

/// A friend request together with its sender's user information.
#[derive(Clone, Debug, PartialEq, Eq, PartialOrd, Ord, Hash, Default)]
pub struct FriendRequestUserInformation {
    pub friend_request: FriendRequest,
    pub mutual_friends_list: Vec<String>,
    pub has_verified_badge: bool,
    pub description: Option<String>,
    pub created: String,
    pub is_banned: bool,
    pub external_app_display_name: Option<String>,
    pub user_id: u64,
    pub username: String,
    pub display_name: String,
}

/// A friend request as it stands on the wire (`senderId`,
/// `sourceUniverseId`, `sentAt`, `originSourceType`, `contactName`).
#[derive(Clone, Debug, PartialEq, Eq)]
pub struct FriendRequestRaw {
    pub sender_id: u64,
    pub source_universe_id: u64,
    pub sent_at: String,
    pub origin_source_type: String,
    pub contact_name: Option<String>,
}

/// One friend-request entry as it stands on the wire.
#[derive(Clone, Debug, PartialEq, Eq)]
pub struct FriendRequestUserInformationRaw {
    pub friend_request: FriendRequestRaw,
    pub mutual_friends_list: Vec<String>,
    pub has_verified_badge: bool,
    pub description: Option<String>,
    pub created: String,
    pub is_banned: bool,
    pub external_app_display_name: Option<String>,
    pub id: u64,
    pub name: String,
    pub display_name: String,
}

/// The friend-requests response body: `{ "data": [...], "nextPageCursor": ... }`.
#[derive(Clone, Debug, PartialEq, Eq)]
pub struct FriendRequestsResponse {
    pub data: Vec<FriendRequestUserInformationRaw>,
    pub next_page_cursor: Option<String>,
}

/// The pending-count response body: `{ "count": ... }`.
#[derive(Clone, Debug, PartialEq, Eq, PartialOrd, Ord, Hash, Default)]
pub struct PendingFriendRequestsResponse {
    pub count: u64,
}

/// The public record a wire friend request maps to: every field carries
/// over unchanged; only the wire spelling of the names differs.
pub open spec fn spec_map_friend_request_raw(raw: FriendRequestRaw) -> FriendRequest {
    FriendRequest {
        sender_id: raw.sender_id,
        source_universe_id: raw.source_universe_id,
        sent_at: raw.sent_at,
        origin_source_type: raw.origin_source_type,
        contact_name: raw.contact_name,
    }
}

/// The public entry a wire friend-request entry maps to: wire `id` becomes
/// `user_id`, wire `name` becomes `username`.
pub open spec fn spec_map_friend_request(raw: FriendRequestUserInformationRaw)
    -> FriendRequestUserInformation {
    FriendRequestUserInformation {
        friend_request: spec_map_friend_request_raw(raw.friend_request),
        mutual_friends_list: raw.mutual_friends_list,
        has_verified_badge: raw.has_verified_badge,
        description: raw.description,
        created: raw.created,
        is_banned: raw.is_banned,
        external_app_display_name: raw.external_app_display_name,
        user_id: raw.id,
        username: raw.name,
        display_name: raw.display_name,
    }
}

/// Law: mapping a wire friend-request entry onto the public model
/// preserves every field, under the documented renames (`id` to `user_id`,
/// `name` to `username`) and otherwise name for name, the nested request
/// record included.
pub proof fn lemma_friend_request_mapping_preserves_fields(raw: FriendRequestUserInformationRaw)
    ensures
        spec_map_friend_request(raw).friend_request.sender_id == raw.friend_request.sender_id,
        spec_map_friend_request(raw).friend_request.source_universe_id
            == raw.friend_request.source_universe_id,
        spec_map_friend_request(raw).friend_request.sent_at == raw.friend_request.sent_at,
        spec_map_friend_request(raw).friend_request.origin_source_type
            == raw.friend_request.origin_source_type,
        spec_map_friend_request(raw).friend_request.contact_name
            == raw.friend_request.contact_name,
        spec_map_friend_request(raw).mutual_friends_list == raw.mutual_friends_list,
        spec_map_friend_request(raw).has_verified_badge == raw.has_verified_badge,
        spec_map_friend_request(raw).description == raw.description,
        spec_map_friend_request(raw).created == raw.created,
        spec_map_friend_request(raw).is_banned == raw.is_banned,
        spec_map_friend_request(raw).external_app_display_name == raw.external_app_display_name,
        spec_map_friend_request(raw).user_id == raw.id,
        spec_map_friend_request(raw).username == raw.name,
        spec_map_friend_request(raw).display_name == raw.display_name,
{
}

/// Maps one wire friend-request entry onto the public model.
pub fn map_friend_request(raw: FriendRequestUserInformationRaw) -> (r:
    FriendRequestUserInformation)
    ensures
        r == spec_map_friend_request(raw),
{
    let friend_request = FriendRequest {
        sender_id: raw.friend_request.sender_id,
        source_universe_id: raw.friend_request.source_universe_id,
        sent_at: raw.friend_request.sent_at,
        origin_source_type: raw.friend_request.origin_source_type,
        contact_name: raw.friend_request.contact_name,
    };
    FriendRequestUserInformation {
        friend_request,
        mutual_friends_list: raw.mutual_friends_list,
        has_verified_badge: raw.has_verified_badge,
        description: raw.description,
        created: raw.created,
        is_banned: raw.is_banned,
        external_app_display_name: raw.external_app_display_name,
        user_id: raw.id,
        username: raw.name,
        display_name: raw.display_name,
    }
}

/// Maps a decoded friend-requests response onto what the caller receives:
/// the page of requests, in order, paired with the opaque next-page cursor
/// threaded through uninterpreted.
pub fn map_friend_requests(raw: FriendRequestsResponse) -> (r: (
    Vec<FriendRequestUserInformation>,
    Option<String>,
))
    ensures
        r.0@.len() == raw.data@.len(),
        forall|i: int| 0 <= i < raw.data@.len() ==> r.0@[i] == spec_map_friend_request(
            raw.data@[i],
        ),
        r.1 == raw.next_page_cursor,
{
    let mut data = raw.data;
    let ghost snapshot: Seq<FriendRequestUserInformationRaw> = data@;
    let mut out: Vec<FriendRequestUserInformation> = Vec::new();
    while data.len() > 0
        invariant
            out@.len() + data@.len() == snapshot.len(),
            data@ == snapshot.subrange(out@.len() as int, snapshot.len() as int),
            forall|i: int| 0 <= i < out@.len() ==> out@[i] == spec_map_friend_request(snapshot[i]),
        decreases data@.len(),
    {
        let item = data.remove(0);
        proof {
            assert(item == snapshot[out@.len() as int]);
        }
        out.push(map_friend_request(item));
        proof {
            assert(data@ =~= snapshot.subrange(out@.len() as int, snapshot.len() as int));
        }
    }
    (out, raw.next_page_cursor)
}

/// The friends-list URL for a user: the user id substituted into the path.
pub open spec fn spec_friends_list_url(user_id: u64) -> Seq<char> {
    "https://friends.roblox.com/v1/users/"@ + dec_str(user_id as nat) + "/friends"@
}

/// Builds the friends-list URL for `user_id`.
pub fn friends_list_url(user_id: u64) -> (r: String)
    ensures
        r@ == spec_friends_list_url(user_id),
{
    let mut url = String::from_str("https://friends.roblox.com/v1/users/");
    append_u64(&mut url, user_id);
    url.append("/friends");
    proof {
        assert(url@ =~= spec_friends_list_url(user_id));
    }
    url
}

/// The friend-requests URL, with the fixed page size the library always
/// requests.
pub fn friend_requests_url() -> (r: String)
    ensures
        r@ == "https://friends.roblox.com/v1/my/friends/requests?limit=10"@,
{
    String::from_str("https://friends.roblox.com/v1/my/friends/requests?limit=10")
}

/// The pending friend-request count URL.
pub fn pending_friend_requests_url() -> (r: String)
    ensures
        r@ == "https://friends.roblox.com/v1/user/friend-requests/count"@,
{
    String::from_str("https://friends.roblox.com/v1/user/friend-requests/count")
}

} // verus!
