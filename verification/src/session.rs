//! Session state: the authentication cookie and the lazily populated cache
//! of the authenticated user's own identity.
//!
//! This is the only mutable state in the library. The cache is an
//! `Option` of a complete identity record, so a reader can never observe a
//! partially populated value: either nothing has been cached yet, or a whole
//! record is there. Callers that share one session across tasks must guard
//! it with a mutual-exclusion primitive of their own; the contracts here
//! guarantee that every write installs a complete record and leaves the
//! cookie untouched, so concurrent first writes converge to the last
//! writer's value.

use vstd::prelude::*;

use crate::error::RoboatError;

verus! {

/// The authenticated user's own identity triple, fetched from the
/// authenticated-identity endpoint and memoized in the session.
#[derive(Clone, Debug, PartialEq, Eq, PartialOrd, Ord, Hash, Default)]
pub struct ClientUserInformation {
    pub user_id: u64,
    pub username: String,
    pub display_name: String,
}

/// The cookie header value that carries a session token.
pub open spec fn spec_cookie_string(token: Seq<char>) -> Seq<char> {
    ".ROBLOSECURITY="@ + token
}

/// The view of an optional cookie header value: the character sequence it
/// carries, if any.
pub open spec fn spec_cookie_view(cookie: Option<String>) -> Option<Seq<char>> {
    match cookie {
        Some(c) => Some(c@),
        None => None,
    }
}

/// The caller-held context for a sequence of endpoint calls: an optional
/// authentication token and the identity cache.
pub struct Session {
    /// The opaque authentication token, if the caller supplied one. Its
    /// value and acquisition are outside this library's scope.
    pub roblosecurity: Option<String>,
    /// The memoized identity of the authenticated user; `None` until the
    /// authenticated-identity fetch first succeeds.
    pub user_information: Option<ClientUserInformation>,
}

impl Session {
    /// A fresh session with the given token and an empty identity cache.
    pub fn new(roblosecurity: Option<String>) -> (r: Session)
        ensures
            r.roblosecurity == roblosecurity,
            r.user_information is None,
    {
        Session { roblosecurity, user_information: None }
    }

    /// The cookie header value for an endpoint that requires
    /// authentication. Fails with [`RoboatError::MissingAuthentication`]
    /// when the session holds no token, so such an endpoint fails before
    /// any network call is made.
    pub fn cookie_string(&self) -> (r: Result<String, RoboatError>)
        ensures
            self.roblosecurity matches Some(token) ==> r matches Ok(c) && c@
                == spec_cookie_string(token@),
            self.roblosecurity is None ==> r == Err::<String, RoboatError>(
                RoboatError::MissingAuthentication,
            ),
    {
        match &self.roblosecurity {
            Some(token) => {
                let mut cookie = String::from_str(".ROBLOSECURITY=");
                cookie.append(token.as_str());
                Ok(cookie)
            },
            None => Err(RoboatError::MissingAuthentication),
        }
    }

    /// The cookie header value for an endpoint where authentication is
    /// optional: the real cookie when a token is present, the empty string
    /// otherwise.
    pub fn cookie_string_or_empty(&self) -> (r: String)
        ensures
            self.roblosecurity matches Some(token) ==> r@ == spec_cookie_string(token@),
            self.roblosecurity is None ==> r@ == Seq::<char>::empty(),
    {
        match self.cookie_string() {
            Ok(cookie) => cookie,
            Err(_) => String::new(),
        }
    }

    /// Memoizes the authenticated user's identity. The whole record is
    /// installed at once and the token is left unchanged, so a later read
    /// sees either this complete record or a complete record from a later
    /// write, never a partial one.
    pub fn set_user_information(&mut self, user_information: ClientUserInformation)
        ensures
            final(self).user_information == Some(user_information),
            final(self).roblosecurity == old(self).roblosecurity,
    {
        self.user_information = Some(user_information);
    }

    /// The cached user id, if the identity cache is populated.
    pub fn user_id(&self) -> (r: Option<u64>)
        ensures
            self.user_information matches Some(info) ==> r == Some(info.user_id),
            self.user_information is None ==> r is None,
    {
        match &self.user_information {
            Some(info) => Some(info.user_id),
            None => None,
        }
    }

    /// The cached username, if the identity cache is populated.
    pub fn username(&self) -> (r: Option<String>)
        ensures
            self.user_information matches Some(info) ==> r matches Some(u) && u@
                == info.username@,
            self.user_information is None ==> r is None,
    {
        match &self.user_information {
            Some(info) => Some(info.username.clone()),
            None => None,
        }
    }

    /// The cached display name, if the identity cache is populated.
    pub fn display_name(&self) -> (r: Option<String>)
        ensures
            self.user_information matches Some(info) ==> r matches Some(d) && d@
                == info.display_name@,
            self.user_information is None ==> r is None,
    {
        match &self.user_information {
            Some(info) => Some(info.display_name.clone()),
            None => None,
        }
    }
}

} // verus!
