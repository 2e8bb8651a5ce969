//! API token issuance and authorization: approved tokens keyed by the base64 text of their key,
//! pending token requests keyed by username, the rules a username must follow, and the check
//! made on every authenticated API call.

use crate::text::same_text;
use crate::token_key::{base64_url_encoding, DeimosTokenKey};
use dashmap::DashMap;
use rand::RngCore;
use vstd::prelude::*;

verus! {

#[verifier::external_type_specification]
#[verifier::external_body]
#[verifier::reject_recursive_types(K)]
#[verifier::reject_recursive_types(V)]
#[verifier::reject_recursive_types(S)]
pub struct ExDashMap<K, V, S>(dashmap::DashMap<K, V, S>);

#[verifier::external_type_specification]
#[verifier::external_body]
pub struct ExRandError(rand::Error);

/// Number of random bytes in a token key
pub const TOKEN_KEY_BYTES: usize = 64;

/// Number of keys drawn for one approval before giving up on finding one not yet in use
pub const KEY_ATTEMPTS: usize = 16;

/// An API token that has been created with a random key and approved sometime in the past
pub struct ApiToken {
    /// Username as given in the token request
    user: String,
    /// Seconds since the Unix epoch at which the token was issued
    issued: i64,
    /// Randomly generated token assigned by the server
    key: DeimosTokenKey,
}

impl View for ApiToken {
    type V = (Seq<char>, i64, Seq<u8>);

    closed spec fn view(&self) -> (Seq<char>, i64, Seq<u8>) {
        (self.user@, self.issued, self.key@)
    }
}

/// A pending token request from a client, with data about the client
pub struct ApiTokenPending {
    /// Username of the token
    user: String,
    /// Seconds since the Unix epoch at which the token was requested
    requested_at: i64,
    /// Address of the client that requested this token
    requester: String,
}

impl View for ApiTokenPending {
    type V = (Seq<char>, i64, Seq<char>);

    closed spec fn view(&self) -> (Seq<char>, i64, Seq<char>) {
        (self.user@, self.requested_at, self.requester@)
    }
}

/// The wire form of an approved token
pub struct Token {
    pub name: String,
    pub issued: i64,
    pub key: Vec<u8>,
}

/// The wire form of a pending token request
pub struct PendingTokenRequest {
    pub username: String,
    pub requested_dt: i64,
    pub requester_address: String,
}

/// Why a token request is refused
#[derive(Debug)]
pub enum ApiTokenIssueError {
    /// A token or a pending request already has this username
    UsernameInUse(String),
    /// The username holds a character other than ASCII letters, digits and punctuation
    InvalidUsername,
    /// Every key drawn for the token was already in use
    KeysExhausted,
    /// The operating system could not supply random bytes for a key
    RandomUnavailable,
}

impl ApiTokenIssueError {
    /// The message shown for the error
    pub fn message(&self) -> (text: String)
        ensures
            match self {
                ApiTokenIssueError::UsernameInUse(u) => text@ == "A token with username '"@ + u@
                    + "' already exists"@,
                ApiTokenIssueError::InvalidUsername => text@
                    == "Username is not ASCII or contains whitespace"@,
                ApiTokenIssueError::KeysExhausted => text@
                    == "Every generated token key collided with an existing token"@,
                ApiTokenIssueError::RandomUnavailable => text@
                    == "No random bytes could be read for the token key"@,
            },
    {
        match self {
            ApiTokenIssueError::UsernameInUse(u) => {
                let mut text = "A token with username '".to_owned();
                text.append(u.as_str());
                text.append("' already exists");
                text
            },
            ApiTokenIssueError::InvalidUsername => "Username is not ASCII or contains whitespace".to_owned(),
            ApiTokenIssueError::KeysExhausted => "Every generated token key collided with an existing token".to_owned(),
            ApiTokenIssueError::RandomUnavailable => "No random bytes could be read for the token key".to_owned(),
        }
    }
}

impl ApiTokenIssueError {
    /// The message a client receives when its request is refused for this reason
    pub fn denial_message(&self) -> (text: String)
        ensures
            text@ == "Token request denied: "@ + match self {
                ApiTokenIssueError::UsernameInUse(u) => "A token with username '"@ + u@
                    + "' already exists"@,
                ApiTokenIssueError::InvalidUsername => "Username is not ASCII or contains whitespace"@,
                ApiTokenIssueError::KeysExhausted => "Every generated token key collided with an existing token"@,
                ApiTokenIssueError::RandomUnavailable => "No random bytes could be read for the token key"@,
            },
    {
        let mut text = "Token request denied: ".to_owned();
        let reason = self.message();
        text.append(reason.as_str());
        text
    }
}

/// Why an API call is refused
#[derive(Debug, PartialEq, Eq, Structural)]
pub enum AuthorizationError {
    /// The call carries no token header
    MissingHeader,
    /// The call's token is unreadable or unknown
    InvalidToken,
}

/// User configuration of token issuance
pub struct ApiAuthorizationConfig {
    /// Seconds to wait until a request is timed out
    pub request_timeout: u64,
}

impl ApiAuthorizationConfig {
    /// Request timeout used when the configuration names none: thirty minutes
    pub fn default_token_timeout() -> (secs: u64)
        ensures
            secs == 1800,
    {
        60 * 30
    }
}

impl Default for ApiAuthorizationConfig {
    fn default() -> (conf: Self)
        ensures
            conf.request_timeout == 1800,
    {
        ApiAuthorizationConfig { request_timeout: Self::default_token_timeout() }
    }
}

/// The approved tokens that a `DashMap` holds, keyed by the base64 text of their keys
pub uninterp spec fn token_table(map: DashMap<String, ApiToken>) -> Map<
    Seq<char>,
    (Seq<char>, i64, Seq<u8>),
>;

/// The pending requests that a `DashMap` holds, keyed by username
pub uninterp spec fn pending_table(map: DashMap<String, ApiTokenPending>) -> Map<
    Seq<char>,
    (Seq<char>, i64, Seq<char>),
>;

/// Calls `DashMap::new`. Trusted: the map is empty.
#[verifier::external_body]
fn token_map_new() -> (fresh: DashMap<String, ApiToken>)
    ensures
        token_table(fresh).is_empty(),
{
    DashMap::new()
}

/// Calls `DashMap::insert`. Trusted: the entry is added, replacing any entry under the key.
#[verifier::external_body]
fn token_map_insert(map: &mut DashMap<String, ApiToken>, key: String, token: ApiToken)
    ensures
        token_table(*final(map)) == token_table(*old(map)).insert(key@, token@),
{
    map.insert(key, token);
}

/// Calls `DashMap::contains_key`. Trusted: whether an entry has the key.
#[verifier::external_body]
fn token_map_contains(map: &DashMap<String, ApiToken>, key: &str) -> (found: bool)
    ensures
        found == token_table(*map).contains_key(key@),
{
    map.contains_key(key)
}

/// Calls `DashMap::iter` and copies out the user of each entry. Trusted: each user returned is
/// the user of some entry, and each entry's user is returned; the order is not described.
#[verifier::external_body]
fn token_map_users(map: &DashMap<String, ApiToken>) -> (users: Vec<String>)
    ensures
        forall|i: int|
            #![trigger users@[i]]
            0 <= i < users@.len() ==> exists|k: Seq<char>| #[trigger]
                token_table(*map).contains_key(k) && token_table(*map)[k].0 == users@[i]@,
        forall|k: Seq<char>| #[trigger]
            token_table(*map).contains_key(k) ==> exists|i: int|
                0 <= i < users@.len() && users@[i]@ == token_table(*map)[k].0,
{
    map.iter().map(|entry| entry.value().user.clone()).collect()
}

/// Calls `DashMap::clone`. Trusted: the copy holds the same entries.
#[verifier::external_body]
fn token_map_clone(map: &DashMap<String, ApiToken>) -> (copy: DashMap<String, ApiToken>)
    ensures
        token_table(copy) == token_table(*map),
{
    map.clone()
}

/// Calls `DashMap::new`. Trusted: the map is empty.
#[verifier::external_body]
fn pending_map_new() -> (fresh: DashMap<String, ApiTokenPending>)
    ensures
        pending_table(fresh).is_empty(),
{
    DashMap::new()
}

/// Calls `DashMap::insert`. Trusted: the entry is added, replacing any entry under the key.
#[verifier::external_body]
fn pending_map_insert(map: &mut DashMap<String, ApiTokenPending>, key: String, request: ApiTokenPending)
    ensures
        pending_table(*final(map)) == pending_table(*old(map)).insert(key@, request@),
{
    map.insert(key, request);
}

/// Calls `DashMap::contains_key`. Trusted: whether an entry has the key.
#[verifier::external_body]
fn pending_map_contains(map: &DashMap<String, ApiTokenPending>, key: &str) -> (found: bool)
    ensures
        found == pending_table(*map).contains_key(key@),
{
    map.contains_key(key)
}

/// Calls `DashMap::remove` and keeps the value. Trusted: the entry under the key, if any, is
/// removed and returned.
#[verifier::external_body]
fn pending_map_remove(map: &mut DashMap<String, ApiTokenPending>, key: &str) -> (removed: Option<ApiTokenPending>)
    ensures
        pending_table(*final(map)) == pending_table(*old(map)).remove(key@),
        removed is Some <==> pending_table(*old(map)).contains_key(key@),
        removed matches Some(r) ==> r@ == pending_table(*old(map))[key@],
{
    map.remove(key).map(|entry| entry.1)
}

/// Calls `DashMap::iter` and copies out each pending request. Trusted: as many requests as
/// entries are returned, each the value of some entry, and each entry's value is among them;
/// the order is not described.
#[verifier::external_body]
fn pending_map_values(map: &DashMap<String, ApiTokenPending>) -> (requests: Vec<ApiTokenPending>)
    ensures
        requests@.len() == pending_table(*map).len(),
        forall|i: int|
            #![trigger requests@[i]]
            0 <= i < requests@.len() ==> exists|k: Seq<char>| #[trigger]
                pending_table(*map).contains_key(k) && pending_table(*map)[k] == requests@[i]@,
        forall|k: Seq<char>| #[trigger]
            pending_table(*map).contains_key(k) ==> exists|i: int|
                0 <= i < requests@.len() && requests@[i]@ == pending_table(*map)[k],
{
    map.iter().map(|entry| entry.value().clone()).collect()
}

/// Calls `rand::RngCore::try_fill_bytes` on `rand::rngs::OsRng`, which asks the operating system
/// for random bytes. Trusted: the buffer keeps its length. Its new contents come from the
/// operating system and are not described, nor is when the call fails.
#[verifier::external_body]
fn fill_random(buf: &mut Vec<u8>) -> (res: Result<(), rand::Error>)
    ensures
        final(buf)@.len() == old(buf)@.len(),
{
    rand::RngCore::try_fill_bytes(&mut rand::rngs::OsRng, buf.as_mut_slice())
}

/// Draw a fresh key of `TOKEN_KEY_BYTES` random bytes from the operating system
fn draw_key() -> (res: Result<DeimosTokenKey, ApiTokenIssueError>)
    ensures
        res matches Ok(key) ==> key@.len() == TOKEN_KEY_BYTES,
        res matches Err(e) ==> e is RandomUnavailable,
{
    let mut key: Vec<u8> = Vec::new();
    let mut i: usize = 0;
    while i < TOKEN_KEY_BYTES
        invariant
            i <= TOKEN_KEY_BYTES,
            key@.len() == i,
        decreases TOKEN_KEY_BYTES - i,
    {
        key.push(0u8);
        i = i + 1;
    }
    match fill_random(&mut key) {
        Ok(()) => Ok(DeimosTokenKey::from_bytes(key)),
        Err(_) => Err(ApiTokenIssueError::RandomUnavailable),
    }
}

impl Clone for ApiToken {
    fn clone(&self) -> (copy: Self)
        ensures
            copy@ == self@,
    {
        ApiToken { user: self.user.clone(), issued: self.issued, key: self.key.clone() }
    }
}

impl Clone for ApiTokenPending {
    fn clone(&self) -> (copy: Self)
        ensures
            copy@ == self@,
    {
        ApiTokenPending {
            user: self.user.clone(),
            requested_at: self.requested_at,
            requester: self.requester.clone(),
        }
    }
}

impl ApiToken {
    /// Assemble a token from its parts
    pub fn from_parts(user: String, issued: i64, key: DeimosTokenKey) -> (token: Self)
        ensures
            token@ == (user@, issued, key@),
    {
        ApiToken { user, issued, key }
    }

    /// Generate a new token for the given username, issued at the given time, with a fresh key of
    /// random bytes from the operating system
    pub fn rand(user: String, issued: i64) -> (res: Result<Self, ApiTokenIssueError>)
        ensures
            res matches Ok(token) ==> token@.0 == user@ && token@.1 == issued && token@.2.len()
                == TOKEN_KEY_BYTES,
            res matches Err(e) ==> e is RandomUnavailable,
    {
        match draw_key() {
            Ok(key) => Ok(Self::from_parts(user, issued, key)),
            Err(e) => Err(e),
        }
    }

    /// Get a protocol buffer representation of the token
    pub fn proto(&self) -> (token: Token)
        ensures
            token.name@ == self@.0,
            token.issued == self@.1,
            token.key@ == self@.2,
    {
        Token { name: self.user.clone(), issued: self.issued, key: self.key.to_bytes() }
    }

    /// Get the randomly-generated key assigned to this token
    pub fn key(&self) -> (key: &DeimosTokenKey)
        ensures
            key@ == self@.2,
    {
        &self.key
    }

    /// Get the username assigned to the token
    pub fn user(&self) -> (user: &str)
        ensures
            user@ == self@.0,
    {
        self.user.as_str()
    }

    /// Get the time, in seconds since the Unix epoch, at which this token was generated
    pub fn issued(&self) -> (issued: i64)
        ensures
            issued == self@.1,
    {
        self.issued
    }
}

impl ApiTokenPending {
    /// Record a request for the given username from the given client address at the given time
    pub fn create(user: String, requester: String, requested_at: i64) -> (request: Self)
        ensures
            request@ == (user@, requested_at, requester@),
    {
        ApiTokenPending { user, requested_at, requester }
    }

    /// Upgrade this request to a full API token for the requested username, issued at the given
    /// time, with a fresh key of random bytes from the operating system
    pub fn upgrade(self, issued: i64) -> (res: Result<ApiToken, ApiTokenIssueError>)
        ensures
            res matches Ok(token) ==> token@.0 == self@.0 && token@.1 == issued && token@.2.len()
                == TOKEN_KEY_BYTES,
            res matches Err(e) ==> e is RandomUnavailable,
    {
        ApiToken::rand(self.user, issued)
    }

    /// The requested username
    pub fn user(&self) -> (user: &str)
        ensures
            user@ == self@.0,
    {
        self.user.as_str()
    }

    /// Get a protobuf representation of this token request
    pub fn proto(&self) -> (request: PendingTokenRequest)
        ensures
            request.username@ == self@.0,
            request.requested_dt == self@.1,
            request.requester_address@ == self@.2,
    {
        PendingTokenRequest {
            username: self.user.clone(),
            requested_dt: self.requested_at,
            requester_address: self.requester.clone(),
        }
    }
}

/// Some pending request is exactly the given one
pub open spec fn has_pending_request(
    pending: Map<Seq<char>, (Seq<char>, i64, Seq<char>)>,
    request: (Seq<char>, i64, Seq<char>),
) -> bool {
    exists|k: Seq<char>| #[trigger] pending.contains_key(k) && pending[k] == request
}

/// An ASCII letter or digit
pub open spec fn is_ascii_alphanumeric(c: char) -> bool {
    ('0' <= c && c <= '9') || ('A' <= c && c <= 'Z') || ('a' <= c && c <= 'z')
}

/// An ASCII punctuation character: the printable ASCII characters that are neither letters,
/// digits nor the space
pub open spec fn is_ascii_punctuation(c: char) -> bool {
    ('!' <= c && c <= '/') || (':' <= c && c <= '@') || ('[' <= c && c <= '`') || ('{' <= c
        && c <= '~')
}

/// A username may hold only ASCII letters, digits and punctuation
pub open spec fn username_allowed(user: Seq<char>) -> bool {
    forall|i: int| 0 <= i < user.len() ==> #[trigger] is_ascii_alphanumeric(user[i])
        || is_ascii_punctuation(user[i])
}

/// The characters a username may hold are exactly the printable ASCII characters other than
/// the space (`'!'` to `'~'`): every ASCII letter of either case, every digit and every
/// punctuation mark is allowed, and nothing else is
pub proof fn law_username_is_printable_ascii(user: Seq<char>)
    ensures
        username_allowed(user) <==> forall|i: int|
            0 <= i < user.len() ==> '!' <= #[trigger] user[i] && user[i] <= '~',
{
    assert forall|c: char| (is_ascii_alphanumeric(c) || is_ascii_punctuation(c)) <==> ('!' <= c
        && c <= '~') by {}
    if username_allowed(user) {
        assert forall|i: int| 0 <= i < user.len() implies '!' <= #[trigger] user[i] && user[i]
            <= '~' by {
            assert(is_ascii_alphanumeric(user[i]) || is_ascii_punctuation(user[i]));
        }
    }
}

/// Some approved token carries the username
pub open spec fn user_has_token(tokens: Map<Seq<char>, (Seq<char>, i64, Seq<u8>)>, user: Seq<char>) -> bool {
    exists|k: Seq<char>| #[trigger] tokens.contains_key(k) && tokens[k].0 == user
}

/// `i` is the first position in `keys` whose base64 text is not the key of an approved token
pub open spec fn first_fresh_key(
    tokens: Map<Seq<char>, (Seq<char>, i64, Seq<u8>)>,
    keys: Seq<DeimosTokenKey>,
    i: int,
) -> bool {
    &&& 0 <= i < keys.len()
    &&& !tokens.contains_key(base64_url_encoding(keys[i]@))
    &&& forall|j: int| 0 <= j < i ==> tokens.contains_key(base64_url_encoding(#[trigger] keys[j]@))
}

fn username_char_allowed(c: char) -> (ok: bool)
    ensures
        ok == (is_ascii_alphanumeric(c) || is_ascii_punctuation(c)),
        ok == ('!' <= c && c <= '~'),
{
    ('0' <= c && c <= '9') || ('A' <= c && c <= 'Z') || ('a' <= c && c <= 'z') || ('!' <= c && c
        <= '/') || (':' <= c && c <= '@') || ('[' <= c && c <= '`') || ('{' <= c && c <= '~')
}

/// Authorization state for the API, tracking all issued tokens and pending requests
pub struct ApiAuthorization {
    /// User-provided configuration
    config: ApiAuthorizationConfig,
    /// A map of base64 token keys to their state
    tokens: DashMap<String, ApiToken>,
    /// Map of all token requests, keyed by username
    pending: DashMap<String, ApiTokenPending>,
}

/// Persistent state loaded from and saved to save files
pub struct ApiAuthorizationPersistent {
    pub tokens: DashMap<String, ApiToken>,
}

impl ApiAuthorizationPersistent {
    /// No token at all
    pub fn empty() -> (persistent: Self)
        ensures
            token_table(persistent.tokens) == Map::<Seq<char>, (Seq<char>, i64, Seq<u8>)>::empty(),
    {
        ApiAuthorizationPersistent { tokens: token_map_new() }
    }

    /// Add a token under the base64 text of its key
    pub fn add(&mut self, token: ApiToken)
        requires
            token@.2.len() <= isize::MAX,
        ensures
            token_table(final(self).tokens) == token_table(old(self).tokens).insert(
                base64_url_encoding(token@.2),
                token@,
            ),
    {
        let key = token.key.to_base64();
        token_map_insert(&mut self.tokens, key, token);
    }
}

impl ApiAuthorization {
    /// The approved tokens, keyed by the base64 text of their keys
    pub closed spec fn tokens(&self) -> Map<Seq<char>, (Seq<char>, i64, Seq<u8>)> {
        token_table(self.tokens)
    }

    /// The pending requests, keyed by username
    pub closed spec fn pending(&self) -> Map<Seq<char>, (Seq<char>, i64, Seq<char>)> {
        pending_table(self.pending)
    }

    /// The configured request timeout, in seconds
    pub closed spec fn timeout(&self) -> u64 {
        self.config.request_timeout
    }

    /// Get persistent state for the token store
    pub fn persistent(&self) -> (persistent: ApiAuthorizationPersistent)
        ensures
            token_table(persistent.tokens) == self.tokens(),
    {
        ApiAuthorizationPersistent { tokens: token_map_clone(&self.tokens) }
    }

    /// Load API authorization state from the given persistent data and user-provided
    /// configuration; no request is pending
    pub fn load(persistent: ApiAuthorizationPersistent, config: ApiAuthorizationConfig) -> (auth: Self)
        ensures
            auth.tokens() == token_table(persistent.tokens),
            auth.pending() == Map::<Seq<char>, (Seq<char>, i64, Seq<char>)>::empty(),
            auth.timeout() == config.request_timeout,
    {
        ApiAuthorization { config, tokens: persistent.tokens, pending: pending_map_new() }
    }

    /// The configured request timeout, in seconds
    pub fn request_timeout(&self) -> (secs: u64)
        ensures
            secs == self.timeout(),
    {
        self.config.request_timeout
    }

    /// Ensure the given username only contains displayable ASCII characters and that it does
    /// not collide with existing tokens or pending requests
    pub fn valid_username(&self, user: &str) -> (res: Result<(), ApiTokenIssueError>)
        ensures
            !username_allowed(user@) ==> res matches Err(ApiTokenIssueError::InvalidUsername),
            username_allowed(user@) && (user_has_token(self.tokens(), user@)
                || self.pending().contains_key(user@)) ==> (res matches Err(
                ApiTokenIssueError::UsernameInUse(u),
            ) && u@ == user@),
            res is Ok <==> username_allowed(user@) && !user_has_token(self.tokens(), user@)
                && !self.pending().contains_key(user@),
    {
        let n = user.unicode_len();
        let mut i: usize = 0;
        while i < n
            invariant
                n == user@.len(),
                i <= n,
                forall|j: int| 0 <= j < i ==> #[trigger] is_ascii_alphanumeric(user@[j])
                    || is_ascii_punctuation(user@[j]),
            decreases n - i,
        {
            if !username_char_allowed(user.get_char(i)) {
                return Err(ApiTokenIssueError::InvalidUsername);
            }
            i = i + 1;
        }
        let users = token_map_users(&self.tokens);
        assert forall|m: int| #![trigger users@[m]] 0 <= m < users@.len() implies user_has_token(
            self.tokens(),
            users@[m]@,
        ) by {
            let k = choose|k: Seq<char>| #[trigger]
                token_table(self.tokens).contains_key(k) && token_table(self.tokens)[k].0
                    == users@[m]@;
            assert(self.tokens().contains_key(k));
        }
        let mut j: usize = 0;
        while j < users.len()
            invariant
                j <= users@.len(),
                username_allowed(user@),
                forall|m: int|
                    #![trigger users@[m]]
                    0 <= m < users@.len() ==> user_has_token(self.tokens(), users@[m]@),
                forall|m: int| 0 <= m < j ==> users@[m]@ != user@,
            decreases users@.len() - j,
        {
            if same_text(users[j].as_str(), user) {
                assert(users@[j as int]@ == user@);
                return Err(ApiTokenIssueError::UsernameInUse(user.to_owned()));
            }
            j = j + 1;
        }
        assert(!user_has_token(self.tokens(), user@)) by {
            if user_has_token(self.tokens(), user@) {
                let k = choose|k: Seq<char>| #[trigger]
                    self.tokens().contains_key(k) && self.tokens()[k].0 == user@;
                assert(token_table(self.tokens).contains_key(k));
            }
        }
        if pending_map_contains(&self.pending, user) {
            return Err(ApiTokenIssueError::UsernameInUse(user.to_owned()));
        }
        Ok(())
    }

    /// Create a new pending token request for the given username from the given client
    /// address, made at the given time; a refused request is not recorded
    pub fn create_request(&mut self, requester: String, user: String, requested_at: i64) -> (res: Result<(), ApiTokenIssueError>)
        ensures
            res is Ok <==> username_allowed(user@) && !user_has_token(old(self).tokens(), user@)
                && !old(self).pending().contains_key(user@),
            !username_allowed(user@) ==> res matches Err(ApiTokenIssueError::InvalidUsername),
            username_allowed(user@) && (user_has_token(old(self).tokens(), user@)
                || old(self).pending().contains_key(user@)) ==> (res matches Err(
                ApiTokenIssueError::UsernameInUse(u),
            ) && u@ == user@),
            final(self).tokens() == old(self).tokens(),
            final(self).timeout() == old(self).timeout(),
            res is Ok ==> final(self).pending() == old(self).pending().insert(
                user@,
                (user@, requested_at, requester@),
            ),
            res is Err ==> final(self).pending() == old(self).pending(),
    {
        match self.valid_username(user.as_str()) {
            Ok(_) => {
                let key = user.clone();
                let request = ApiTokenPending::create(user, requester, requested_at);
                pending_map_insert(&mut self.pending, key, request);
                Ok(())
            },
            Err(e) => Err(e),
        }
    }

    /// Record a token for the given username, issued at the given time with the given key, under
    /// the base64 text of the key; an approved token with the same key text is replaced
    pub fn issue_with_key(&mut self, name: String, issued: i64, key: DeimosTokenKey) -> (token: ApiToken)
        requires
            key@.len() <= isize::MAX,
        ensures
            token@ == (name@, issued, key@),
            final(self).tokens() == old(self).tokens().insert(base64_url_encoding(key@), token@),
            final(self).pending() == old(self).pending(),
            final(self).timeout() == old(self).timeout(),
    {
        let token = ApiToken::from_parts(name, issued, key);
        let text = token.key.to_base64();
        let issued = token.clone();
        token_map_insert(&mut self.tokens, text, token);
        issued
    }

    /// Issue a token for the given username at once, issued at the given time with a fresh key of
    /// random bytes from the operating system, recorded under the base64 text of its key
    pub fn issue(&mut self, name: String, issued: i64) -> (res: Result<ApiToken, ApiTokenIssueError>)
        ensures
            res matches Ok(token) ==> token@.0 == name@ && token@.1 == issued && token@.2.len()
                == TOKEN_KEY_BYTES && final(self).tokens() == old(self).tokens().insert(
                base64_url_encoding(token@.2),
                token@,
            ),
            res matches Err(e) ==> e is RandomUnavailable && final(self).tokens() == old(
                self,
            ).tokens(),
            final(self).pending() == old(self).pending(),
            final(self).timeout() == old(self).timeout(),
    {
        match draw_key() {
            Ok(key) => Ok(self.issue_with_key(name, issued, key)),
            Err(e) => Err(e),
        }
    }

    /// Try to approve the given token request with one key: when the key's base64 text is not
    /// the key of an approved token, the token carries the request's username, the given issue
    /// time and the key, and is recorded under the key's text; otherwise nothing changes and
    /// `None` is returned
    pub fn approve_with_key(&mut self, request: &ApiTokenPending, key: DeimosTokenKey, issued: i64) -> (res: Option<ApiToken>)
        requires
            key@.len() <= isize::MAX,
        ensures
            res is Some <==> !old(self).tokens().contains_key(base64_url_encoding(key@)),
            res matches Some(token) ==> token@ == (request@.0, issued, key@) && final(self).tokens()
                == old(self).tokens().insert(base64_url_encoding(key@), token@),
            res is None ==> final(self).tokens() == old(self).tokens(),
            final(self).pending() == old(self).pending(),
            final(self).timeout() == old(self).timeout(),
    {
        let text = key.to_base64();
        if token_map_contains(&self.tokens, text.as_str()) {
            None
        } else {
            let token = ApiToken::from_parts(request.user.clone(), issued, key);
            let copy = token.clone();
            token_map_insert(&mut self.tokens, text, token);
            Some(copy)
        }
    }

    /// Approve the given token request with the first of the given keys whose base64 text is not
    /// the key of an approved token: the token carries the request's username, the given issue
    /// time and that key, and is recorded under the key's text. When every key is in use, nothing
    /// is recorded and the request is refused with `KeysExhausted`
    pub fn approve_with_keys(&mut self, request: ApiTokenPending, keys: Vec<DeimosTokenKey>, issued: i64) -> (res: Result<ApiToken, ApiTokenIssueError>)
        requires
            forall|i: int| 0 <= i < keys@.len() ==> (#[trigger] keys@[i])@.len() <= isize::MAX,
        ensures
            res is Ok <==> exists|i: int|
                0 <= i < keys@.len() && !old(self).tokens().contains_key(
                    base64_url_encoding(#[trigger] keys@[i]@),
                ),
            res matches Ok(token) ==> exists|i: int|
                #![trigger keys@[i]]
                first_fresh_key(old(self).tokens(), keys@, i) && token@ == (
                    request@.0,
                    issued,
                    keys@[i]@,
                ) && final(self).tokens() == old(self).tokens().insert(
                    base64_url_encoding(keys@[i]@),
                    token@,
                ),
            res matches Err(e) ==> e is KeysExhausted && final(self).tokens() == old(
                self,
            ).tokens(),
            final(self).pending() == old(self).pending(),
            final(self).timeout() == old(self).timeout(),
    {
        let mut n: usize = 0;
        while n < keys.len()
            invariant
                n <= keys@.len(),
                self.tokens() == old(self).tokens(),
                self.pending() == old(self).pending(),
                self.timeout() == old(self).timeout(),
                forall|i: int| 0 <= i < keys@.len() ==> (#[trigger] keys@[i])@.len() <= isize::MAX,
                forall|j: int|
                    0 <= j < n ==> old(self).tokens().contains_key(
                        base64_url_encoding(#[trigger] keys@[j]@),
                    ),
            decreases keys@.len() - n,
        {
            let key = keys[n].clone();
            match self.approve_with_key(&request, key, issued) {
                Some(token) => {
                    assert(first_fresh_key(old(self).tokens(), keys@, n as int));
                    return Ok(token);
                },
                None => {},
            }
            n = n + 1;
        }
        Err(ApiTokenIssueError::KeysExhausted)
    }

    /// Approve the given token request: draw keys of random bytes from the operating system one
    /// at a time, at most `KEY_ATTEMPTS` of them, and approve the request with the first whose
    /// base64 text no approved token has (see `approve_with_key`)
    pub fn approve(&mut self, request: ApiTokenPending, issued: i64) -> (res: Result<ApiToken, ApiTokenIssueError>)
        ensures
            res matches Ok(token) ==> {
                &&& token@.0 == request@.0
                &&& token@.1 == issued
                &&& token@.2.len() == TOKEN_KEY_BYTES
                &&& !old(self).tokens().contains_key(base64_url_encoding(token@.2))
                &&& final(self).tokens() == old(self).tokens().insert(
                    base64_url_encoding(token@.2),
                    token@,
                )
            },
            res matches Err(e) ==> (e is KeysExhausted || e is RandomUnavailable)
                && final(self).tokens() == old(self).tokens(),
            final(self).pending() == old(self).pending(),
            final(self).timeout() == old(self).timeout(),
    {
        let mut attempt: usize = 0;
        while attempt < KEY_ATTEMPTS
            invariant
                self.tokens() == old(self).tokens(),
                self.pending() == old(self).pending(),
                self.timeout() == old(self).timeout(),
            decreases KEY_ATTEMPTS - attempt,
        {
            let key = match draw_key() {
                Ok(key) => key,
                Err(e) => return Err(e),
            };
            match self.approve_with_key(&request, key, issued) {
                Some(token) => return Ok(token),
                None => {},
            }
            attempt = attempt + 1;
        }
        Err(ApiTokenIssueError::KeysExhausted)
    }

    /// Approve the pending request with the given username using the given keys (see
    /// `approve_with_keys`): `None` when no request has that username; otherwise the request is
    /// no longer pending and the outcome of its approval is returned
    pub fn approve_pending_with_keys(&mut self, user: &str, keys: Vec<DeimosTokenKey>, issued: i64) -> (res: Option<Result<ApiToken, ApiTokenIssueError>>)
        requires
            forall|i: int| 0 <= i < keys@.len() ==> (#[trigger] keys@[i])@.len() <= isize::MAX,
        ensures
            res is None <==> !old(self).pending().contains_key(user@),
            final(self).pending() == old(self).pending().remove(user@),
            final(self).timeout() == old(self).timeout(),
            res is Some ==> (res->0 is Ok <==> exists|i: int|
                0 <= i < keys@.len() && !old(self).tokens().contains_key(
                    base64_url_encoding(#[trigger] keys@[i]@),
                )),
            res matches Some(Ok(token)) ==> exists|i: int|
                #![trigger keys@[i]]
                first_fresh_key(old(self).tokens(), keys@, i) && token@ == (
                    old(self).pending()[user@].0,
                    issued,
                    keys@[i]@,
                ) && final(self).tokens() == old(self).tokens().insert(
                    base64_url_encoding(keys@[i]@),
                    token@,
                ),
            res matches Some(Err(e)) ==> e is KeysExhausted,
            !(res matches Some(Ok(_))) ==> final(self).tokens() == old(self).tokens(),
    {
        match pending_map_remove(&mut self.pending, user) {
            Some(request) => Some(self.approve_with_keys(request, keys, issued)),
            None => None,
        }
    }

    /// Approve the pending request with the given username: `None` when no request has that
    /// username; otherwise the request is no longer pending and the outcome of its approval (see
    /// `approve`) is returned
    pub fn approve_pending(&mut self, user: &str, issued: i64) -> (res: Option<Result<ApiToken, ApiTokenIssueError>>)
        ensures
            res is None <==> !old(self).pending().contains_key(user@),
            final(self).pending() == old(self).pending().remove(user@),
            final(self).timeout() == old(self).timeout(),
            res matches Some(Ok(token)) ==> {
                &&& token@.0 == old(self).pending()[user@].0
                &&& token@.1 == issued
                &&& token@.2.len() == TOKEN_KEY_BYTES
                &&& !old(self).tokens().contains_key(base64_url_encoding(token@.2))
                &&& final(self).tokens() == old(self).tokens().insert(
                    base64_url_encoding(token@.2),
                    token@,
                )
            },
            res matches Some(Err(e)) ==> e is KeysExhausted || e is RandomUnavailable,
            !(res matches Some(Ok(_))) ==> final(self).tokens() == old(self).tokens(),
    {
        match pending_map_remove(&mut self.pending, user) {
            Some(request) => Some(self.approve(request, issued)),
            None => None,
        }
    }

    /// Deny the pending request with the given username, which is no longer pending; whether
    /// there was one
    pub fn deny_pending(&mut self, user: &str) -> (found: bool)
        ensures
            found == old(self).pending().contains_key(user@),
            final(self).pending() == old(self).pending().remove(user@),
            final(self).tokens() == old(self).tokens(),
    {
        match pending_map_remove(&mut self.pending, user) {
            Some(_) => true,
            None => false,
        }
    }

    /// The wire form of every pending request
    pub fn pending_requests(&self) -> (requests: Vec<PendingTokenRequest>)
        ensures
            requests@.len() == self.pending().len(),
            forall|i: int|
                #![trigger requests@[i]]
                0 <= i < requests@.len() ==> has_pending_request(
                    self.pending(),
                    (
                        requests@[i].username@,
                        requests@[i].requested_dt,
                        requests@[i].requester_address@,
                    ),
                ),
            forall|k: Seq<char>| #[trigger]
                self.pending().contains_key(k) ==> exists|i: int|
                    0 <= i < requests@.len() && self.pending()[k] == (
                        requests@[i].username@,
                        requests@[i].requested_dt,
                        requests@[i].requester_address@,
                    ),
    {
        let values = pending_map_values(&self.pending);
        let mut out: Vec<PendingTokenRequest> = Vec::new();
        let mut i: usize = 0;
        while i < values.len()
            invariant
                i <= values@.len(),
                out@.len() == i,
                forall|m: int|
                    0 <= m < i ==> (#[trigger] out@[m]).username@ == values@[m]@.0
                        && out@[m].requested_dt == values@[m]@.1 && out@[m].requester_address@
                        == values@[m]@.2,
            decreases values@.len() - i,
        {
            out.push(values[i].proto());
            i = i + 1;
        }
        assert forall|m: int| #![trigger out@[m]] 0 <= m < out@.len() implies has_pending_request(
            self.pending(),
            (out@[m].username@, out@[m].requested_dt, out@[m].requester_address@),
        ) by {
            assert(0 <= m < values@.len());
            let v = values@[m];
            let k = choose|k: Seq<char>| #[trigger]
                pending_table(self.pending).contains_key(k) && pending_table(self.pending)[k]
                    == v@;
            assert(self.pending().contains_key(k) && self.pending()[k] == v@);
        }
        assert forall|k: Seq<char>| #[trigger] self.pending().contains_key(k) implies exists|i: int|
            0 <= i < out@.len() && self.pending()[k] == (
                out@[i].username@,
                out@[i].requested_dt,
                out@[i].requester_address@,
            ) by {
            assert(pending_table(self.pending).contains_key(k));
            let i = choose|i: int|
                0 <= i < values@.len() && values@[i]@ == pending_table(self.pending)[k];
            assert(out@[i].username@ == values@[i]@.0);
        }
        out
    }

    /// Decide whether an API call may proceed: it must carry a token header whose text is the
    /// key of an approved token. `header` is `None` without the header, `Some(None)` when the
    /// header is not readable text
    pub fn authorize(&self, header: Option<Option<&str>>) -> (res: Result<(), AuthorizationError>)
        ensures
            match header {
                None => res == Err::<(), AuthorizationError>(AuthorizationError::MissingHeader),
                Some(None) => res == Err::<(), AuthorizationError>(AuthorizationError::InvalidToken),
                Some(Some(key)) => if self.tokens().contains_key(key@) {
                    res is Ok
                } else {
                    res == Err::<(), AuthorizationError>(AuthorizationError::InvalidToken)
                },
            },
    {
        match header {
            None => Err(AuthorizationError::MissingHeader),
            Some(None) => Err(AuthorizationError::InvalidToken),
            Some(Some(key)) => if token_map_contains(&self.tokens, key) {
                Ok(())
            } else {
                Err(AuthorizationError::InvalidToken)
            },
        }
    }
}

/// Once a token is recorded for a username, the username is taken: a later request for it is
/// refused
pub proof fn law_token_takes_username(
    tokens: Map<Seq<char>, (Seq<char>, i64, Seq<u8>)>,
    key: Seq<char>,
    token: (Seq<char>, i64, Seq<u8>),
)
    ensures
        user_has_token(tokens.insert(key, token), token.0),
{
    assert(tokens.insert(key, token).contains_key(key));
}

} // verus!
