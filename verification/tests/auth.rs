use deimos::auth::{
    ApiAuthorization, ApiAuthorizationConfig, ApiAuthorizationPersistent, ApiToken,
    ApiTokenIssueError, ApiTokenPending, AuthorizationError, TOKEN_KEY_BYTES,
};
use deimos::token_key::DeimosTokenKey;

fn fresh() -> ApiAuthorization {
    ApiAuthorization::load(ApiAuthorizationPersistent::empty(), ApiAuthorizationConfig::default())
}

#[test]
fn default_timeout_is_thirty_minutes() {
    assert_eq!(ApiAuthorizationConfig::default_token_timeout(), 1800);
    assert_eq!(fresh().request_timeout(), 1800);
}

#[test]
fn usernames_must_be_ascii_letters_digits_or_punctuation() {
    let auth = fresh();
    assert!(auth.valid_username("alice").is_ok());
    assert!(auth.valid_username("bob_99!").is_ok());
    assert!(auth.valid_username("").is_ok());
    assert!(matches!(auth.valid_username("with space"), Err(ApiTokenIssueError::InvalidUsername)));
    assert!(matches!(auth.valid_username("tab\there"), Err(ApiTokenIssueError::InvalidUsername)));
    assert!(matches!(auth.valid_username("émile"), Err(ApiTokenIssueError::InvalidUsername)));
}

#[test]
fn pending_username_is_taken() {
    let mut auth = fresh();
    assert!(auth.create_request("10.0.0.2".to_owned(), "alice".to_owned(), 1700000000).is_ok());
    match auth.create_request("10.0.0.3".to_owned(), "alice".to_owned(), 1700000000) {
        Err(ApiTokenIssueError::UsernameInUse(u)) => assert_eq!(u, "alice"),
        _ => panic!("expected username in use"),
    }
    let listed = auth.pending_requests();
    assert_eq!(listed.len(), 1);
    assert_eq!(listed[0].username, "alice");
    assert_eq!(listed[0].requester_address, "10.0.0.2");
}

#[test]
fn invalid_request_is_not_recorded() {
    let mut auth = fresh();
    assert!(matches!(
        auth.create_request("10.0.0.2".to_owned(), "bad name".to_owned(), 1700000000),
        Err(ApiTokenIssueError::InvalidUsername)
    ));
    assert!(auth.pending_requests().is_empty());
}

#[test]
fn approving_issues_a_token_that_authorizes() {
    let mut auth = fresh();
    auth.create_request("10.0.0.2".to_owned(), "alice".to_owned(), 1700000000).unwrap();
    let token = auth.approve_pending("alice", 1700000100).unwrap().unwrap();
    assert_eq!(token.user(), "alice");
    assert_eq!(token.issued(), 1700000100);
    assert_eq!(token.key().as_bytes().len(), TOKEN_KEY_BYTES);
    assert!(auth.pending_requests().is_empty());
    let header = token.key().to_base64();
    assert!(auth.authorize(Some(Some(header.as_str()))).is_ok());
    assert!(matches!(
        auth.valid_username("alice"),
        Err(ApiTokenIssueError::UsernameInUse(_))
    ));
}

#[test]
fn approving_unknown_request_finds_nothing() {
    let mut auth = fresh();
    assert!(auth.approve_pending("nobody", 1700000100).is_none());
}

#[test]
fn deny_removes_the_request() {
    let mut auth = fresh();
    auth.create_request("10.0.0.2".to_owned(), "carol".to_owned(), 1700000000).unwrap();
    assert!(auth.deny_pending("carol"));
    assert!(!auth.deny_pending("carol"));
    assert!(auth.valid_username("carol").is_ok());
}

#[test]
fn authorization_errors() {
    let mut auth = fresh();
    let token = auth.issue("dave".to_owned(), 1700000000).unwrap();
    assert_eq!(
        auth.authorize(None),
        Err(AuthorizationError::MissingHeader)
    );
    assert_eq!(auth.authorize(Some(None)), Err(AuthorizationError::InvalidToken));
    assert_eq!(
        auth.authorize(Some(Some("not-a-token"))),
        Err(AuthorizationError::InvalidToken)
    );
    let key = token.key().to_base64();
    assert_eq!(auth.authorize(Some(Some(key.as_str()))), Ok(()));
}

#[test]
fn saved_tokens_reload() {
    let mut auth = fresh();
    let token = auth.issue("erin".to_owned(), 1700000000).unwrap();
    let saved = auth.persistent();
    let reloaded = ApiAuthorization::load(saved, ApiAuthorizationConfig { request_timeout: 5 });
    let key = token.key().to_base64();
    assert!(reloaded.authorize(Some(Some(key.as_str()))).is_ok());
    assert!(matches!(reloaded.valid_username("erin"), Err(ApiTokenIssueError::UsernameInUse(_))));
    assert_eq!(reloaded.request_timeout(), 5);
}

#[test]
fn persistent_add_files_token_under_its_key_text() {
    let mut saved = ApiAuthorizationPersistent::empty();
    let key = DeimosTokenKey::from_bytes(vec![0xfb, 0xff]);
    saved.add(ApiToken::from_parts("frank".to_owned(), 1700000000, key));
    let auth = ApiAuthorization::load(saved, ApiAuthorizationConfig::default());
    assert!(auth.authorize(Some(Some("-_8="))).is_ok());
}

#[test]
fn token_and_request_wire_forms() {
    let token = ApiToken::from_parts("gina".to_owned(), 42, DeimosTokenKey::from_bytes(vec![1, 2]));
    let proto = token.proto();
    assert_eq!(proto.name, "gina");
    assert_eq!(proto.issued, 42);
    assert_eq!(proto.key, vec![1, 2]);
    assert_eq!(token.issued(), 42);
    let request = ApiTokenPending::create("hal".to_owned(), "192.168.1.7".to_owned(), 99);
    assert_eq!(request.user(), "hal");
    let proto = request.proto();
    assert_eq!(proto.username, "hal");
    assert_eq!(proto.requested_dt, 99);
    assert_eq!(proto.requester_address, "192.168.1.7");
}

#[test]
fn issue_error_messages() {
    assert_eq!(
        ApiTokenIssueError::UsernameInUse("ivy".to_owned()).message(),
        "A token with username 'ivy' already exists"
    );
    assert_eq!(
        ApiTokenIssueError::InvalidUsername.message(),
        "Username is not ASCII or contains whitespace"
    );
}

#[test]
fn random_tokens_differ() {
    let a = ApiToken::rand("x".to_owned(), 7).unwrap();
    let b = ApiToken::rand("x".to_owned(), 7).unwrap();
    assert_ne!(a.key().as_bytes(), b.key().as_bytes());
    assert_eq!(a.issued(), 7);
    assert_eq!(a.user(), "x");
}

#[test]
fn denial_messages_and_upgrade() {
    assert_eq!(
        ApiTokenIssueError::InvalidUsername.denial_message(),
        "Token request denied: Username is not ASCII or contains whitespace"
    );
    let request = ApiTokenPending::create("jo".to_owned(), "::1".to_owned(), 5);
    let token = request.upgrade(11).unwrap();
    assert_eq!(token.user(), "jo");
    assert_eq!(token.issued(), 11);
    assert_eq!(token.key().as_bytes().len(), TOKEN_KEY_BYTES);
}

fn request(user: &str) -> ApiTokenPending {
    ApiTokenPending::create(user.to_owned(), "10.0.0.9".to_owned(), 1)
}

fn keys(list: &[&[u8]]) -> Vec<DeimosTokenKey> {
    list.iter().map(|k| DeimosTokenKey::from_bytes(k.to_vec())).collect()
}

#[test]
fn approve_with_keys_takes_first_key_not_in_use() {
    let mut auth = fresh();
    let taken = auth.issue_with_key("kim".to_owned(), 3, DeimosTokenKey::from_bytes(vec![1, 2, 3]));
    assert_eq!(taken.key().to_base64(), "AQID");
    let token = auth
        .approve_with_keys(request("lee"), keys(&[&[1, 2, 3], &[4, 5, 6], &[7, 8, 9]]), 20)
        .unwrap();
    assert_eq!(token.user(), "lee");
    assert_eq!(token.issued(), 20);
    assert_eq!(token.key().as_bytes(), &[4, 5, 6]);
    assert!(auth.authorize(Some(Some("BAUG"))).is_ok());
    assert!(auth.authorize(Some(Some("BwgJ"))).is_err());
    assert!(matches!(auth.valid_username("kim"), Err(ApiTokenIssueError::UsernameInUse(_))));
}

#[test]
fn approve_with_keys_all_in_use_is_refused() {
    let mut auth = fresh();
    auth.issue_with_key("kim".to_owned(), 3, DeimosTokenKey::from_bytes(vec![1, 2, 3]));
    let res = auth.approve_with_keys(request("lee"), keys(&[&[1, 2, 3], &[1, 2, 3]]), 20);
    assert!(matches!(res, Err(ApiTokenIssueError::KeysExhausted)));
    assert!(auth.valid_username("lee").is_ok());
    let none = auth.approve_with_keys(request("lee"), Vec::new(), 20);
    assert!(matches!(none, Err(ApiTokenIssueError::KeysExhausted)));
}

#[test]
fn approve_pending_with_keys_removes_the_request() {
    let mut auth = fresh();
    auth.create_request("10.0.0.2".to_owned(), "max".to_owned(), 5).unwrap();
    assert!(auth.approve_pending_with_keys("nobody", keys(&[&[9]]), 6).is_none());
    let token = auth.approve_pending_with_keys("max", keys(&[&[9]]), 6).unwrap().unwrap();
    assert_eq!(token.user(), "max");
    assert_eq!(token.issued(), 6);
    assert_eq!(token.key().as_bytes(), &[9]);
    assert!(auth.pending_requests().is_empty());
    assert!(auth.authorize(Some(Some("CQ=="))).is_ok());
}

#[test]
fn create_request_records_time_and_requester() {
    let mut auth = fresh();
    auth.create_request("10.1.2.3".to_owned(), "ned".to_owned(), 12345).unwrap();
    let listed = auth.pending_requests();
    assert_eq!(listed.len(), 1);
    assert_eq!(listed[0].username, "ned");
    assert_eq!(listed[0].requested_dt, 12345);
    assert_eq!(listed[0].requester_address, "10.1.2.3");
}

#[test]
fn random_unavailable_message() {
    assert_eq!(
        ApiTokenIssueError::RandomUnavailable.message(),
        "No random bytes could be read for the token key"
    );
    assert_eq!(
        ApiTokenIssueError::KeysExhausted.message(),
        "Every generated token key collided with an existing token"
    );
}

#[test]
fn approve_with_key_checks_one_key() {
    let mut auth = fresh();
    auth.issue_with_key("kim".to_owned(), 3, DeimosTokenKey::from_bytes(vec![1, 2, 3]));
    let req = request("lee");
    assert!(auth.approve_with_key(&req, DeimosTokenKey::from_bytes(vec![1, 2, 3]), 9).is_none());
    assert!(matches!(auth.valid_username("lee"), Ok(())));
    let token = auth.approve_with_key(&req, DeimosTokenKey::from_bytes(vec![4, 5, 6]), 9).unwrap();
    assert_eq!(token.user(), "lee");
    assert_eq!(token.issued(), 9);
    assert!(auth.authorize(Some(Some("BAUG"))).is_ok());
}

#[test]
fn approve_draws_a_fresh_key() {
    let mut auth = fresh();
    let token = auth.approve(request("mia"), 30).unwrap();
    assert_eq!(token.user(), "mia");
    assert_eq!(token.issued(), 30);
    assert_eq!(token.key().as_bytes().len(), TOKEN_KEY_BYTES);
    assert_eq!(token.key().to_base64().len(), 88);
}
