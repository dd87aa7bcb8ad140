use std::collections::HashMap;

use session_auth::ident::Id;
use session_auth::machine::Step;
use session_auth::models::AuthError;
use session_auth::session::delete_session;
use session_auth::session::get_user_id;
use session_auth::session::rotate_session;
use session_auth::session::rotate_to;
use session_auth::session::set_session;
use session_auth::session::DeleteSession;
use session_auth::session::GetUserId;
use session_auth::session::RotateSession;
use session_auth::session::SetSession;
use session_auth::store::Action;
use session_auth::store::Event;

/// A session store in memory with a clock that the test sets.
struct Sessions {
    entries: HashMap<String, (String, u64)>,
    now: u64,
    up: bool,
    fail_after: Option<usize>,
    performed: Vec<Action>,
}

impl Sessions {
    fn new() -> Sessions {
        Sessions { entries: HashMap::new(), now: 1000, up: true, fail_after: None, performed: Vec::new() }
    }

    fn perform(&mut self, action: Action) -> Event {
        self.performed.push(action.clone());
        if let Some(left) = self.fail_after {
            if left == 0 {
                return Event::Unavailable;
            }
            self.fail_after = Some(left - 1);
        }
        if !self.up {
            return Event::Unavailable;
        }
        match action {
            Action::SetWithTtl { key, value, ttl } => {
                self.entries.insert(key, (value, self.now + ttl));
                Event::Stored
            }
            Action::Get { key } => Event::Value(match self.entries.get(&key) {
                Some((value, expires_at)) if self.now < *expires_at => Some(value.clone()),
                _ => None,
            }),
            Action::Delete { key } => {
                self.entries.remove(&key);
                Event::Deleted
            }
            _ => Event::Unavailable,
        }
    }

    fn drive<S, T>(&mut self, machine: fn(S, Event) -> Step<S, T>, start: S) -> Result<T, AuthError> {
        let mut step = machine(start, Event::Begin);
        loop {
            match step {
                Step::Ask { action, state } => {
                    let event = self.perform(action);
                    step = machine(state, event);
                }
                Step::Done(result) => return Ok(result),
                Step::Failed(error) => return Err(error),
            }
        }
    }

    fn create(&mut self, session_id: Id, user_id: Id, expires_in: u64) -> Result<(), AuthError> {
        self.drive(set_session, SetSession::Start { session_id, user_id, expires_in })
    }

    fn resolve(&mut self, session_id: Id) -> Result<Option<String>, AuthError> {
        self.drive(get_user_id, GetUserId::Start { session_id })
    }

    fn rotate(&mut self, session_id: Id, user_id: Id, expires_in: u64) -> Result<String, AuthError> {
        self.drive(rotate_session, RotateSession::Start { session_id, user_id, expires_in })
    }

    fn invalidate(&mut self, session_id: Id) -> Result<(), AuthError> {
        self.drive(delete_session, DeleteSession::Start { session_id })
    }
}

fn token() -> Id {
    Id { bits: 0xa1a2a3a4b1b2c1c2d1d2d3d4d5d6d7d8 }
}

fn user() -> Id {
    Id { bits: 0x0123456789abcdeffedcba9876543210 }
}

const TOKEN_TEXT: &str = "a1a2a3a4-b1b2-c1c2-d1d2-d3d4d5d6d7d8";
const USER_TEXT: &str = "01234567-89ab-cdef-fedc-ba9876543210";

#[test]
fn id_text_is_hyphenated_lower_case_hex() {
    assert_eq!(token().to_text(), TOKEN_TEXT);
    assert_eq!(user().to_text(), USER_TEXT);
    assert_eq!(Id { bits: 0 }.to_text(), "00000000-0000-0000-0000-000000000000");
    assert_eq!(Id { bits: u128::MAX }.to_text(), "ffffffff-ffff-ffff-ffff-ffffffffffff");
    assert_eq!(Id { bits: 1 }.to_text(), "00000000-0000-0000-0000-000000000001");
    assert_eq!(Id { bits: 1 << 127 }.to_text(), "80000000-0000-0000-0000-000000000000");
}

#[test]
fn id_parse_reads_the_forms_of_an_identifier() {
    assert_eq!(Id::parse(TOKEN_TEXT), Some(token()));
    assert_eq!(Id::parse("A1A2A3A4-B1B2-C1C2-D1D2-D3D4D5D6D7D8"), Some(token()));
    assert_eq!(Id::parse("a1a2a3a4b1b2c1c2d1d2d3d4d5d6d7d8"), Some(token()));
    assert_eq!(Id::parse("{a1a2a3a4-b1b2-c1c2-d1d2-d3d4d5d6d7d8}"), Some(token()));
    assert_eq!(Id::parse("urn:uuid:a1a2a3a4-b1b2-c1c2-d1d2-d3d4d5d6d7d8"), Some(token()));
}

#[test]
fn id_parse_refuses_what_is_no_identifier() {
    assert_eq!(Id::parse(""), None);
    assert_eq!(Id::parse("not-a-token"), None);
    assert_eq!(Id::parse("a1a2a3a4-b1b2-c1c2-d1d2-d3d4d5d6d7d"), None);
    assert_eq!(Id::parse("g1a2a3a4-b1b2-c1c2-d1d2-d3d4d5d6d7d8"), None);
}

#[test]
fn id_text_reads_back_as_the_same_id() {
    let id = Id::random();
    assert_eq!(Id::parse(&id.to_text()), Some(id));
}

#[test]
fn random_ids_carry_version_and_variant() {
    let first = Id::random();
    let second = Id::random();
    assert_ne!(first, second);
    for id in [first, second] {
        assert_eq!(id.bits & 0xF000_C000_0000_0000_0000, 0x4000_8000_0000_0000_0000);
        let parsed = uuid::Uuid::from_u128(id.bits);
        assert_eq!(parsed.get_version_num(), 4);
    }
}

#[test]
fn set_session_asks_for_the_binding() {
    let step = set_session(
        SetSession::Start { session_id: token(), user_id: user(), expires_in: 600 },
        Event::Begin,
    );
    assert_eq!(
        step,
        Step::Ask {
            action: Action::SetWithTtl {
                key: TOKEN_TEXT.to_string(),
                value: USER_TEXT.to_string(),
                ttl: 600,
            },
            state: SetSession::Storing,
        }
    );
}

#[test]
fn set_session_ends_with_the_store_s_answer() {
    assert_eq!(set_session(SetSession::Storing, Event::Stored), Step::Done(()));
    assert_eq!(
        set_session(SetSession::Storing, Event::Unavailable),
        Step::Failed(AuthError::StoreUnavailable)
    );
    assert_eq!(
        set_session(SetSession::Storing, Event::Deleted),
        Step::Failed(AuthError::StoreUnavailable)
    );
    assert_eq!(
        set_session(SetSession::Storing, Event::Begin),
        Step::Failed(AuthError::StoreUnavailable)
    );
}

#[test]
fn get_user_id_asks_then_hands_the_value_on() {
    assert_eq!(
        get_user_id(GetUserId::Start { session_id: token() }, Event::Begin),
        Step::Ask { action: Action::Get { key: TOKEN_TEXT.to_string() }, state: GetUserId::Reading }
    );
    assert_eq!(
        get_user_id(GetUserId::Reading, Event::Value(Some(USER_TEXT.to_string()))),
        Step::Done(Some(USER_TEXT.to_string()))
    );
    assert_eq!(get_user_id(GetUserId::Reading, Event::Value(None)), Step::Done(None));
}

#[test]
fn get_user_id_never_takes_a_failure_for_absence() {
    assert_eq!(
        get_user_id(GetUserId::Reading, Event::Unavailable),
        Step::Failed(AuthError::StoreUnavailable)
    );
    assert_eq!(
        get_user_id(GetUserId::Reading, Event::Stored),
        Step::Failed(AuthError::StoreUnavailable)
    );
}

#[test]
fn delete_session_asks_then_ends() {
    assert_eq!(
        delete_session(DeleteSession::Start { session_id: token() }, Event::Begin),
        Step::Ask {
            action: Action::Delete { key: TOKEN_TEXT.to_string() },
            state: DeleteSession::Deleting,
        }
    );
    assert_eq!(delete_session(DeleteSession::Deleting, Event::Deleted), Step::Done(()));
    assert_eq!(
        delete_session(DeleteSession::Deleting, Event::Unavailable),
        Step::Failed(AuthError::StoreUnavailable)
    );
}

#[test]
fn rotate_to_binds_the_given_token() {
    assert_eq!(
        rotate_to(token(), user(), 600),
        Step::Ask {
            action: Action::SetWithTtl {
                key: TOKEN_TEXT.to_string(),
                value: USER_TEXT.to_string(),
                ttl: 600,
            },
            state: RotateSession::Storing { new_session_id: token() },
        }
    );
}

#[test]
fn rotate_session_deletes_before_it_binds() {
    let first = rotate_session(
        RotateSession::Start { session_id: token(), user_id: user(), expires_in: 600 },
        Event::Begin,
    );
    assert_eq!(
        first,
        Step::Ask {
            action: Action::Delete { key: TOKEN_TEXT.to_string() },
            state: RotateSession::Deleting { user_id: user(), expires_in: 600 },
        }
    );
    let second = rotate_session(RotateSession::Deleting { user_id: user(), expires_in: 600 }, Event::Deleted);
    match second {
        Step::Ask { action: Action::SetWithTtl { key, value, ttl }, state: RotateSession::Storing { new_session_id } } => {
            assert_eq!(key, new_session_id.to_text());
            assert_ne!(new_session_id, token());
            assert_eq!(value, USER_TEXT);
            assert_eq!(ttl, 600);
            assert_eq!(uuid::Uuid::from_u128(new_session_id.bits).get_version_num(), 4);
            assert_eq!(
                rotate_session(RotateSession::Storing { new_session_id }, Event::Stored),
                Step::Done(key)
            );
        }
        other => panic!("unexpected step {:?}", other),
    }
}

#[test]
fn rotate_session_fails_closed() {
    assert_eq!(
        rotate_session(RotateSession::Deleting { user_id: user(), expires_in: 600 }, Event::Unavailable),
        Step::Failed(AuthError::StoreUnavailable)
    );
    assert_eq!(
        rotate_session(RotateSession::Storing { new_session_id: token() }, Event::Unavailable),
        Step::Failed(AuthError::StoreUnavailable)
    );
    let mut store = Sessions::new();
    store.create(token(), user(), 600).unwrap();
    store.fail_after = Some(1);
    assert_eq!(store.rotate(token(), user(), 600), Err(AuthError::StoreUnavailable));
    store.fail_after = None;
    assert_eq!(store.resolve(token()), Ok(None));
    assert!(store.entries.is_empty());
}

#[test]
fn created_session_resolves_to_its_user() {
    let mut store = Sessions::new();
    assert_eq!(store.create(token(), user(), 600), Ok(()));
    assert_eq!(store.resolve(token()), Ok(Some(USER_TEXT.to_string())));
    assert_eq!(store.resolve(user()), Ok(None));
}

#[test]
fn session_expires_when_its_lifetime_has_elapsed() {
    let mut store = Sessions::new();
    store.create(token(), user(), 600).unwrap();
    store.now += 599;
    assert_eq!(store.resolve(token()), Ok(Some(USER_TEXT.to_string())));
    store.now += 1;
    assert_eq!(store.resolve(token()), Ok(None));
}

#[test]
fn session_with_no_lifetime_never_resolves() {
    let mut store = Sessions::new();
    store.create(token(), user(), 0).unwrap();
    assert_eq!(store.resolve(token()), Ok(None));
}

#[test]
fn resolving_does_not_extend_the_lifetime() {
    let mut store = Sessions::new();
    store.create(token(), user(), 10).unwrap();
    store.now += 9;
    assert_eq!(store.resolve(token()), Ok(Some(USER_TEXT.to_string())));
    assert_eq!(store.entries[TOKEN_TEXT], (USER_TEXT.to_string(), 1010));
    store.now += 1;
    assert_eq!(store.resolve(token()), Ok(None));
}

#[test]
fn rotation_replaces_the_token() {
    let mut store = Sessions::new();
    store.create(token(), user(), 600).unwrap();
    store.now += 500;
    let new_text = store.rotate(token(), user(), 600).unwrap();
    let new_token = Id::parse(&new_text).unwrap();
    assert_ne!(new_token, token());
    assert_eq!(store.resolve(token()), Ok(None));
    assert_eq!(store.resolve(new_token), Ok(Some(USER_TEXT.to_string())));
    store.now += 599;
    assert_eq!(store.resolve(new_token), Ok(Some(USER_TEXT.to_string())));
    store.now += 1;
    assert_eq!(store.resolve(new_token), Ok(None));
    assert_eq!(store.entries.len(), 1);
}

#[test]
fn invalidating_twice_never_fails() {
    let mut store = Sessions::new();
    store.create(token(), user(), 600).unwrap();
    assert_eq!(store.invalidate(token()), Ok(()));
    assert_eq!(store.resolve(token()), Ok(None));
    assert_eq!(store.invalidate(token()), Ok(()));
    assert_eq!(store.invalidate(user()), Ok(()));
    assert!(store.entries.is_empty());
}

#[test]
fn unreachable_store_is_reported_as_such() {
    let mut store = Sessions::new();
    store.up = false;
    assert_eq!(store.create(token(), user(), 600), Err(AuthError::StoreUnavailable));
    assert_eq!(store.resolve(token()), Err(AuthError::StoreUnavailable));
    assert_eq!(store.rotate(token(), user(), 600), Err(AuthError::StoreUnavailable));
    assert_eq!(store.invalidate(token()), Err(AuthError::StoreUnavailable));
    assert_eq!(store.performed.len(), 4);
}
