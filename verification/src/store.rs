//! The two stores as the service sees them: what it asks of them, what they
//! answer, and a model of how they behave.

use vstd::prelude::*;
use crate::ident::Id;
use crate::models::Credentials;
use crate::models::CredentialsView;
use crate::models::GetUserData;
use crate::models::GetUserDataView;
use crate::models::User;
use crate::models::UserView;

verus! {

/// A request to one of the two stores.
#[derive(Clone, Debug, PartialEq, Eq)]
pub enum Action {
    /// Credential store: the credentials registered under an email.
    FindByEmail { email: String },
    /// Credential store: the profile of the user with an id.
    FindById { id: Id },
    /// Credential store: add a user, unless the email or the id is taken.
    Insert { user: User },
    /// Session store: bind `value` to `key` for `ttl` seconds.
    SetWithTtl { key: String, value: String, ttl: u64 },
    /// Session store: the value bound to `key`, if it has not expired.
    Get { key: String },
    /// Session store: unbind `key`, whether or not it was bound.
    Delete { key: String },
}

/// What the driver reports back to a state machine.
#[derive(Clone, Debug, PartialEq, Eq)]
pub enum Event {
    /// Nothing was asked yet. A machine in its `Start` state takes no notice
    /// of the event; this is the one to hand it.
    Begin,
    /// The store could not be reached, or did not answer in time.
    Unavailable,
    /// Answer to `FindByEmail`.
    Credentials(Option<Credentials>),
    /// Answer to `FindById`.
    Profile(Option<GetUserData>),
    /// Answer to `Insert`: the record as stored.
    Inserted(User),
    /// Answer to `Insert`: a uniqueness constraint refused the record.
    Duplicate,
    /// Answer to `SetWithTtl`.
    Stored,
    /// Answer to `Delete`.
    Deleted,
    /// Answer to `Get`.
    Value(Option<String>),
}

/// An [`Action`] with its texts as sequences of characters.
pub enum ActionView {
    FindByEmail { email: Seq<char> },
    FindById { id: Id },
    Insert { user: UserView },
    SetWithTtl { key: Seq<char>, value: Seq<char>, ttl: u64 },
    Get { key: Seq<char> },
    Delete { key: Seq<char> },
}

/// An [`Event`] with its texts as sequences of characters.
pub enum EventView {
    Begin,
    Unavailable,
    Credentials(Option<CredentialsView>),
    Profile(Option<GetUserDataView>),
    Inserted(UserView),
    Duplicate,
    Stored,
    Deleted,
    Value(Option<Seq<char>>),
}

impl View for Action {
    type V = ActionView;

    open spec fn view(&self) -> ActionView {
        match *self {
            Action::FindByEmail { email } => ActionView::FindByEmail { email: email@ },
            Action::FindById { id } => ActionView::FindById { id },
            Action::Insert { user } => ActionView::Insert { user: user@ },
            Action::SetWithTtl { key, value, ttl } => ActionView::SetWithTtl {
                key: key@,
                value: value@,
                ttl,
            },
            Action::Get { key } => ActionView::Get { key: key@ },
            Action::Delete { key } => ActionView::Delete { key: key@ },
        }
    }
}

impl View for Event {
    type V = EventView;

    open spec fn view(&self) -> EventView {
        match *self {
            Event::Begin => EventView::Begin,
            Event::Unavailable => EventView::Unavailable,
            Event::Credentials(found) => EventView::Credentials(
                match found {
                    Some(credentials) => Some(credentials@),
                    None => None,
                },
            ),
            Event::Profile(found) => EventView::Profile(
                match found {
                    Some(profile) => Some(profile@),
                    None => None,
                },
            ),
            Event::Inserted(user) => EventView::Inserted(user@),
            Event::Duplicate => EventView::Duplicate,
            Event::Stored => EventView::Stored,
            Event::Deleted => EventView::Deleted,
            Event::Value(found) => EventView::Value(
                match found {
                    Some(value) => Some(value@),
                    None => None,
                },
            ),
        }
    }
}

/// A binding in the session store: a value and the instant, in seconds, from
/// which it is gone.
pub struct Lease {
    pub value: Seq<char>,
    pub expires_at: nat,
}

/// A model of the credential store and the session store while both are
/// reachable. Users are keyed by email; sessions by token text.
pub struct Stores {
    pub users: Map<Seq<char>, UserView>,
    pub sessions: Map<Seq<char>, Lease>,
}

impl Stores {
    /// Every user is filed under its own email, and no two users share an id.
    pub open spec fn wf(self) -> bool {
        &&& forall|email: Seq<char>|
            self.users.contains_key(email) ==> (#[trigger] self.users[email]).email == email
        &&& forall|a: Seq<char>, b: Seq<char>|
            self.users.contains_key(a) && self.users.contains_key(b) && (#[trigger] self.users[a]).id
                == (#[trigger] self.users[b]).id ==> a == b
    }

    /// Whether some user has this id.
    pub open spec fn holds_id(self, id: Id) -> bool {
        exists|email: Seq<char>|
            self.users.contains_key(email) && (#[trigger] self.users[email]).id == id
    }

    /// The user with this id, where there is one.
    pub open spec fn user_with_id(self, id: Id) -> UserView {
        self.users[choose|email: Seq<char>|
            self.users.contains_key(email) && (#[trigger] self.users[email]).id == id]
    }

    /// The value bound to `key` at the instant `now`, unless it has expired.
    pub open spec fn session(self, now: nat, key: Seq<char>) -> Option<Seq<char>> {
        if self.sessions.contains_key(key) && now < self.sessions[key].expires_at {
            Some(self.sessions[key].value)
        } else {
            None
        }
    }

    /// The stores after an action performed at the instant `now`, and the
    /// answer to it.
    pub open spec fn perform(self, now: nat, action: ActionView) -> (Stores, EventView) {
        match action {
            ActionView::FindByEmail { email } => (
                self,
                EventView::Credentials(
                    if self.users.contains_key(email) {
                        Some(self.users[email].credentials())
                    } else {
                        None
                    },
                ),
            ),
            ActionView::FindById { id } => (
                self,
                EventView::Profile(
                    if self.holds_id(id) {
                        Some(self.user_with_id(id).profile())
                    } else {
                        None
                    },
                ),
            ),
            ActionView::Insert { user } => if self.users.contains_key(user.email) || self.holds_id(
                user.id,
            ) {
                (self, EventView::Duplicate)
            } else {
                (
                    Stores { users: self.users.insert(user.email, user), sessions: self.sessions },
                    EventView::Inserted(user),
                )
            },
            ActionView::SetWithTtl { key, value, ttl } => (
                Stores {
                    users: self.users,
                    sessions: self.sessions.insert(
                        key,
                        Lease { value, expires_at: now + ttl as nat },
                    ),
                },
                EventView::Stored,
            ),
            ActionView::Get { key } => (self, EventView::Value(self.session(now, key))),
            ActionView::Delete { key } => (
                Stores { users: self.users, sessions: self.sessions.remove(key) },
                EventView::Deleted,
            ),
        }
    }
}

/// Whatever is asked of well-formed stores leaves them well-formed: every
/// user stays filed under its own email, and ids stay unique.
pub proof fn law_stores_stay_well_formed(stores: Stores, now: nat, action: ActionView)
    requires
        stores.wf(),
    ensures
        stores.perform(now, action).0.wf(),
{
    let after = stores.perform(now, action).0;
    match action {
        ActionView::Insert { user } => {
            if !(stores.users.contains_key(user.email) || stores.holds_id(user.id)) {
                assert forall|a: Seq<char>, b: Seq<char>|
                    after.users.contains_key(a) && after.users.contains_key(b) && (
                    #[trigger] after.users[a]).id == (#[trigger] after.users[b]).id implies a
                    == b by {
                    if a != b {
                        if a == user.email {
                            assert(stores.users.contains_key(b) && stores.users[b].id == user.id);
                        } else if b == user.email {
                            assert(stores.users.contains_key(a) && stores.users[a].id == user.id);
                        }
                    }
                }
            }
        },
        _ => {},
    }
}

} // verus!
