//! The records that the service stores, receives and returns.

use vstd::prelude::*;
use crate::ident::Id;

verus! {

/// A registered user as the credential store holds it. The password is kept
/// only as a salted hash.
#[derive(Clone, Debug, PartialEq, Eq)]
pub struct User {
    pub id: Id,
    pub first_name: String,
    pub last_name: String,
    pub email: String,
    pub password_hash: String,
}

/// What a new user supplies to register.
#[derive(Clone, Debug, PartialEq, Eq)]
pub struct Registration {
    pub email: String,
    pub password: String,
    pub first_name: String,
    pub last_name: String,
}

/// What a user supplies to log in.
#[derive(Clone, Debug, PartialEq, Eq)]
pub struct Login {
    pub email: String,
    pub password: String,
}

/// What a user supplies to log out: the session token as text.
#[derive(Clone, Debug, PartialEq, Eq)]
pub struct Logout {
    pub session_id: String,
}

/// The part of a user record that a login is checked against.
#[derive(Clone, Debug, PartialEq, Eq)]
pub struct Credentials {
    pub id: Id,
    pub email: String,
    pub password_hash: String,
}

/// The part of a user record that is shown to its owner. It never holds the
/// password hash.
#[derive(Clone, Debug, PartialEq, Eq)]
pub struct GetUserData {
    pub id: Id,
    pub email: String,
    pub first_name: String,
    pub last_name: String,
}

/// A user's data together with the session token that replaces the one the
/// request came with.
#[derive(Clone, Debug, PartialEq, Eq)]
pub struct Profile {
    pub data: GetUserData,
    pub session_id: String,
}

/// Why an operation did not succeed.
#[derive(Clone, Copy, Debug, PartialEq, Eq, Structural)]
pub enum AuthError {
    /// The email is already registered.
    Conflict,
    /// Bad credentials, or a session token that is malformed, unknown or
    /// expired.
    Unauthorized,
    /// The credential store failed, a record is inconsistent, or hashing
    /// failed.
    InternalError,
    /// The session store could not be reached or did not answer the command.
    StoreUnavailable,
}

/// A [`User`] with its texts as sequences of characters.
pub struct UserView {
    pub id: Id,
    pub first_name: Seq<char>,
    pub last_name: Seq<char>,
    pub email: Seq<char>,
    pub password_hash: Seq<char>,
}

/// A [`Registration`] with its texts as sequences of characters.
pub struct RegistrationView {
    pub email: Seq<char>,
    pub password: Seq<char>,
    pub first_name: Seq<char>,
    pub last_name: Seq<char>,
}

/// A [`Login`] with its texts as sequences of characters.
pub struct LoginView {
    pub email: Seq<char>,
    pub password: Seq<char>,
}

/// A [`Logout`] with its texts as sequences of characters.
pub struct LogoutView {
    pub session_id: Seq<char>,
}

/// A [`Credentials`] with its texts as sequences of characters.
pub struct CredentialsView {
    pub id: Id,
    pub email: Seq<char>,
    pub password_hash: Seq<char>,
}

/// A [`GetUserData`] with its texts as sequences of characters.
pub struct GetUserDataView {
    pub id: Id,
    pub email: Seq<char>,
    pub first_name: Seq<char>,
    pub last_name: Seq<char>,
}

/// A [`Profile`] with its texts as sequences of characters.
pub struct ProfileView {
    pub data: GetUserDataView,
    pub session_id: Seq<char>,
}

impl View for User {
    type V = UserView;

    open spec fn view(&self) -> UserView {
        UserView {
            id: self.id,
            first_name: self.first_name@,
            last_name: self.last_name@,
            email: self.email@,
            password_hash: self.password_hash@,
        }
    }
}

impl DeepView for User {
    type V = UserView;

    open spec fn deep_view(&self) -> UserView {
        self@
    }
}

impl View for Registration {
    type V = RegistrationView;

    open spec fn view(&self) -> RegistrationView {
        RegistrationView {
            email: self.email@,
            password: self.password@,
            first_name: self.first_name@,
            last_name: self.last_name@,
        }
    }
}

impl View for Login {
    type V = LoginView;

    open spec fn view(&self) -> LoginView {
        LoginView { email: self.email@, password: self.password@ }
    }
}

impl View for Logout {
    type V = LogoutView;

    open spec fn view(&self) -> LogoutView {
        LogoutView { session_id: self.session_id@ }
    }
}

impl View for Credentials {
    type V = CredentialsView;

    open spec fn view(&self) -> CredentialsView {
        CredentialsView { id: self.id, email: self.email@, password_hash: self.password_hash@ }
    }
}

impl View for GetUserData {
    type V = GetUserDataView;

    open spec fn view(&self) -> GetUserDataView {
        GetUserDataView {
            id: self.id,
            email: self.email@,
            first_name: self.first_name@,
            last_name: self.last_name@,
        }
    }
}

impl View for Profile {
    type V = ProfileView;

    open spec fn view(&self) -> ProfileView {
        ProfileView { data: self.data@, session_id: self.session_id@ }
    }
}

impl DeepView for Profile {
    type V = ProfileView;

    open spec fn deep_view(&self) -> ProfileView {
        self@
    }
}

impl UserView {
    /// The projection that a login is checked against.
    pub open spec fn credentials(self) -> CredentialsView {
        CredentialsView { id: self.id, email: self.email, password_hash: self.password_hash }
    }

    /// The projection shown to the user, without the password hash.
    pub open spec fn profile(self) -> GetUserDataView {
        GetUserDataView {
            id: self.id,
            email: self.email,
            first_name: self.first_name,
            last_name: self.last_name,
        }
    }
}

} // verus!
