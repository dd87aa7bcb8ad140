//! The authentication service: registration, login, logout and the profile
//! of the logged-in user, each as a state machine over the two stores.

use vstd::prelude::*;
use crate::ident::Id;
use crate::ident::lemma_random_layout_inhabited;
use crate::ident::lemma_text_injective;
use crate::ident::lemma_text_reads_back;
use crate::ident::is_id_text;
use crate::ident::parse_text;
use crate::machine::Step;
use crate::machine::StepView;
use crate::machine::run;
use crate::models::AuthError;
use crate::models::GetUserData;
use crate::models::GetUserDataView;
use crate::models::Login;
use crate::models::LoginView;
use crate::models::Logout;
use crate::models::LogoutView;
use crate::models::Profile;
use crate::models::ProfileView;
use crate::models::Registration;
use crate::models::RegistrationView;
use crate::models::User;
use crate::models::UserView;
use crate::password::argon2_hash;
use crate::password::password_matches;
use crate::password::embeds_salt;
use crate::password::hash_outcome;
use crate::password::hash_password;
use crate::password::is_fresh_salt;
use crate::password::verify_password;
use crate::session::DeleteSession;
use crate::session::GetUserId;
use crate::session::RotateSession;
use crate::session::SetSession;
use crate::session::delete_session;
use crate::session::delete_session_next;
use crate::session::get_user_id;
use crate::session::get_user_id_next;
use crate::session::rotate_session;
use crate::session::rotate_session_next;
use crate::session::set_session;
use crate::session::set_session_next;
use crate::store::Action;
use crate::store::ActionView;
use crate::store::Event;
use crate::store::EventView;
use crate::store::Lease;
use crate::store::Stores;
use crate::store::law_stores_stay_well_formed;

verus! {

/// The lifetime of a session, in seconds, counted from login and again from
/// each rotation.
pub const SESSION_TTL: u64 = 600;

/// Progress of a registration.
#[derive(Clone, Debug, PartialEq, Eq)]
pub enum CreateUserState {
    Start(Registration),
    Looking(Registration),
    Inserting,
}

/// Progress of a login.
#[derive(Clone, Debug, PartialEq, Eq)]
pub enum LoginState {
    Start(Login),
    Looking { password: String },
    Opening { session_id: Id, store: SetSession },
}

/// Progress of a logout.
#[derive(Clone, Debug, PartialEq, Eq)]
pub enum LogoutState {
    Start(Logout),
    Closing(DeleteSession),
}

/// Progress of fetching the profile behind a session cookie.
#[derive(Clone, Debug, PartialEq, Eq)]
pub enum GetUserDataState {
    Start { cookie: Option<String> },
    Resolving { session_id: Id, lookup: GetUserId },
    Loading { session_id: Id },
    Rotating { profile: GetUserData, rotation: RotateSession },
}

/// A [`CreateUserState`] with its texts as sequences of characters.
pub enum CreateUserStateView {
    Start(RegistrationView),
    Looking(RegistrationView),
    Inserting,
}

/// A [`LoginState`] with its texts as sequences of characters.
pub enum LoginStateView {
    Start(LoginView),
    Looking { password: Seq<char> },
    Opening { session_id: Id, store: SetSession },
}

/// A [`LogoutState`] with its texts as sequences of characters.
pub enum LogoutStateView {
    Start(LogoutView),
    Closing(DeleteSession),
}

/// A [`GetUserDataState`] with its texts as sequences of characters.
pub enum GetUserDataStateView {
    Start { cookie: Option<Seq<char>> },
    Resolving { session_id: Id, lookup: GetUserId },
    Loading { session_id: Id },
    Rotating { profile: GetUserDataView, rotation: RotateSession },
}

impl View for CreateUserState {
    type V = CreateUserStateView;

    open spec fn view(&self) -> CreateUserStateView {
        match *self {
            CreateUserState::Start(registration) => CreateUserStateView::Start(registration@),
            CreateUserState::Looking(registration) => CreateUserStateView::Looking(registration@),
            CreateUserState::Inserting => CreateUserStateView::Inserting,
        }
    }
}

impl View for LoginState {
    type V = LoginStateView;

    open spec fn view(&self) -> LoginStateView {
        match *self {
            LoginState::Start(request) => LoginStateView::Start(request@),
            LoginState::Looking { password } => LoginStateView::Looking { password: password@ },
            LoginState::Opening { session_id, store } => LoginStateView::Opening {
                session_id,
                store,
            },
        }
    }
}

impl View for LogoutState {
    type V = LogoutStateView;

    open spec fn view(&self) -> LogoutStateView {
        match *self {
            LogoutState::Start(request) => LogoutStateView::Start(request@),
            LogoutState::Closing(removal) => LogoutStateView::Closing(removal),
        }
    }
}

impl View for GetUserDataState {
    type V = GetUserDataStateView;

    open spec fn view(&self) -> GetUserDataStateView {
        match *self {
            GetUserDataState::Start { cookie } => GetUserDataStateView::Start {
                cookie: match cookie {
                    Some(text) => Some(text@),
                    None => None,
                },
            },
            GetUserDataState::Resolving { session_id, lookup } => GetUserDataStateView::Resolving {
                session_id,
                lookup,
            },
            GetUserDataState::Loading { session_id } => GetUserDataStateView::Loading {
                session_id,
            },
            GetUserDataState::Rotating { profile, rotation } => GetUserDataStateView::Rotating {
                profile: profile@,
                rotation,
            },
        }
    }
}

// ----- registration -----

/// The step that follows hashing: the insertion of the new record, or
/// `InternalError` where hashing failed.
pub open spec fn enroll_next(
    registration: RegistrationView,
    hashed: Option<Seq<char>>,
    id: Id,
) -> StepView<CreateUserStateView, UserView> {
    match hashed {
        Some(password_hash) => StepView::Ask {
            action: ActionView::Insert {
                user: UserView {
                    id,
                    first_name: registration.first_name,
                    last_name: registration.last_name,
                    email: registration.email,
                    password_hash,
                },
            },
            state: CreateUserStateView::Inserting,
        },
        None => StepView::Failed(AuthError::InternalError),
    }
}

/// The transition of [`create_user`], where `hashed` is what hashing the
/// password gave and `id` the identifier drawn for the new user.
pub open spec fn create_user_next(
    state: CreateUserStateView,
    event: EventView,
    hashed: Option<Seq<char>>,
    id: Id,
) -> StepView<CreateUserStateView, UserView> {
    match state {
        CreateUserStateView::Start(registration) => StepView::Ask {
            action: ActionView::FindByEmail { email: registration.email },
            state: CreateUserStateView::Looking(registration),
        },
        CreateUserStateView::Looking(registration) => match event {
            EventView::Credentials(Some(_)) => StepView::Failed(AuthError::Conflict),
            EventView::Credentials(None) => enroll_next(registration, hashed, id),
            _ => StepView::Failed(AuthError::InternalError),
        },
        CreateUserStateView::Inserting => match event {
            EventView::Inserted(user) => StepView::Done(user),
            EventView::Duplicate => StepView::Failed(AuthError::Conflict),
            _ => StepView::Failed(AuthError::InternalError),
        },
    }
}

/// The password that a registration in progress still has to hash.
pub open spec fn create_user_password(state: CreateUserStateView) -> Seq<char> {
    match state {
        CreateUserStateView::Start(registration) => registration.password,
        CreateUserStateView::Looking(registration) => registration.password,
        CreateUserStateView::Inserting => Seq::empty(),
    }
}

/// Builds the record of a new user from the registration, the hash of the
/// password and the identifier drawn for the user, and asks for its
/// insertion. Where hashing failed, the registration fails with
/// `InternalError`. The plain password goes no further.
pub fn enroll(registration: Registration, hashed: Option<String>, id: Id) -> (step: Step<
    CreateUserState,
    User,
>)
    ensures
        step@ == enroll_next(registration@, hashed.deep_view(), id),
{
    match hashed {
        Some(password_hash) => Step::Ask {
            action: Action::Insert {
                user: User {
                    id,
                    first_name: registration.first_name,
                    last_name: registration.last_name,
                    email: registration.email,
                    password_hash,
                },
            },
            state: CreateUserState::Inserting,
        },
        None => Step::Failed(AuthError::InternalError),
    }
}

/// Registers a user.
///
/// Looks the email up first and fails with `Conflict` where it is taken.
/// Otherwise hashes the password under a fresh salt, draws an identifier and
/// asks for the insertion of the record; the record as stored is the result.
/// An insertion that the store refuses for uniqueness is a `Conflict` too. A
/// store that fails, or a password that cannot be hashed, is an
/// `InternalError`. The hash in the record embeds its salt and accepts the
/// password it was made from.
pub fn create_user(state: CreateUserState, event: Event) -> (step: Step<CreateUserState, User>)
    ensures
        exists|salt: Seq<char>, id: Id|
            {
                &&& is_fresh_salt(salt)
                &&& id.is_random()
                &&& step@ == #[trigger] create_user_next(
                    state@,
                    event@,
                    argon2_hash(create_user_password(state@), salt),
                    id,
                )
                &&& step@ matches StepView::Ask { action: ActionView::Insert { user }, .. }
                    ==> embeds_salt(user.password_hash, salt)
            },
        step@ matches StepView::Ask { action: ActionView::Insert { user }, .. } ==> password_matches(
            user.password_hash,
            create_user_password(state@),
        ),
{
    let ghost before = state@;
    let ghost given = event@;
    let ghost mut salt = Seq::new(22, |i: int| 'A');
    let ghost mut drawn = lemma_random_layout_inhabited();
    let step = match state {
        CreateUserState::Start(registration) => Step::Ask {
            action: Action::FindByEmail { email: registration.email.clone() },
            state: CreateUserState::Looking(registration),
        },
        CreateUserState::Looking(registration) => match event {
            Event::Credentials(Some(_)) => Step::Failed(AuthError::Conflict),
            Event::Credentials(None) => {
                let attempt = hash_password(registration.password.as_str());
                let id = Id::random();
                proof {
                    salt = choose|salt: Seq<char>|
                        {
                            &&& is_fresh_salt(salt)
                            &&& hash_outcome(attempt) == #[trigger] argon2_hash(
                                registration.password@,
                                salt,
                            )
                            &&& attempt matches Ok(text) ==> embeds_salt(text@, salt)
                        };
                    drawn = id;
                }
                let hashed = match attempt {
                    Ok(password_hash) => Some(password_hash),
                    Err(_) => None,
                };
                enroll(registration, hashed, id)
            },
            _ => Step::Failed(AuthError::InternalError),
        },
        CreateUserState::Inserting => match event {
            Event::Inserted(user) => Step::Done(user),
            Event::Duplicate => Step::Failed(AuthError::Conflict),
            _ => Step::Failed(AuthError::InternalError),
        },
    };
    assert(is_fresh_salt(salt));
    assert(step@ == create_user_next(
        before,
        given,
        argon2_hash(create_user_password(before), salt),
        drawn,
    ));
    step
}

// ----- login -----

/// A step of binding the new session, seen as a step of the login.
pub open spec fn opening_next(session_id: Id, inner: StepView<SetSession, ()>) -> StepView<
    LoginStateView,
    Seq<char>,
> {
    match inner {
        StepView::Ask { action, state } => StepView::Ask {
            action,
            state: LoginStateView::Opening { session_id, store: state },
        },
        StepView::Done(_) => StepView::Done(session_id.text()),
        StepView::Failed(error) => StepView::Failed(error),
    }
}

/// The step that follows the password check: for an accepted password the
/// binding of the session `session_id` to the user, else `Unauthorized`.
pub open spec fn open_session_next(user_id: Id, accepted: bool, session_id: Id) -> StepView<
    LoginStateView,
    Seq<char>,
> {
    if accepted {
        opening_next(
            session_id,
            set_session_next(
                SetSession::Start { session_id, user_id, expires_in: SESSION_TTL },
                EventView::Begin,
            ),
        )
    } else {
        StepView::Failed(AuthError::Unauthorized)
    }
}

/// The transition of [`login`], where `accepted` tells whether the password
/// matched the stored hash and `session_id` is the token drawn for the new
/// session.
pub open spec fn login_next(
    state: LoginStateView,
    event: EventView,
    accepted: bool,
    session_id: Id,
) -> StepView<LoginStateView, Seq<char>> {
    match state {
        LoginStateView::Start(request) => StepView::Ask {
            action: ActionView::FindByEmail { email: request.email },
            state: LoginStateView::Looking { password: request.password },
        },
        LoginStateView::Looking { password } => match event {
            EventView::Credentials(Some(found)) => open_session_next(
                found.id,
                accepted,
                session_id,
            ),
            EventView::Credentials(None) => StepView::Failed(AuthError::Unauthorized),
            _ => StepView::Failed(AuthError::InternalError),
        },
        LoginStateView::Opening { session_id, store } => opening_next(
            session_id,
            set_session_next(store, event),
        ),
    }
}

/// Whether the password of a login in progress matches the hash in the
/// credentials that were just found.
pub open spec fn login_accepts(state: LoginStateView, event: EventView) -> bool {
    match (state, event) {
        (
            LoginStateView::Looking { password },
            EventView::Credentials(Some(found)),
        ) => password_matches(found.password_hash, password),
        _ => false,
    }
}

/// Carries a step of binding the session over into the login.
fn opening(session_id: Id, inner: Step<SetSession, ()>) -> (step: Step<LoginState, String>)
    ensures
        step@ == opening_next(session_id, inner@),
{
    match inner {
        Step::Ask { action, state } => Step::Ask {
            action,
            state: LoginState::Opening { session_id, store: state },
        },
        Step::Done(_) => Step::Done(session_id.to_text()),
        Step::Failed(error) => Step::Failed(error),
    }
}

/// Decides a login once the password was checked: opens the session
/// `session_id` for the user where the password was accepted, and fails with
/// `Unauthorized` where it was not.
pub fn open_session(user_id: Id, accepted: bool, session_id: Id) -> (step: Step<
    LoginState,
    String,
>)
    ensures
        step@ == open_session_next(user_id, accepted, session_id),
{
    if accepted {
        opening(
            session_id,
            set_session(
                SetSession::Start { session_id, user_id, expires_in: SESSION_TTL },
                Event::Begin,
            ),
        )
    } else {
        Step::Failed(AuthError::Unauthorized)
    }
}

/// Logs a user in.
///
/// Fetches the credentials registered under the email and checks the
/// password against the stored hash. An unknown email and a wrong password
/// both fail with `Unauthorized`. On a match a random session token is drawn
/// and bound to the user for [`SESSION_TTL`] seconds; its text is the result.
/// A credential store that fails is an `InternalError`, a session store that
/// fails `StoreUnavailable`.
pub fn login(state: LoginState, event: Event) -> (step: Step<LoginState, String>)
    ensures
        exists|session_id: Id|
            session_id.is_random() && step@ == #[trigger] login_next(
                state@,
                event@,
                login_accepts(state@, event@),
                session_id,
            ),
        step@ matches StepView::Done(token) ==> is_id_text(token) && parse_text(token) is Some,
{
    let ghost before = state@;
    let ghost given = event@;
    let ghost mut drawn = lemma_random_layout_inhabited();
    let step = match state {
        LoginState::Start(request) => Step::Ask {
            action: Action::FindByEmail { email: request.email },
            state: LoginState::Looking { password: request.password },
        },
        LoginState::Looking { password } => match event {
            Event::Credentials(Some(found)) => {
                let accepted = verify_password(found.password_hash.as_str(), password.as_str());
                let session_id = Id::random();
                proof {
                    drawn = session_id;
                }
                open_session(found.id, accepted, session_id)
            },
            Event::Credentials(None) => Step::Failed(AuthError::Unauthorized),
            _ => Step::Failed(AuthError::InternalError),
        },
        LoginState::Opening { session_id, store } => opening(
            session_id,
            set_session(store, event),
        ),
    };
    assert(step@ == login_next(before, given, login_accepts(before, given), drawn));
    step
}

// ----- logout -----

/// A step of removing the session, seen as a step of the logout. Whether the
/// store removed the session or failed, the logout is done.
pub open spec fn closing_next(inner: StepView<DeleteSession, ()>) -> StepView<LogoutStateView, ()> {
    match inner {
        StepView::Ask { action, state } => StepView::Ask {
            action,
            state: LogoutStateView::Closing(state),
        },
        _ => StepView::Done(()),
    }
}

/// The step that follows parsing the token: the removal of the session, or
/// `Unauthorized` for a token that is no identifier.
pub open spec fn close_session_next(parsed: Option<Id>) -> StepView<LogoutStateView, ()> {
    match parsed {
        Some(session_id) => closing_next(
            delete_session_next(DeleteSession::Start { session_id }, EventView::Begin),
        ),
        None => StepView::Failed(AuthError::Unauthorized),
    }
}

/// The transition of [`logout`], where `parsed` is the identifier read from
/// the token.
pub open spec fn logout_next(state: LogoutStateView, event: EventView, parsed: Option<Id>) -> StepView<
    LogoutStateView,
    (),
> {
    match state {
        LogoutStateView::Start(_) => close_session_next(parsed),
        LogoutStateView::Closing(removal) => closing_next(delete_session_next(removal, event)),
    }
}

/// The identifier that a logout in its first step reads from its token.
pub open spec fn logout_parsed(state: LogoutStateView) -> Option<Id> {
    match state {
        LogoutStateView::Start(request) => Id::parsed(parse_text(request.session_id)),
        LogoutStateView::Closing(_) => None,
    }
}

/// Carries a step of removing the session over into the logout.
fn closing(inner: Step<DeleteSession, ()>) -> (step: Step<LogoutState, ()>)
    ensures
        step@ == closing_next(inner@),
{
    match inner {
        Step::Ask { action, state } => Step::Ask { action, state: LogoutState::Closing(state) },
        _ => Step::Done(()),
    }
}

/// Decides a logout once the token was parsed: asks for the removal of the
/// session, or fails with `Unauthorized` where the token was malformed.
pub fn close_session(parsed: Option<Id>) -> (step: Step<LogoutState, ()>)
    ensures
        step@ == close_session_next(parsed),
{
    match parsed {
        Some(session_id) => closing(
            delete_session(DeleteSession::Start { session_id }, Event::Begin),
        ),
        None => Step::Failed(AuthError::Unauthorized),
    }
}

/// Logs a user out.
///
/// A token that is no identifier is refused with `Unauthorized`. Otherwise
/// the session is removed from the store, and the logout succeeds whether
/// the session existed or not, and even where the store failed.
pub fn logout(state: LogoutState, event: Event) -> (step: Step<LogoutState, ()>)
    ensures
        step@ == logout_next(state@, event@, logout_parsed(state@)),
{
    match state {
        LogoutState::Start(request) => close_session(Id::parse(request.session_id.as_str())),
        LogoutState::Closing(removal) => closing(delete_session(removal, event)),
    }
}

// ----- profile -----

/// The identifier read from the value that a lookup found, if it found one.
pub open spec fn resolving_parsed(inner: StepView<GetUserId, Option<Seq<char>>>) -> Option<Id> {
    match inner {
        StepView::Done(Some(text)) => Id::parsed(parse_text(text)),
        _ => None,
    }
}

/// A step of looking the session up, seen as a step of fetching the
/// profile, where `user_id` is the identifier read from the stored value.
pub open spec fn resolving_next(
    session_id: Id,
    inner: StepView<GetUserId, Option<Seq<char>>>,
    user_id: Option<Id>,
) -> StepView<GetUserDataStateView, ProfileView> {
    match inner {
        StepView::Ask { action, state } => StepView::Ask {
            action,
            state: GetUserDataStateView::Resolving { session_id, lookup: state },
        },
        StepView::Done(Some(_)) => load_profile_next(session_id, user_id),
        StepView::Done(None) => StepView::Failed(AuthError::Unauthorized),
        StepView::Failed(error) => StepView::Failed(error),
    }
}

/// The step that follows parsing the cookie: the lookup of the session, or
/// `Unauthorized` for a cookie that is no identifier.
pub open spec fn resolve_cookie_next(parsed: Option<Id>) -> StepView<
    GetUserDataStateView,
    ProfileView,
> {
    match parsed {
        Some(session_id) => resolving_next(
            session_id,
            get_user_id_next(GetUserId::Start { session_id }, EventView::Begin),
            None,
        ),
        None => StepView::Failed(AuthError::Unauthorized),
    }
}

/// The step that follows parsing the value of the session: the lookup of the
/// user's profile, or `InternalError` for a value that is no identifier.
pub open spec fn load_profile_next(session_id: Id, user_id: Option<Id>) -> StepView<
    GetUserDataStateView,
    ProfileView,
> {
    match user_id {
        Some(id) => StepView::Ask {
            action: ActionView::FindById { id },
            state: GetUserDataStateView::Loading { session_id },
        },
        None => StepView::Failed(AuthError::InternalError),
    }
}

/// A step of the rotation, seen as a step of fetching the profile.
pub open spec fn rotating_next(
    profile: GetUserDataView,
    inner: StepView<RotateSession, Seq<char>>,
) -> StepView<GetUserDataStateView, ProfileView> {
    match inner {
        StepView::Ask { action, state } => StepView::Ask {
            action,
            state: GetUserDataStateView::Rotating { profile, rotation: state },
        },
        StepView::Done(session_id) => StepView::Done(ProfileView { data: profile, session_id }),
        StepView::Failed(error) => StepView::Failed(error),
    }
}

/// The transition of [`get_user_data`], where `parsed` is the identifier
/// read in this step, from the cookie or from the value of the session, and
/// `fresh` is the token drawn by the rotation.
pub open spec fn get_user_data_next(
    state: GetUserDataStateView,
    event: EventView,
    parsed: Option<Id>,
    fresh: Id,
) -> StepView<GetUserDataStateView, ProfileView> {
    match state {
        GetUserDataStateView::Start { cookie } => match cookie {
            Some(_) => resolve_cookie_next(parsed),
            None => StepView::Failed(AuthError::Unauthorized),
        },
        GetUserDataStateView::Resolving { session_id, lookup } => resolving_next(
            session_id,
            get_user_id_next(lookup, event),
            parsed,
        ),
        GetUserDataStateView::Loading { session_id } => match event {
            EventView::Profile(Some(profile)) => rotating_next(
                profile,
                rotate_session_next(
                    RotateSession::Start {
                        session_id,
                        user_id: profile.id,
                        expires_in: SESSION_TTL,
                    },
                    EventView::Begin,
                    fresh,
                ),
            ),
            _ => StepView::Failed(AuthError::InternalError),
        },
        GetUserDataStateView::Rotating { profile, rotation } => rotating_next(
            profile,
            rotate_session_next(rotation, event, fresh),
        ),
    }
}

/// The identifier that a step of fetching the profile reads: from the
/// cookie at the start, from the value of the session once it was found.
pub open spec fn get_user_data_parsed(state: GetUserDataStateView, event: EventView) -> Option<
    Id,
> {
    match state {
        GetUserDataStateView::Start { cookie: Some(text) } => Id::parsed(parse_text(text)),
        GetUserDataStateView::Resolving { session_id, lookup } => resolving_parsed(
            get_user_id_next(lookup, event),
        ),
        _ => None,
    }
}

/// Carries a step of the lookup over into the fetch, reading the user's id
/// from the value once it is found.
fn resolving(session_id: Id, inner: Step<GetUserId, Option<String>>) -> (step: Step<
    GetUserDataState,
    Profile,
>)
    ensures
        step@ == resolving_next(session_id, inner@, resolving_parsed(inner@)),
{
    match inner {
        Step::Ask { action, state } => Step::Ask {
            action,
            state: GetUserDataState::Resolving { session_id, lookup: state },
        },
        Step::Done(Some(text)) => load_profile(session_id, Id::parse(text.as_str())),
        Step::Done(None) => Step::Failed(AuthError::Unauthorized),
        Step::Failed(error) => Step::Failed(error),
    }
}

/// Carries a step of the rotation over into the fetch.
fn rotating(profile: GetUserData, inner: Step<RotateSession, String>) -> (step: Step<
    GetUserDataState,
    Profile,
>)
    ensures
        step@ == rotating_next(profile@, inner@),
{
    match inner {
        Step::Ask { action, state } => Step::Ask {
            action,
            state: GetUserDataState::Rotating { profile, rotation: state },
        },
        Step::Done(session_id) => Step::Done(Profile { data: profile, session_id }),
        Step::Failed(error) => Step::Failed(error),
    }
}

/// Decides the fetch once the cookie was parsed: asks for the session's
/// value, or fails with `Unauthorized` where the cookie was malformed.
pub fn resolve_cookie(parsed: Option<Id>) -> (step: Step<GetUserDataState, Profile>)
    ensures
        step@ == resolve_cookie_next(parsed),
{
    match parsed {
        Some(session_id) => resolving(
            session_id,
            get_user_id(GetUserId::Start { session_id }, Event::Begin),
        ),
        None => Step::Failed(AuthError::Unauthorized),
    }
}

/// Decides the fetch once the session's value was parsed: asks for the
/// profile of the user it names, or fails with `InternalError` where the
/// value was no identifier.
pub fn load_profile(session_id: Id, user_id: Option<Id>) -> (step: Step<
    GetUserDataState,
    Profile,
>)
    ensures
        step@ == load_profile_next(session_id, user_id),
{
    match user_id {
        Some(id) => Step::Ask {
            action: Action::FindById { id },
            state: GetUserDataState::Loading { session_id },
        },
        None => Step::Failed(AuthError::InternalError),
    }
}

/// Fetches the profile of the user behind a session cookie and rotates the
/// session.
///
/// A missing or malformed cookie, and a session that is unknown or expired,
/// fail with `Unauthorized`. A session whose user cannot be loaded fails
/// with `InternalError`. On success the old token is removed and a new
/// random token is bound to the same user for [`SESSION_TTL`] seconds; the
/// result is the profile together with the new token's text. A session store
/// that fails is reported as `StoreUnavailable`.
pub fn get_user_data(state: GetUserDataState, event: Event) -> (step: Step<
    GetUserDataState,
    Profile,
>)
    ensures
        exists|fresh: Id|
            fresh.is_random() && step@ == #[trigger] get_user_data_next(
                state@,
                event@,
                get_user_data_parsed(state@, event@),
                fresh,
            ),
        step@ matches StepView::Done(profile) ==> is_id_text(profile.session_id) && parse_text(
            profile.session_id,
        ) is Some,
{
    let ghost before = state@;
    let ghost given = event@;
    let ghost mut drawn = lemma_random_layout_inhabited();
    let step = match state {
        GetUserDataState::Start { cookie } => match cookie {
            Some(text) => resolve_cookie(Id::parse(text.as_str())),
            None => Step::Failed(AuthError::Unauthorized),
        },
        GetUserDataState::Resolving { session_id, lookup } => resolving(
            session_id,
            get_user_id(lookup, event),
        ),
        GetUserDataState::Loading { session_id } => match event {
            Event::Profile(Some(profile)) => {
                let start = RotateSession::Start {
                    session_id,
                    user_id: profile.id,
                    expires_in: SESSION_TTL,
                };
                let inner = rotate_session(start, Event::Begin);
                proof {
                    drawn = choose|fresh: Id|
                        fresh.is_random() && inner@ == #[trigger] rotate_session_next(
                            start,
                            EventView::Begin,
                            fresh,
                        );
                }
                rotating(profile, inner)
            },
            _ => Step::Failed(AuthError::InternalError),
        },
        GetUserDataState::Rotating { profile, rotation } => {
            let inner = rotate_session(rotation, event);
            proof {
                drawn = choose|fresh: Id|
                    fresh.is_random() && inner@ == #[trigger] rotate_session_next(
                        rotation,
                        given,
                        fresh,
                    );
            }
            rotating(profile, inner)
        },
    };
    assert(step@ == get_user_data_next(
        before,
        given,
        get_user_data_parsed(before, given),
        drawn,
    ));
    step
}

// ----- laws -----

/// The stores and the outcome after a registration was carried out at the
/// instant `now`, where hashing gave `hashed` and `id` was drawn for the
/// user.
pub open spec fn registered(
    stores: Stores,
    now: nat,
    registration: RegistrationView,
    hashed: Option<Seq<char>>,
    id: Id,
) -> (Stores, StepView<CreateUserStateView, UserView>) {
    run(
        |state: CreateUserStateView, event: EventView| create_user_next(state, event, hashed, id),
        CreateUserStateView::Start(registration),
        EventView::Begin,
        stores,
        now,
        2,
    )
}

/// The stores and the outcome after a login was carried out at the instant
/// `now`, where `session_id` was drawn for the session. The password is
/// checked against the hash that the credential store hands back.
pub open spec fn logged_in(stores: Stores, now: nat, request: LoginView, session_id: Id) -> (
    Stores,
    StepView<LoginStateView, Seq<char>>,
) {
    run(
        |state: LoginStateView, event: EventView|
            login_next(state, event, login_accepts(state, event), session_id),
        LoginStateView::Start(request),
        EventView::Begin,
        stores,
        now,
        2,
    )
}

/// The record that a registration stores.
pub open spec fn new_user(registration: RegistrationView, password_hash: Seq<char>, id: Id) -> UserView {
    UserView {
        id,
        first_name: registration.first_name,
        last_name: registration.last_name,
        email: registration.email,
        password_hash,
    }
}

/// An email registers once. Where the email and the drawn id are not yet in
/// the store and hashing succeeds, the registration succeeds with the new
/// record and the store gains exactly that record. A later registration
/// under the same email fails with `Conflict`, whatever else it holds, and
/// leaves the store as it was: one user with that email.
pub proof fn law_email_registers_once(
    stores: Stores,
    first: RegistrationView,
    password_hash: Seq<char>,
    id: Id,
    second: RegistrationView,
    hashed_again: Option<Seq<char>>,
    id_again: Id,
    at: nat,
    later: nat,
)
    requires
        stores.wf(),
        !stores.users.contains_key(first.email),
        !stores.holds_id(id),
        second.email == first.email,
    ensures
        ({
            let user = new_user(first, password_hash, id);
            let (after, outcome) = registered(stores, at, first, Some(password_hash), id);
            let (last, again) = registered(after, later, second, hashed_again, id_again);
            &&& outcome == StepView::<CreateUserStateView, UserView>::Done(user)
            &&& after.users == stores.users.insert(first.email, user)
            &&& after.sessions == stores.sessions
            &&& after.wf()
            &&& forall|email: Seq<char>|
                after.users.contains_key(email) && (#[trigger] after.users[email]).email
                    == first.email ==> email == first.email && after.users[email] == user
            &&& again == StepView::<CreateUserStateView, UserView>::Failed(AuthError::Conflict)
            &&& last == after
        }),
{
    reveal_with_fuel(run, 3);
    let user = new_user(first, password_hash, id);
    law_stores_stay_well_formed(stores, at, ActionView::Insert { user });
}

/// A login that is refused says the same whether the email is unknown or the
/// password is wrong, and opens no session.
pub proof fn law_refused_logins_alike(stores: Stores, request: LoginView, session_id: Id, at: nat)
    ensures
        !stores.users.contains_key(request.email) || !password_matches(
            stores.users[request.email].password_hash,
            request.password,
        ) ==> logged_in(stores, at, request, session_id) == (
            stores,
            StepView::<LoginStateView, Seq<char>>::Failed(AuthError::Unauthorized),
        ),
{
    reveal_with_fuel(run, 3);
}

/// A login with the password that the stored hash accepts gives the text of
/// a session token, and binds that token to the user for [`SESSION_TTL`]
/// seconds.
pub proof fn law_login_opens_session(
    stores: Stores,
    request: LoginView,
    session_id: Id,
    at: nat,
    later: nat,
)
    requires
        stores.users.contains_key(request.email),
        at <= later < at + SESSION_TTL,
    ensures
        password_matches(stores.users[request.email].password_hash, request.password) ==> ({
            let (after, outcome) = logged_in(stores, at, request, session_id);
            &&& outcome == StepView::<LoginStateView, Seq<char>>::Done(session_id.text())
            &&& after.users == stores.users
            &&& after.sessions == stores.sessions.insert(
                session_id.text(),
                Lease {
                    value: stores.users[request.email].id.text(),
                    expires_at: at + SESSION_TTL as nat,
                },
            )
            &&& after.session(later, session_id.text()) == Some(
                stores.users[request.email].id.text(),
            )
        }),
{
    reveal_with_fuel(run, 3);
}

/// The stores and the outcome after a logout was carried out at the instant
/// `now`.
pub open spec fn logged_out(stores: Stores, now: nat, request: LogoutView) -> (
    Stores,
    StepView<LogoutStateView, ()>,
) {
    run(
        |state: LogoutStateView, event: EventView|
            logout_next(state, event, logout_parsed(state)),
        LogoutStateView::Start(request),
        EventView::Begin,
        stores,
        now,
        1,
    )
}

/// The stores and the outcome after the profile behind `cookie` was fetched
/// at the instant `now`, where `fresh` was drawn as the new token.
pub open spec fn fetched(stores: Stores, now: nat, cookie: Option<Seq<char>>, fresh: Id) -> (
    Stores,
    StepView<GetUserDataStateView, ProfileView>,
) {
    run(
        |state: GetUserDataStateView, event: EventView|
            get_user_data_next(state, event, get_user_data_parsed(state, event), fresh),
        GetUserDataStateView::Start { cookie },
        EventView::Begin,
        stores,
        now,
        4,
    )
}

/// A logout with the text of a token succeeds whether or not the session
/// exists, and from then on the token resolves to nothing. So does a logout
/// with any other text that reads as the token. A text that reads as no
/// identifier is refused and changes nothing.
pub proof fn law_logout_ends_session(
    stores: Stores,
    request: LogoutView,
    session_id: Id,
    at: nat,
    later: nat,
)
    ensures
        request.session_id == session_id.text() || parse_text(request.session_id) == Some(
            session_id.bits,
        ) ==> ({
            let (after, outcome) = logged_out(stores, at, request);
            &&& outcome == StepView::<LogoutStateView, ()>::Done(())
            &&& after.users == stores.users
            &&& after.sessions == stores.sessions.remove(session_id.text())
            &&& after.session(later, session_id.text()) is None
        }),
        parse_text(request.session_id) is None ==> logged_out(stores, at, request) == (
            stores,
            StepView::<LogoutStateView, ()>::Failed(AuthError::Unauthorized),
        ),
{
    reveal_with_fuel(run, 2);
    lemma_text_reads_back(session_id.bits);
}

/// Fetching the profile with the token of a live session gives the profile
/// of the session's user and the text of a new token. From then on the old
/// token resolves to nothing, and the new one resolves to the same user for
/// [`SESSION_TTL`] seconds. Stated for a new token that differs from the old
/// one.
pub proof fn law_fetch_rotates_session(
    stores: Stores,
    session_id: Id,
    user: UserView,
    fresh: Id,
    at: nat,
    later: nat,
)
    requires
        stores.wf(),
        stores.users.contains_key(user.email),
        stores.users[user.email] == user,
        stores.session(at, session_id.text()) == Some(user.id.text()),
        fresh != session_id,
        at <= later,
    ensures
        ({
            let (after, outcome) = fetched(stores, at, Some(session_id.text()), fresh);
            &&& outcome == StepView::<GetUserDataStateView, ProfileView>::Done(
                ProfileView { data: user.profile(), session_id: fresh.text() },
            )
            &&& after.users == stores.users
            &&& after.sessions == stores.sessions.remove(session_id.text()).insert(
                fresh.text(),
                Lease { value: user.id.text(), expires_at: at + SESSION_TTL as nat },
            )
            &&& after.session(later, session_id.text()) is None
            &&& later < at + SESSION_TTL ==> after.session(later, fresh.text()) == Some(
                user.id.text(),
            )
        }),
{
    reveal_with_fuel(run, 5);
    lemma_text_reads_back(session_id.bits);
    lemma_text_reads_back(user.id.bits);
    assert(stores.holds_id(user.id));
    assert(stores.user_with_id(user.id) == user);
    if fresh.text() == session_id.text() {
        lemma_text_injective(fresh.bits, session_id.bits);
    }
}

/// Fetching the profile without a cookie, with one that reads as no
/// identifier, or with the token of a session that is unknown or expired
/// fails with `Unauthorized` and changes nothing.
pub proof fn law_fetch_refuses_dead_session(
    stores: Stores,
    cookie: Option<Seq<char>>,
    session_id: Id,
    fresh: Id,
    at: nat,
)
    requires
        cookie matches Some(text) ==> text == session_id.text() && stores.session(
            at,
            session_id.text(),
        ) is None,
    ensures
        fetched(stores, at, cookie, fresh) == (
            stores,
            StepView::<GetUserDataStateView, ProfileView>::Failed(AuthError::Unauthorized),
        ),
        forall|text: Seq<char>|
            parse_text(text) is None ==> #[trigger] fetched(stores, at, Some(text), fresh) == (
                stores,
                StepView::<GetUserDataStateView, ProfileView>::Failed(AuthError::Unauthorized),
            ),
{
    reveal_with_fuel(run, 3);
    lemma_text_reads_back(session_id.bits);
}

/// The whole life of a session. A user registers under an email that is
/// free; where the stored hash accepts the password, a login gives a first
/// token; a fetch with it gives the profile and a second token; the first
/// token is refused from then on; a fetch with the second token succeeds and
/// gives a third; a logout with the second token succeeds; and the second
/// token stays refused. Stated for drawn tokens that differ from the ones
/// they replace, and for fetches made while the session lives.
pub proof fn law_session_life(
    stores: Stores,
    registration: RegistrationView,
    password_hash: Seq<char>,
    id: Id,
    first: Id,
    second: Id,
    third: Id,
    other: Id,
    at: nat,
)
    requires
        stores.wf(),
        !stores.users.contains_key(registration.email),
        !stores.holds_id(id),
        second != first,
        third != second,
    ensures
        password_matches(password_hash, registration.password) ==> ({
            let user = new_user(registration, password_hash, id);
            let request = LoginView { email: registration.email, password: registration.password };
            let (s1, registered) = registered(stores, at, registration, Some(password_hash), id);
            let (s2, logged) = logged_in(s1, at, request, first);
            let (s3, fetch) = fetched(s2, at, Some(first.text()), second);
            let (s4, stale) = fetched(s3, at, Some(first.text()), other);
            let (s5, again) = fetched(s4, at, Some(second.text()), third);
            let (s6, out) = logged_out(s5, at, LogoutView { session_id: second.text() });
            let (s7, gone) = fetched(s6, at, Some(second.text()), other);
            &&& registered == StepView::<CreateUserStateView, UserView>::Done(user)
            &&& logged == StepView::<LoginStateView, Seq<char>>::Done(first.text())
            &&& fetch == StepView::<GetUserDataStateView, ProfileView>::Done(
                ProfileView { data: user.profile(), session_id: second.text() },
            )
            &&& stale == StepView::<GetUserDataStateView, ProfileView>::Failed(
                AuthError::Unauthorized,
            )
            &&& again == StepView::<GetUserDataStateView, ProfileView>::Done(
                ProfileView { data: user.profile(), session_id: third.text() },
            )
            &&& out == StepView::<LogoutStateView, ()>::Done(())
            &&& gone == StepView::<GetUserDataStateView, ProfileView>::Failed(
                AuthError::Unauthorized,
            )
            &&& s7.users == stores.users.insert(registration.email, user)
        }),
{
    if password_matches(password_hash, registration.password) {
        let user = new_user(registration, password_hash, id);
        let request = LoginView { email: registration.email, password: registration.password };
        law_email_registers_once(
            stores,
            registration,
            password_hash,
            id,
            registration,
            None,
            id,
            at,
            at,
        );
        let s1 = registered(stores, at, registration, Some(password_hash), id).0;
        law_login_opens_session(s1, request, first, at, at);
        let s2 = logged_in(s1, at, request, first).0;
        assert(s2.wf());
        law_fetch_rotates_session(s2, first, user, second, at, at);
        let s3 = fetched(s2, at, Some(first.text()), second).0;
        assert(s3.wf());
        law_fetch_refuses_dead_session(s3, Some(first.text()), first, other, at);
        let s4 = fetched(s3, at, Some(first.text()), other).0;
        law_fetch_rotates_session(s4, second, user, third, at, at);
        let s5 = fetched(s4, at, Some(second.text()), third).0;
        law_fetch_refuses_dead_session(s5, Some(second.text()), second, other, at);
        law_logout_ends_session(s5, LogoutView { session_id: second.text() }, second, at, at);
        let s6 = logged_out(s5, at, LogoutView { session_id: second.text() }).0;
        law_fetch_refuses_dead_session(s6, Some(second.text()), second, other, at);
    }
}

} // verus!
