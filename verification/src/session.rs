//! The session manager: binding session tokens to users in the session
//! store, looking them up, replacing and removing them.
//!
//! A session is stored under the text of its token, with the text of the
//! user's id as its value and a lifetime after which the store drops it.

use vstd::prelude::*;
use crate::ident::Id;
use crate::ident::lemma_random_layout_inhabited;
use crate::ident::is_id_text;
use crate::ident::lemma_text_injective;
use crate::ident::parse_text;
use crate::machine::Step;
use crate::machine::StepView;
use crate::machine::run;
use crate::models::AuthError;
use crate::store::Action;
use crate::store::ActionView;
use crate::store::Event;
use crate::store::EventView;
use crate::store::Stores;

verus! {

/// Progress of binding a session to a user.
#[derive(Clone, Copy, Debug, PartialEq, Eq, Structural)]
pub enum SetSession {
    Start { session_id: Id, user_id: Id, expires_in: u64 },
    Storing,
}

/// Progress of looking a session up.
#[derive(Clone, Copy, Debug, PartialEq, Eq, Structural)]
pub enum GetUserId {
    Start { session_id: Id },
    Reading,
}

/// Progress of removing a session.
#[derive(Clone, Copy, Debug, PartialEq, Eq, Structural)]
pub enum DeleteSession {
    Start { session_id: Id },
    Deleting,
}

/// Progress of replacing a session's token: the old token is removed first,
/// then a new one is drawn and bound, so that the two are never valid
/// together.
#[derive(Clone, Copy, Debug, PartialEq, Eq, Structural)]
pub enum RotateSession {
    Start { session_id: Id, user_id: Id, expires_in: u64 },
    Deleting { user_id: Id, expires_in: u64 },
    Storing { new_session_id: Id },
}

impl View for SetSession {
    type V = SetSession;

    open spec fn view(&self) -> SetSession {
        *self
    }
}

impl View for GetUserId {
    type V = GetUserId;

    open spec fn view(&self) -> GetUserId {
        *self
    }
}

impl View for DeleteSession {
    type V = DeleteSession;

    open spec fn view(&self) -> DeleteSession {
        *self
    }
}

impl View for RotateSession {
    type V = RotateSession;

    open spec fn view(&self) -> RotateSession {
        *self
    }
}

/// The transition of [`set_session`].
pub open spec fn set_session_next(state: SetSession, event: EventView) -> StepView<SetSession, ()> {
    match state {
        SetSession::Start { session_id, user_id, expires_in } => StepView::Ask {
            action: ActionView::SetWithTtl {
                key: session_id.text(),
                value: user_id.text(),
                ttl: expires_in,
            },
            state: SetSession::Storing,
        },
        SetSession::Storing => match event {
            EventView::Stored => StepView::Done(()),
            _ => StepView::Failed(AuthError::StoreUnavailable),
        },
    }
}

/// The transition of [`get_user_id`].
pub open spec fn get_user_id_next(state: GetUserId, event: EventView) -> StepView<
    GetUserId,
    Option<Seq<char>>,
> {
    match state {
        GetUserId::Start { session_id } => StepView::Ask {
            action: ActionView::Get { key: session_id.text() },
            state: GetUserId::Reading,
        },
        GetUserId::Reading => match event {
            EventView::Value(found) => StepView::Done(found),
            _ => StepView::Failed(AuthError::StoreUnavailable),
        },
    }
}

/// The transition of [`delete_session`].
pub open spec fn delete_session_next(state: DeleteSession, event: EventView) -> StepView<
    DeleteSession,
    (),
> {
    match state {
        DeleteSession::Start { session_id } => StepView::Ask {
            action: ActionView::Delete { key: session_id.text() },
            state: DeleteSession::Deleting,
        },
        DeleteSession::Deleting => match event {
            EventView::Deleted => StepView::Done(()),
            _ => StepView::Failed(AuthError::StoreUnavailable),
        },
    }
}

/// The step that binds the new token once the old one is gone.
pub open spec fn rotate_to_next(new_session_id: Id, user_id: Id, expires_in: u64) -> StepView<
    RotateSession,
    Seq<char>,
> {
    StepView::Ask {
        action: ActionView::SetWithTtl {
            key: new_session_id.text(),
            value: user_id.text(),
            ttl: expires_in,
        },
        state: RotateSession::Storing { new_session_id },
    }
}

/// The transition of [`rotate_session`], where `fresh` is the token drawn
/// once the old one is gone.
pub open spec fn rotate_session_next(state: RotateSession, event: EventView, fresh: Id) -> StepView<
    RotateSession,
    Seq<char>,
> {
    match state {
        RotateSession::Start { session_id, user_id, expires_in } => StepView::Ask {
            action: ActionView::Delete { key: session_id.text() },
            state: RotateSession::Deleting { user_id, expires_in },
        },
        RotateSession::Deleting { user_id, expires_in } => match event {
            EventView::Deleted => rotate_to_next(fresh, user_id, expires_in),
            _ => StepView::Failed(AuthError::StoreUnavailable),
        },
        RotateSession::Storing { new_session_id } => match event {
            EventView::Stored => StepView::Done(new_session_id.text()),
            _ => StepView::Failed(AuthError::StoreUnavailable),
        },
    }
}

/// Binds `session_id` to `user_id` in the session store for `expires_in`
/// seconds.
///
/// From `Start` it asks the store to set the binding; once the store has
/// acknowledged it is done. Any other answer is reported as
/// `StoreUnavailable`.
pub fn set_session(state: SetSession, event: Event) -> (step: Step<SetSession, ()>)
    ensures
        step@ == set_session_next(state, event@),
{
    match state {
        SetSession::Start { session_id, user_id, expires_in } => Step::Ask {
            action: Action::SetWithTtl {
                key: session_id.to_text(),
                value: user_id.to_text(),
                ttl: expires_in,
            },
            state: SetSession::Storing,
        },
        SetSession::Storing => match event {
            Event::Stored => Step::Done(()),
            _ => Step::Failed(AuthError::StoreUnavailable),
        },
    }
}

/// Looks up the user that `session_id` is bound to.
///
/// Gives the stored text of the user's id, or `None` where the session is
/// unknown or has expired. A store that does not answer is reported as
/// `StoreUnavailable`, never as an absent session. Nothing is written.
pub fn get_user_id(state: GetUserId, event: Event) -> (step: Step<GetUserId, Option<String>>)
    ensures
        step@ == get_user_id_next(state, event@),
{
    match state {
        GetUserId::Start { session_id } => Step::Ask {
            action: Action::Get { key: session_id.to_text() },
            state: GetUserId::Reading,
        },
        GetUserId::Reading => match event {
            Event::Value(found) => Step::Done(found),
            _ => Step::Failed(AuthError::StoreUnavailable),
        },
    }
}

/// Removes the session `session_id`, whether or not it exists.
pub fn delete_session(state: DeleteSession, event: Event) -> (step: Step<DeleteSession, ()>)
    ensures
        step@ == delete_session_next(state, event@),
{
    match state {
        DeleteSession::Start { session_id } => Step::Ask {
            action: Action::Delete { key: session_id.to_text() },
            state: DeleteSession::Deleting,
        },
        DeleteSession::Deleting => match event {
            Event::Deleted => Step::Done(()),
            _ => Step::Failed(AuthError::StoreUnavailable),
        },
    }
}

/// The second half of a rotation: binds the token `new_session_id` to
/// `user_id` for `expires_in` seconds.
pub fn rotate_to(new_session_id: Id, user_id: Id, expires_in: u64) -> (step: Step<
    RotateSession,
    String,
>)
    ensures
        step@ == rotate_to_next(new_session_id, user_id, expires_in),
{
    Step::Ask {
        action: Action::SetWithTtl {
            key: new_session_id.to_text(),
            value: user_id.to_text(),
            ttl: expires_in,
        },
        state: RotateSession::Storing { new_session_id },
    }
}

/// Replaces the session `session_id` of `user_id` by one under a new random
/// token with a fresh lifetime, and gives the new token's text.
///
/// The old token is removed before the new one is drawn and bound. If the
/// store fails in between, neither is valid.
pub fn rotate_session(state: RotateSession, event: Event) -> (step: Step<RotateSession, String>)
    ensures
        exists|fresh: Id|
            fresh.is_random() && step@ == #[trigger] rotate_session_next(state, event@, fresh),
        step@ matches StepView::Done(token) ==> is_id_text(token) && parse_text(token) is Some,
{
    let ghost given = event@;
    let ghost mut drawn = lemma_random_layout_inhabited();
    let step = match state {
        RotateSession::Start { session_id, user_id, expires_in } => Step::Ask {
            action: Action::Delete { key: session_id.to_text() },
            state: RotateSession::Deleting { user_id, expires_in },
        },
        RotateSession::Deleting { user_id, expires_in } => match event {
            Event::Deleted => {
                let fresh = Id::random();
                proof {
                    drawn = fresh;
                }
                rotate_to(fresh, user_id, expires_in)
            },
            _ => Step::Failed(AuthError::StoreUnavailable),
        },
        RotateSession::Storing { new_session_id } => match event {
            Event::Stored => Step::Done(new_session_id.to_text()),
            _ => Step::Failed(AuthError::StoreUnavailable),
        },
    };
    assert(step@ == rotate_session_next(state, given, drawn));
    step
}

/// The stores and the outcome after `session_id` was bound to `user_id` at
/// the instant `now`.
pub open spec fn created(
    stores: Stores,
    now: nat,
    session_id: Id,
    user_id: Id,
    expires_in: u64,
) -> (Stores, StepView<SetSession, ()>) {
    run(
        |state: SetSession, event: EventView| set_session_next(state, event),
        SetSession::Start { session_id, user_id, expires_in },
        EventView::Begin,
        stores,
        now,
        1,
    )
}

/// The stores and the outcome after `session_id` was looked up at the
/// instant `now`.
pub open spec fn resolved(stores: Stores, now: nat, session_id: Id) -> (
    Stores,
    StepView<GetUserId, Option<Seq<char>>>,
) {
    run(
        |state: GetUserId, event: EventView| get_user_id_next(state, event),
        GetUserId::Start { session_id },
        EventView::Begin,
        stores,
        now,
        1,
    )
}

/// The stores and the outcome after `session_id` was removed at the instant
/// `now`.
pub open spec fn invalidated(stores: Stores, now: nat, session_id: Id) -> (
    Stores,
    StepView<DeleteSession, ()>,
) {
    run(
        |state: DeleteSession, event: EventView| delete_session_next(state, event),
        DeleteSession::Start { session_id },
        EventView::Begin,
        stores,
        now,
        1,
    )
}

/// The stores and the outcome after the session `session_id` of `user_id`
/// was rotated at the instant `now`, with `fresh` drawn as the new token.
pub open spec fn rotated(
    stores: Stores,
    now: nat,
    session_id: Id,
    user_id: Id,
    expires_in: u64,
    fresh: Id,
) -> (Stores, StepView<RotateSession, Seq<char>>) {
    run(
        |state: RotateSession, event: EventView| rotate_session_next(state, event, fresh),
        RotateSession::Start { session_id, user_id, expires_in },
        EventView::Begin,
        stores,
        now,
        2,
    )
}

/// A session that was created resolves to its user from the instant of its
/// creation until its lifetime has elapsed, and to nothing from then on.
/// Looking it up changes nothing.
pub proof fn law_session_resolves_until_expiry(
    stores: Stores,
    session_id: Id,
    user_id: Id,
    expires_in: u64,
    at: nat,
    later: nat,
)
    requires
        at <= later,
    ensures
        ({
            let (after, outcome) = created(stores, at, session_id, user_id, expires_in);
            let (last, found) = resolved(after, later, session_id);
            &&& outcome == StepView::<SetSession, ()>::Done(())
            &&& last == after
            &&& later < at + expires_in ==> found == StepView::<GetUserId, Option<Seq<char>>>::Done(
                Some(user_id.text()),
            )
            &&& later >= at + expires_in ==> found == StepView::<
                GetUserId,
                Option<Seq<char>>,
            >::Done(None)
        }),
{
    reveal_with_fuel(run, 3);
}

/// Rotation succeeds with the text of the new token; from then on the old
/// token resolves to nothing, and the new token resolves to the same user
/// until its lifetime has elapsed. Stated for a new token that differs from
/// the old one.
pub proof fn law_rotation_replaces_token(
    stores: Stores,
    session_id: Id,
    user_id: Id,
    expires_in: u64,
    fresh: Id,
    at: nat,
    later: nat,
)
    requires
        fresh != session_id,
        at <= later,
    ensures
        ({
            let (after, outcome) = rotated(stores, at, session_id, user_id, expires_in, fresh);
            &&& outcome == StepView::<RotateSession, Seq<char>>::Done(fresh.text())
            &&& resolved(after, later, session_id).1 == StepView::<
                GetUserId,
                Option<Seq<char>>,
            >::Done(None)
            &&& later < at + expires_in ==> resolved(after, later, fresh).1 == StepView::<
                GetUserId,
                Option<Seq<char>>,
            >::Done(Some(user_id.text()))
        }),
{
    reveal_with_fuel(run, 3);
    if fresh.text() == session_id.text() {
        lemma_text_injective(fresh.bits, session_id.bits);
    }
}

/// A rotation fails closed. Once its first action is performed the old token
/// is gone while the new one is not yet bound, and if the store fails at
/// that point the rotation ends with `StoreUnavailable` and binds nothing.
pub proof fn law_rotation_fails_closed(
    stores: Stores,
    session_id: Id,
    user_id: Id,
    expires_in: u64,
    fresh: Id,
    at: nat,
    later: nat,
)
    ensures
        ({
            let (between, pending) = run(
                |state: RotateSession, event: EventView| rotate_session_next(state, event, fresh),
                RotateSession::Start { session_id, user_id, expires_in },
                EventView::Begin,
                stores,
                at,
                1,
            );
            &&& pending == rotate_to_next(fresh, user_id, expires_in)
            &&& between.sessions == stores.sessions.remove(session_id.text())
            &&& between.session(later, session_id.text()) is None
            &&& rotate_session_next(
                RotateSession::Deleting { user_id, expires_in },
                EventView::Unavailable,
                fresh,
            ) == StepView::<RotateSession, Seq<char>>::Failed(AuthError::StoreUnavailable)
            &&& rotate_session_next(
                RotateSession::Storing { new_session_id: fresh },
                EventView::Unavailable,
                fresh,
            ) == StepView::<RotateSession, Seq<char>>::Failed(AuthError::StoreUnavailable)
        }),
{
    reveal_with_fuel(run, 2);
}

/// Removing a session succeeds whether or not it exists, and removing it a
/// second time succeeds as well and changes nothing. Once removed, the
/// session resolves to nothing.
pub proof fn law_invalidate_idempotent(
    stores: Stores,
    session_id: Id,
    first: nat,
    second: nat,
    later: nat,
)
    ensures
        ({
            let (once, outcome) = invalidated(stores, first, session_id);
            let (twice, again) = invalidated(once, second, session_id);
            &&& outcome == StepView::<DeleteSession, ()>::Done(())
            &&& again == StepView::<DeleteSession, ()>::Done(())
            &&& twice == once
            &&& resolved(once, later, session_id).1 == StepView::<
                GetUserId,
                Option<Seq<char>>,
            >::Done(None)
        }),
{
    reveal_with_fuel(run, 3);
    let once = invalidated(stores, first, session_id).0;
    let twice = invalidated(once, second, session_id).0;
    assert(twice.sessions =~= once.sessions);
}

} // verus!
