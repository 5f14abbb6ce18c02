//! Sign-in: from the provider's redirect to a session credential.
//!
//! One transaction passes through five steps in order: the authorization
//! code is exchanged for a bearer token, the token for the account's email
//! address, the address for the local user record, which is created or
//! brought up to date, and the record for a session credential. Each step
//! but the last needs a collaborator. `execute` decides what is asked next and
//! what the answer leads to; the caller asks.

use crate::application::ports::google_drive_service;
use crate::application::ports::user_repository;
use crate::domain::entities::token_data::session_claims;
use crate::domain::entities::token_data::secret_usable;
use crate::domain::entities::token_data::TokenData;
use crate::domain::entities::user::created_user;
use crate::domain::entities::user::refreshed_user;
use crate::domain::entities::user::User;
use crate::domain::entities::user::UserView;
use crate::domain::value_objects::email::email_rejection;
use crate::domain::value_objects::email::valid_email;
use crate::domain::value_objects::email::Email;
use crate::domain::value_objects::id::Id;
use crate::domain::value_objects::timestamp::Timestamp;
use crate::domain::value_objects::timestamp::SECONDS_PER_DAY;
use vstd::prelude::*;

verus! {

/// What the provider's redirect brings.
pub struct Payload {
    pub code: String,
}

/// Why a sign-in was given up.
#[derive(Debug)]
pub enum Failure {
    /// The provider's address for the account is no valid email address.
    InvalidEmail(String),
    /// The provider or the store failed, or the session secret cannot sign.
    ConnectionError(String),
}

/// A failure as plain values.
pub enum FailureView {
    InvalidEmail(Seq<char>),
    ConnectionError(Seq<char>),
}

impl View for Failure {
    type V = FailureView;

    open spec fn view(&self) -> FailureView {
        match self {
            Failure::InvalidEmail(detail) => FailureView::InvalidEmail(detail@),
            Failure::ConnectionError(detail) => FailureView::ConnectionError(detail@),
        }
    }
}

impl FailureView {
    /// The failure in words: the detail as it came.
    pub open spec fn message(self) -> Seq<char> {
        match self {
            FailureView::InvalidEmail(detail) => detail,
            FailureView::ConnectionError(detail) => detail,
        }
    }
}

impl Failure {
    /// The failure in words.
    pub fn to_string(&self) -> (text: String)
        ensures
            text@ == self@.message(),
    {
        match self {
            Failure::InvalidEmail(detail) => detail.clone(),
            Failure::ConnectionError(detail) => detail.clone(),
        }
    }
}

/// What is said when the configured secret cannot sign a credential.
pub open spec fn unusable_secret_message() -> Seq<char> {
    "Session secret is not a base64 key"@
}

/// What is said when an answer arrives that was not asked for.
pub open spec fn unexpected_event_message() -> Seq<char> {
    "Unexpected event"@
}

/// A write to the store.
pub enum Write {
    Create(User),
    Update(User),
}

/// A write as plain values.
pub enum WriteView {
    Create(UserView),
    Update(UserView),
}

impl View for Write {
    type V = WriteView;

    open spec fn view(&self) -> WriteView {
        match self {
            Write::Create(user) => WriteView::Create(user@),
            Write::Update(user) => WriteView::Update(user@),
        }
    }
}

impl WriteView {
    /// The record that is written.
    pub open spec fn user(self) -> UserView {
        match self {
            WriteView::Create(user) => user,
            WriteView::Update(user) => user,
        }
    }
}

/// What reconciliation decides once the store has answered the lookup for
/// `email`: a known user gets the new token and a new time of change, by an
/// update; an unknown one gets a new record under `fresh`, provided the
/// address is valid; a store that failed otherwise ends the sign-in.
pub open spec fn reconciled(
    found: Result<UserView, user_repository::ErrorView>,
    email: Seq<char>,
    access_token: Seq<char>,
    fresh: u128,
    now: Timestamp,
) -> Result<WriteView, FailureView> {
    match found {
        Ok(user) => Ok(WriteView::Update(refreshed_user(user, access_token, now))),
        Err(user_repository::ErrorView::NotFound) => if valid_email(email) {
            Ok(WriteView::Create(created_user(fresh, email, access_token, now)))
        } else {
            Err(FailureView::InvalidEmail(email_rejection(email)))
        },
        Err(other) => Err(FailureView::ConnectionError(other.message())),
    }
}

/// The view of what a lookup answered.
pub open spec fn lookup_view(found: Result<User, user_repository::Error>) -> Result<
    UserView,
    user_repository::ErrorView,
> {
    match found {
        Ok(user) => Ok(user@),
        Err(error) => Err(error@),
    }
}

/// The view of what reconciliation decided.
pub open spec fn decision_view(decision: Result<Write, Failure>) -> Result<WriteView, FailureView> {
    match decision {
        Ok(write) => Ok(write@),
        Err(failure) => Err(failure@),
    }
}

/// Decides the write that brings the store up to date with a sign-in of the
/// account `email` with the bearer token `access_token`.
pub fn reconcile(
    found: Result<User, user_repository::Error>,
    email: String,
    access_token: String,
    fresh: Id,
    now: Timestamp,
) -> (decision: Result<Write, Failure>)
    ensures
        decision_view(decision) == reconciled(
            lookup_view(found),
            email@,
            access_token@,
            fresh@,
            now,
        ),
{
    match found {
        Ok(user) => Ok(Write::Update(user.refreshed(access_token, now))),
        Err(user_repository::Error::NotFound) => {
            match Email::new(email) {
                Ok(email) => Ok(Write::Create(User::created(fresh, email, access_token, now))),
                Err(reason) => Err(Failure::InvalidEmail(reason)),
            }
        },
        Err(other) => Err(Failure::ConnectionError(other.to_string())),
    }
}

/// How far a sign-in has come.
pub enum State {
    /// The authorization URL is out; the provider's redirect is awaited.
    AwaitingCallback,
    /// The code is with the provider's token endpoint.
    ExchangingCode,
    /// The code was exchanged; the identity endpoint is asked for the address.
    ResolvingEmail { access_token: String },
    /// The address is known; the store is asked for the user who has it.
    FindingUser { email: String, access_token: String },
    /// The record of user `user_id` is with the store.
    SavingUser { user_id: Id },
    /// The session credential is issued. Final.
    SessionIssued { token: String },
    /// The sign-in was given up. Final.
    Failed { failure: Failure },
}

/// A state as plain values.
pub enum StateView {
    AwaitingCallback,
    ExchangingCode,
    ResolvingEmail { access_token: Seq<char> },
    FindingUser { email: Seq<char>, access_token: Seq<char> },
    SavingUser { user_id: u128 },
    SessionIssued { token: Seq<char> },
    Failed { failure: FailureView },
}

impl View for State {
    type V = StateView;

    open spec fn view(&self) -> StateView {
        match self {
            State::AwaitingCallback => StateView::AwaitingCallback,
            State::ExchangingCode => StateView::ExchangingCode,
            State::ResolvingEmail { access_token } => StateView::ResolvingEmail {
                access_token: access_token@,
            },
            State::FindingUser { email, access_token } => StateView::FindingUser {
                email: email@,
                access_token: access_token@,
            },
            State::SavingUser { user_id } => StateView::SavingUser { user_id: user_id@ },
            State::SessionIssued { token } => StateView::SessionIssued { token: token@ },
            State::Failed { failure } => StateView::Failed { failure: failure@ },
        }
    }
}

impl StateView {
    /// Nothing follows a final state.
    pub open spec fn is_final(self) -> bool {
        self is SessionIssued || self is Failed
    }
}

/// What can happen to a sign-in.
pub enum Event {
    /// The provider redirected the user back.
    Callback(Payload),
    /// The token endpoint answered.
    TokenExchanged(Result<String, google_drive_service::Error>),
    /// The identity endpoint answered.
    EmailResolved(Result<String, google_drive_service::Error>),
    /// The store answered the lookup by email address.
    UserFound(Result<User, user_repository::Error>),
    /// The store answered the write.
    UserSaved(Result<User, user_repository::Error>),
}

/// An event as plain values.
pub enum EventView {
    Callback { code: Seq<char> },
    TokenExchanged(Result<Seq<char>, google_drive_service::ErrorView>),
    EmailResolved(Result<Seq<char>, google_drive_service::ErrorView>),
    UserFound(Result<UserView, user_repository::ErrorView>),
    UserSaved(Result<UserView, user_repository::ErrorView>),
}

/// The view of what the provider answered with text.
pub open spec fn text_answer_view(answer: Result<String, google_drive_service::Error>) -> Result<
    Seq<char>,
    google_drive_service::ErrorView,
> {
    match answer {
        Ok(text) => Ok(text@),
        Err(error) => Err(error@),
    }
}

impl View for Event {
    type V = EventView;

    open spec fn view(&self) -> EventView {
        match self {
            Event::Callback(payload) => EventView::Callback { code: payload.code@ },
            Event::TokenExchanged(answer) => EventView::TokenExchanged(text_answer_view(*answer)),
            Event::EmailResolved(answer) => EventView::EmailResolved(text_answer_view(*answer)),
            Event::UserFound(answer) => EventView::UserFound(lookup_view(*answer)),
            Event::UserSaved(answer) => EventView::UserSaved(lookup_view(*answer)),
        }
    }
}

/// What the caller is to do next.
pub enum Action {
    /// Exchange the authorization code for a bearer token.
    ExchangeCode { code: String },
    /// Ask the identity endpoint for the address of the token's account.
    FetchEmail { access_token: String },
    /// Ask the store for the user with this address.
    FindUserByEmail { email: String },
    /// Insert the record.
    CreateUser { user: User },
    /// Write the record over the one with its identifier.
    UpdateUser { user: User },
    /// Nothing: the state is final.
    Stop,
}

/// An action as plain values.
pub enum ActionView {
    ExchangeCode { code: Seq<char> },
    FetchEmail { access_token: Seq<char> },
    FindUserByEmail { email: Seq<char> },
    CreateUser { user: UserView },
    UpdateUser { user: UserView },
    Stop,
}

impl View for Action {
    type V = ActionView;

    open spec fn view(&self) -> ActionView {
        match self {
            Action::ExchangeCode { code } => ActionView::ExchangeCode { code: code@ },
            Action::FetchEmail { access_token } => ActionView::FetchEmail {
                access_token: access_token@,
            },
            Action::FindUserByEmail { email } => ActionView::FindUserByEmail { email: email@ },
            Action::CreateUser { user } => ActionView::CreateUser { user: user@ },
            Action::UpdateUser { user } => ActionView::UpdateUser { user: user@ },
            Action::Stop => ActionView::Stop,
        }
    }
}

impl ActionView {
    /// The action writes to the store.
    pub open spec fn is_write(self) -> bool {
        self is CreateUser || self is UpdateUser
    }
}

/// The action that carries out a write.
pub open spec fn write_action(write: WriteView) -> ActionView {
    match write {
        WriteView::Create(user) => ActionView::CreateUser { user },
        WriteView::Update(user) => ActionView::UpdateUser { user },
    }
}

/// The claims of the credential issued to `user_id` at `now`.
pub open spec fn claims_at(user_id: u128, now: Timestamp) -> TokenData {
    TokenData { exp: (now.secs + SECONDS_PER_DAY) as i64, user_id }
}

/// The end of a sign-in that failed with `failure`.
pub open spec fn given_up(failure: FailureView) -> (StateView, ActionView) {
    (StateView::Failed { failure }, ActionView::Stop)
}

/// The end of a sign-in after a collaborator failed with `message`.
pub open spec fn broken(message: Seq<char>) -> (StateView, ActionView) {
    given_up(FailureView::ConnectionError(message))
}

/// The transition relation: the state and the action that follow `event` in
/// `state`. `fresh` is the identifier a new record would get, `now` the
/// instant of the event, `token` the credential that would be issued for
/// the user being saved, if the secret can sign one.
pub open spec fn next(
    state: StateView,
    event: EventView,
    fresh: u128,
    now: Timestamp,
    token: Option<Seq<char>>,
) -> (StateView, ActionView) {
    match (state, event) {
        (StateView::SessionIssued { .. }, _) => (state, ActionView::Stop),
        (StateView::Failed { .. }, _) => (state, ActionView::Stop),
        (StateView::AwaitingCallback, EventView::Callback { code }) => (
            StateView::ExchangingCode,
            ActionView::ExchangeCode { code },
        ),
        (StateView::ExchangingCode, EventView::TokenExchanged(Ok(access_token))) => (
            StateView::ResolvingEmail { access_token },
            ActionView::FetchEmail { access_token },
        ),
        (StateView::ExchangingCode, EventView::TokenExchanged(Err(error))) => broken(
            error.message(),
        ),
        (StateView::ResolvingEmail { access_token }, EventView::EmailResolved(Ok(email))) => (
            StateView::FindingUser { email, access_token },
            ActionView::FindUserByEmail { email },
        ),
        (StateView::ResolvingEmail { .. }, EventView::EmailResolved(Err(error))) => broken(
            error.message(),
        ),
        (StateView::FindingUser { email, access_token }, EventView::UserFound(found)) => {
            match reconciled(found, email, access_token, fresh, now) {
                Ok(write) => (
                    StateView::SavingUser { user_id: write.user().id },
                    write_action(write),
                ),
                Err(failure) => given_up(failure),
            }
        },
        (StateView::SavingUser { user_id }, EventView::UserSaved(Ok(_))) => match token {
            Some(token) => (StateView::SessionIssued { token }, ActionView::Stop),
            None => broken(unusable_secret_message()),
        },
        (StateView::SavingUser { .. }, EventView::UserSaved(Err(error))) => broken(
            error.message(),
        ),
        _ => broken(unexpected_event_message()),
    }
}

/// The credential that `secret` signs for `user_id` at `now`, if it can sign.
pub open spec fn credential(user_id: u128, now: Timestamp, secret: Seq<u8>) -> Option<Seq<char>> {
    if secret_usable(secret) {
        Some(crate::domain::entities::token_data::session_token(claims_at(user_id, now), secret))
    } else {
        None
    }
}

/// The user a state is saving, or zero.
pub open spec fn saving(state: StateView) -> u128 {
    match state {
        StateView::SavingUser { user_id } => user_id,
        _ => 0,
    }
}

fn give_up(failure: Failure) -> (r: (State, Action))
    ensures
        (r.0@, r.1@) == given_up(failure@),
{
    (State::Failed { failure }, Action::Stop)
}

fn break_off(message: String) -> (r: (State, Action))
    ensures
        (r.0@, r.1@) == broken(message@),
{
    give_up(Failure::ConnectionError(message))
}

/// Takes one step of a sign-in: the state and the action that follow `event`
/// in `state`.
///
/// `fresh` is used as the identifier of the record if one is created, `now`
/// as the time of the write and of issuance. A credential that comes out
/// names the user whose record was saved and expires 24 hours after `now`.
pub fn execute(state: State, event: Event, fresh: Id, now: Timestamp, secret: &[u8]) -> (r: (
    State,
    Action,
))
    requires
        now.secs + SECONDS_PER_DAY <= i64::MAX,
    ensures
        (r.0@, r.1@) == next(state@, event@, fresh@, now, credential(saving(state@), now, secret@)),
        r.0 matches State::SessionIssued { token } ==> state@.is_final() || session_claims(
            token@,
            secret@,
        ) == Some((claims_at(saving(state@), now).exp, saving(state@))),
{
    match (state, event) {
        (State::SessionIssued { token }, _) => (State::SessionIssued { token }, Action::Stop),
        (State::Failed { failure }, _) => (State::Failed { failure }, Action::Stop),
        (State::AwaitingCallback, Event::Callback(payload)) => (
            State::ExchangingCode,
            Action::ExchangeCode { code: payload.code },
        ),
        (State::ExchangingCode, Event::TokenExchanged(Ok(access_token))) => {
            let copy = access_token.clone();
            (State::ResolvingEmail { access_token }, Action::FetchEmail { access_token: copy })
        },
        (State::ExchangingCode, Event::TokenExchanged(Err(error))) => break_off(error.to_string()),
        (State::ResolvingEmail { access_token }, Event::EmailResolved(Ok(email))) => {
            let copy = email.clone();
            (State::FindingUser { email, access_token }, Action::FindUserByEmail { email: copy })
        },
        (State::ResolvingEmail { .. }, Event::EmailResolved(Err(error))) => break_off(
            error.to_string(),
        ),
        (State::FindingUser { email, access_token }, Event::UserFound(found)) => {
            match reconcile(found, email, access_token, fresh, now) {
                Ok(Write::Create(user)) => (
                    State::SavingUser { user_id: user.id },
                    Action::CreateUser { user },
                ),
                Ok(Write::Update(user)) => (
                    State::SavingUser { user_id: user.id },
                    Action::UpdateUser { user },
                ),
                Err(failure) => give_up(failure),
            }
        },
        (State::SavingUser { user_id }, Event::UserSaved(Ok(_))) => {
            match TokenData::issued_at(&user_id, now).try_token(secret) {
                Some(token) => (State::SessionIssued { token }, Action::Stop),
                None => break_off("Session secret is not a base64 key".to_string()),
            }
        },
        (State::SavingUser { .. }, Event::UserSaved(Err(error))) => break_off(error.to_string()),
        _ => break_off("Unexpected event".to_string()),
    }
}

/// What a sign-in came to, as plain values: the credential, or the
/// failure in words. Nothing while it is still under way.
pub open spec fn result_of(state: StateView) -> Option<Result<Seq<char>, Seq<char>>> {
    match state {
        StateView::SessionIssued { token } => Some(Ok(token)),
        StateView::Failed { failure } => Some(Err(failure.message())),
        _ => None,
    }
}

/// The view of what a sign-in came to.
pub open spec fn result_view(result: Option<Result<String, String>>) -> Option<
    Result<Seq<char>, Seq<char>>,
> {
    match result {
        Some(Ok(token)) => Some(Ok(token@)),
        Some(Err(message)) => Some(Err(message@)),
        None => None,
    }
}

/// What the sign-in came to, once it is over.
pub fn result(state: &State) -> (r: Option<Result<String, String>>)
    ensures
        result_view(r) == result_of(state@),
{
    match state {
        State::SessionIssued { token } => Some(Ok(token.clone())),
        State::Failed { failure } => Some(Err(failure.to_string())),
        _ => None,
    }
}

/// Begins a sign-in with what the provider's redirect brought.
pub fn start(payload: Payload, fresh: Id, now: Timestamp, secret: &[u8]) -> (r: (State, Action))
    requires
        now.secs + SECONDS_PER_DAY <= i64::MAX,
    ensures
        r.0@ == StateView::ExchangingCode,
        r.1@ == (ActionView::ExchangeCode { code: payload.code@ }),
{
    execute(State::AwaitingCallback, Event::Callback(payload), fresh, now, secret)
}

/// A write is asked for only while the store's answer to the lookup is
/// being handled, so only after the provider's address for the account is
/// known, and the record written carries that address where it is new.
pub proof fn lemma_write_follows_known_email(
    state: StateView,
    event: EventView,
    fresh: u128,
    now: Timestamp,
    token: Option<Seq<char>>,
)
    requires
        next(state, event, fresh, now, token).1.is_write(),
    ensures
        state is FindingUser,
        event is UserFound,
        next(state, event, fresh, now, token).1 matches ActionView::CreateUser { user }
            ==> user.email == state->email && user.access_token == state->FindingUser_access_token
            && user.id == fresh && valid_email(user.email),
        next(state, event, fresh, now, token).1 matches ActionView::UpdateUser { user }
            ==> event->UserFound_0 is Ok && user.id == event->UserFound_0->Ok_0.id && user.email
            == event->UserFound_0->Ok_0.email && user.access_token
            == state->FindingUser_access_token,
{
}

/// A collaborator's failure ends the sign-in: the next state is `Failed`,
/// nothing more is asked, and no credential is issued. The one failure that
/// does not end it is a lookup that finds no user.
pub proof fn lemma_failure_ends_sign_in(
    state: StateView,
    event: EventView,
    fresh: u128,
    now: Timestamp,
    token: Option<Seq<char>>,
)
    requires
        !(state is SessionIssued),
        match event {
            EventView::Callback { .. } => false,
            EventView::TokenExchanged(answer) => answer is Err,
            EventView::EmailResolved(answer) => answer is Err,
            EventView::UserFound(answer) => answer is Err && !(answer->Err_0 is NotFound),
            EventView::UserSaved(answer) => answer is Err,
        },
    ensures
        next(state, event, fresh, now, token).0 is Failed,
        next(state, event, fresh, now, token).1 is Stop,
{
}

/// A credential is issued only when the store has confirmed the write.
pub proof fn lemma_session_follows_saved_user(
    state: StateView,
    event: EventView,
    fresh: u128,
    now: Timestamp,
    token: Option<Seq<char>>,
)
    requires
        !state.is_final(),
        next(state, event, fresh, now, token).0 is SessionIssued,
    ensures
        state is SavingUser,
        event is UserSaved,
        event->UserSaved_0 is Ok,
        token == Some(next(state, event, fresh, now, token).0->token),
{
}

/// The store's records after a sign-in of `email` with `access_token`, and
/// the record that was written, where the store answers every call and
/// nobody else writes to it.
pub open spec fn signed_in(
    records: user_repository::Records,
    email: Seq<char>,
    access_token: Seq<char>,
    fresh: u128,
    now: Timestamp,
) -> Result<(user_repository::Records, UserView), FailureView> {
    match reconciled(
        user_repository::find_by_email(records, email),
        email,
        access_token,
        fresh,
        now,
    ) {
        Ok(WriteView::Create(user)) => Ok((user_repository::after_create(records, user), user)),
        Ok(WriteView::Update(user)) => Ok((user_repository::after_update(records, user), user)),
        Err(failure) => Err(failure),
    }
}

/// One sign-in keeps the records distinct and leaves exactly one record for
/// the address, the one it wrote, with the token of this sign-in.
pub proof fn lemma_sign_in_writes_one_record(
    records: user_repository::Records,
    email: Seq<char>,
    access_token: Seq<char>,
    fresh: u128,
    now: Timestamp,
)
    requires
        user_repository::distinct_records(records),
        !user_repository::has_id(records, fresh),
        valid_email(email) || user_repository::has_email(records, email),
    ensures
        signed_in(records, email, access_token, fresh, now) is Ok,
        ({
            let (after, user) = signed_in(records, email, access_token, fresh, now)->Ok_0;
            &&& user_repository::distinct_records(after)
            &&& user_repository::find_by_email(after, email) == Ok::<
                UserView,
                user_repository::ErrorView,
            >(user)
            &&& user_repository::count_email(after, email) == 1
            &&& user.email == email
            &&& user.access_token == access_token
            &&& user.updated_at == now
            &&& user_repository::has_email(records, email) ==> after.len() == records.len()
                && user_repository::find_by_email(records, email) is Ok && user.id
                == user_repository::find_by_email(records, email)->Ok_0.id && user.created_at
                == user_repository::find_by_email(records, email)->Ok_0.created_at
            &&& !user_repository::has_email(records, email) ==> after.len() == records.len() + 1
                && user.id == fresh
            &&& forall|id: u128|
                user_repository::has_id(after, id) ==> id == fresh || user_repository::has_id(
                    records,
                    id,
                )
        }),
{
    let (after, user) = signed_in(records, email, access_token, fresh, now)->Ok_0;
    if user_repository::has_email(records, email) {
        let at = user_repository::position_of_email(records, email);
        assert(records[at].email == email);
        assert forall|i: int| 0 <= i < after.len() implies after[i] == if i == at {
            user
        } else {
            records[i]
        } by {
            if i != at {
                assert(records[i].id != records[at].id);
            }
        }
        assert(after[at] == user);
        assert forall|id: u128| user_repository::has_id(after, id) implies id == fresh
            || user_repository::has_id(records, id) by {
            let k = choose|k: int| 0 <= k < after.len() && #[trigger] after[k].id == id;
            assert(records[k].id == id);
        }
        user_repository::lemma_find_by_email(after, at);
    } else {
        let at = records.len() as int;
        assert(after[at] == user);
        assert forall|i: int, j: int|
            0 <= i < after.len() && 0 <= j < after.len() && i != j implies after[i].email
            != after[j].email && after[i].id != after[j].id by {
            if i < at {
                assert(records[i].email != email);
                assert(records[i].id != fresh);
            }
            if j < at {
                assert(records[j].email != email);
                assert(records[j].id != fresh);
            }
        }
        assert forall|id: u128| user_repository::has_id(after, id) implies id == fresh
            || user_repository::has_id(records, id) by {
            let k = choose|k: int| 0 <= k < after.len() && #[trigger] after[k].id == id;
            if k < at {
                assert(records[k].id == id);
            }
        }
        user_repository::lemma_find_by_email(after, at);
    }
    assert(user_repository::has_email(after, email)) by {
        let at = if user_repository::has_email(records, email) {
            user_repository::position_of_email(records, email)
        } else {
            records.len() as int
        };
        assert(after[at].email == email);
    }
    user_repository::lemma_count_email(after, email);
}

/// Two sign-ins of the same account, one after the other, leave one record
/// for its address. The record carries the token of the second sign-in and
/// the identifier it had after the first.
pub proof fn lemma_second_sign_in_rotates_token(
    records: user_repository::Records,
    email: Seq<char>,
    token_a: Seq<char>,
    token_b: Seq<char>,
    fresh_a: u128,
    fresh_b: u128,
    now_a: Timestamp,
    now_b: Timestamp,
)
    requires
        user_repository::distinct_records(records),
        !user_repository::has_id(records, fresh_a),
        !user_repository::has_id(records, fresh_b),
        fresh_a != fresh_b,
        valid_email(email) || user_repository::has_email(records, email),
    ensures
        signed_in(records, email, token_a, fresh_a, now_a) is Ok,
        ({
            let (first, user_a) = signed_in(records, email, token_a, fresh_a, now_a)->Ok_0;
            &&& signed_in(first, email, token_b, fresh_b, now_b) is Ok
            &&& ({
                let (second, user_b) = signed_in(first, email, token_b, fresh_b, now_b)->Ok_0;
                &&& user_repository::count_email(second, email) == 1
                &&& user_repository::find_by_email(second, email) == Ok::<
                    UserView,
                    user_repository::ErrorView,
                >(user_b)
                &&& user_b.access_token == token_b
                &&& user_b.id == user_a.id
                &&& user_b.created_at == user_a.created_at
                &&& user_b.updated_at == now_b
                &&& second.len() == first.len()
            })
        }),
{
    lemma_sign_in_writes_one_record(records, email, token_a, fresh_a, now_a);
    let (first, user_a) = signed_in(records, email, token_a, fresh_a, now_a)->Ok_0;
    assert(user_repository::has_email(first, email));
    assert(!user_repository::has_id(first, fresh_b));
    lemma_sign_in_writes_one_record(first, email, token_b, fresh_b, now_b);
}

/// Two sign-ins of an account that the store does not know yet, one after
/// the other: the first asks the store for one create and the second for
/// an update, never for a second create; both save the same user, so both
/// credentials name that user; and one record for the address is left.
pub proof fn lemma_two_sign_ins_create_once(
    records: user_repository::Records,
    email: Seq<char>,
    token_a: Seq<char>,
    token_b: Seq<char>,
    fresh_a: u128,
    fresh_b: u128,
    now_a: Timestamp,
    now_b: Timestamp,
)
    requires
        user_repository::distinct_records(records),
        !user_repository::has_email(records, email),
        valid_email(email),
        !user_repository::has_id(records, fresh_a),
        !user_repository::has_id(records, fresh_b),
        fresh_a != fresh_b,
    ensures
        ({
            let first_step = next(
                StateView::FindingUser { email, access_token: token_a },
                EventView::UserFound(user_repository::find_by_email(records, email)),
                fresh_a,
                now_a,
                None,
            );
            let first = user_repository::after_create(records, first_step.1->CreateUser_user);
            let second_step = next(
                StateView::FindingUser { email, access_token: token_b },
                EventView::UserFound(user_repository::find_by_email(first, email)),
                fresh_b,
                now_b,
                None,
            );
            let second = user_repository::after_update(first, second_step.1->UpdateUser_user);
            &&& first_step.1 is CreateUser
            &&& first_step.1->CreateUser_user.access_token == token_a
            &&& first_step.0 == (StateView::SavingUser { user_id: fresh_a })
            &&& second_step.1 is UpdateUser
            &&& second_step.1->UpdateUser_user.access_token == token_b
            &&& second_step.1->UpdateUser_user.id == fresh_a
            &&& second_step.0 == (StateView::SavingUser { user_id: fresh_a })
            &&& second.len() == records.len() + 1
            &&& user_repository::count_email(second, email) == 1
            &&& user_repository::find_by_email(second, email) == Ok::<
                UserView,
                user_repository::ErrorView,
            >(second_step.1->UpdateUser_user)
        }),
{
    lemma_sign_in_writes_one_record(records, email, token_a, fresh_a, now_a);
    lemma_second_sign_in_rotates_token(
        records,
        email,
        token_a,
        token_b,
        fresh_a,
        fresh_b,
        now_a,
        now_b,
    );
    let (first, user_a) = signed_in(records, email, token_a, fresh_a, now_a)->Ok_0;
    assert(user_repository::has_email(first, email)) by {
        assert(first[records.len() as int].email == email);
    }
}

} // verus!
