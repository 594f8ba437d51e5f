//! Registration, login and logout.
//!
//! A flow never touches the store itself. It says which query it wants put to
//! the store and goes on from the reply, so the same decisions serve a store
//! in memory and a database behind a connection pool. `register` and `login`
//! run the flows against a store in memory.

use vstd::prelude::*;
use vstd::string::*;
use crate::error::AuthError;
use crate::models::auth::{
    login_faults, register_faults, AuthResponse, AuthResponseView, LoginRequest, MessageResponse,
    RegisterRequest,
};
use crate::models::user::{copy_text, public_view, text_of, User, UserResponse, UserView};
use crate::password::{hash_password, is_hash_of, password_check, verify_password};
use crate::store::{
    active_email, answers, email_taken, id_taken, stored_form, username_taken, users_unique, NewUser,
    NewUserView, QueryView, ReplyView, StoreQuery, StoreReply, UniqueField, UserStore,
};
use crate::text::{lowercase_of, normalize_email};
use crate::time::Timestamp;
use crate::utils::jwt::{create_jwt_token, issued_token, TokenConfig};

verus! {

/// What a registration is waiting for.
#[derive(Clone, Copy, Debug, PartialEq, Eq, Structural)]
pub enum RegisterPhase {
    /// Whether the normalized email is taken.
    EmailLookup,
    /// Whether the username is taken.
    UsernameLookup,
    /// The identifier of the stored user.
    Insert,
    /// The stored user, read back.
    Fetch,
}

/// Where a registration stands.
#[derive(Debug)]
pub enum RegisterStep {
    /// Put the query to the store and come back with the reply.
    Ask { phase: RegisterPhase, query: StoreQuery },
    /// The registration has ended.
    Done { outcome: Result<AuthResponse, AuthError> },
}

/// Where a registration stands, as mathematical values.
pub enum RegisterStepView {
    Ask { phase: RegisterPhase, query: QueryView },
    Done { outcome: Result<AuthResponseView, AuthError> },
}

/// The outcome of a flow, as mathematical values.
pub open spec fn outcome_view(outcome: Result<AuthResponse, AuthError>) -> Result<
    AuthResponseView,
    AuthError,
> {
    match outcome {
        Ok(response) => Ok(response@),
        Err(e) => Err(e),
    }
}

impl View for RegisterStep {
    type V = RegisterStepView;

    open spec fn view(&self) -> RegisterStepView {
        match *self {
            RegisterStep::Ask { phase, query } => RegisterStepView::Ask { phase, query: query@ },
            RegisterStep::Done { outcome } => RegisterStepView::Done {
                outcome: outcome_view(outcome),
            },
        }
    }
}

/// Whether a token can be issued at a time under a configuration: the time is
/// not before the epoch, and the expiry fits the machine's word.
pub open spec fn can_issue(config: TokenConfig, now: Timestamp) -> bool {
    0 <= now.secs && now.secs + config.lifetime <= usize::MAX
}

/// Checks whether a token can be issued at a time under a configuration,
/// which is what the flows ask of their callers.
pub fn can_issue_at(config: &TokenConfig, now: Timestamp) -> (possible: bool)
    ensures
        possible == can_issue(*config, now),
{
    if now.secs < 0 {
        return false;
    }
    let secs = now.secs as u64;
    secs <= usize::MAX as u64 && config.expiry_fits(secs as usize)
}

/// The time a token issued at `now` carries: the whole seconds since the epoch.
pub open spec fn token_time(now: Timestamp) -> usize {
    now.secs as usize
}

/// What a user gets who has proved who they are: a fresh token and the public
/// view of the user, or `Internal` where signing fails.
pub open spec fn session_for(user: UserView, secret: Seq<char>, lifetime: usize, now: usize) -> Result<
    AuthResponseView,
    AuthError,
> {
    match issued_token(user.id, secret, lifetime, now) {
        Some(token) => Ok(AuthResponseView { token, user: public_view(user) }),
        None => Err(AuthError::Internal),
    }
}

/// The record a registration stores: the username as given, the email in
/// lowercase, the password as a hash, both times the current time.
pub open spec fn new_record(req: RegisterRequest, hash: Seq<char>, now: Timestamp) -> NewUserView {
    NewUserView {
        username: req.username@,
        email: lowercase_of(req.email@),
        password_hash: hash,
        display_name: text_of(req.display_name),
        created_at: now,
        updated_at: now,
    }
}

/// How a registration begins: a request that breaks an input rule ends it at
/// once; any other asks whether the normalized email is taken.
pub open spec fn register_first(req: RegisterRequest) -> RegisterStepView {
    if register_faults(req).is_clean() {
        RegisterStepView::Ask {
            phase: RegisterPhase::EmailLookup,
            query: QueryView::EmailExists { email: lowercase_of(req.email@) },
        }
    } else {
        RegisterStepView::Done { outcome: Err(AuthError::Validation(register_faults(req))) }
    }
}

/// How a registration goes on from a reply. `hashed` is the hash of the
/// password, or `None` where hashing failed; it matters only once the
/// username is known to be free. A reply that does not answer the pending
/// query counts as a failure of the store.
pub open spec fn register_next(
    req: RegisterRequest,
    secret: Seq<char>,
    lifetime: usize,
    now: Timestamp,
    phase: RegisterPhase,
    reply: ReplyView,
    hashed: Option<Seq<char>>,
) -> RegisterStepView {
    match (phase, reply) {
        (RegisterPhase::EmailLookup, ReplyView::Exists(true)) => RegisterStepView::Done {
            outcome: Err(AuthError::EmailTaken),
        },
        (RegisterPhase::EmailLookup, ReplyView::Exists(false)) => RegisterStepView::Ask {
            phase: RegisterPhase::UsernameLookup,
            query: QueryView::UsernameExists { username: req.username@ },
        },
        (RegisterPhase::UsernameLookup, ReplyView::Exists(true)) => RegisterStepView::Done {
            outcome: Err(AuthError::UsernameTaken),
        },
        (RegisterPhase::UsernameLookup, ReplyView::Exists(false)) => match hashed {
            Some(hash) => RegisterStepView::Ask {
                phase: RegisterPhase::Insert,
                query: QueryView::Insert { user: new_record(req, hash, now) },
            },
            None => RegisterStepView::Done { outcome: Err(AuthError::Internal) },
        },
        (RegisterPhase::Insert, ReplyView::Inserted(id)) => RegisterStepView::Ask {
            phase: RegisterPhase::Fetch,
            query: QueryView::FetchById { id },
        },
        (RegisterPhase::Insert, ReplyView::Conflict(UniqueField::Email)) => RegisterStepView::Done {
            outcome: Err(AuthError::EmailTaken),
        },
        (
            RegisterPhase::Insert,
            ReplyView::Conflict(UniqueField::Username),
        ) => RegisterStepView::Done { outcome: Err(AuthError::UsernameTaken) },
        (RegisterPhase::Fetch, ReplyView::Row(Some(user))) => RegisterStepView::Done {
            outcome: session_for(user, secret, lifetime, token_time(now)),
        },
        _ => RegisterStepView::Done { outcome: Err(AuthError::Internal) },
    }
}

/// Whether a step is one that hashes the password: the username has just been
/// found free.
pub open spec fn hashes_password(phase: RegisterPhase, reply: ReplyView) -> bool {
    phase == RegisterPhase::UsernameLookup && reply == ReplyView::Exists(false)
}

/// Begins a registration.
pub fn register_start(req: &RegisterRequest) -> (step: RegisterStep)
    ensures
        step@ == register_first(*req),
{
    match req.validate() {
        Err(e) => RegisterStep::Done { outcome: Err(e) },
        Ok(_) => RegisterStep::Ask {
            phase: RegisterPhase::EmailLookup,
            query: StoreQuery::EmailExists { email: normalize_email(req.email.as_str()) },
        },
    }
}

/// Issues a token for a user and pairs it with the user's public view.
pub fn open_session(user: User, config: &TokenConfig, now: usize) -> (outcome: Result<
    AuthResponse,
    AuthError,
>)
    requires
        now + config.lifetime <= usize::MAX,
    ensures
        outcome_view(outcome) == session_for(user@, config.secret@, config.lifetime, now),
{
    match create_jwt_token(user.id, config, now) {
        Ok(token) => Ok(AuthResponse { token, user: UserResponse::from(user) }),
        Err(e) => Err(e),
    }
}

/// Carries a registration on from the reply to its pending query, given the
/// outcome of hashing the password.
pub fn register_advance(
    req: &RegisterRequest,
    config: &TokenConfig,
    now: Timestamp,
    phase: RegisterPhase,
    reply: StoreReply,
    hashed: Option<String>,
) -> (step: RegisterStep)
    requires
        phase == RegisterPhase::Fetch ==> can_issue(*config, now),
    ensures
        step@ == register_next(
            *req,
            config.secret@,
            config.lifetime,
            now,
            phase,
            reply@,
            text_of(hashed),
        ),
{
    let failed = RegisterStep::Done { outcome: Err(AuthError::Internal) };
    match phase {
        RegisterPhase::EmailLookup => match reply {
            StoreReply::Exists(true) => RegisterStep::Done { outcome: Err(AuthError::EmailTaken) },
            StoreReply::Exists(false) => RegisterStep::Ask {
                phase: RegisterPhase::UsernameLookup,
                query: StoreQuery::UsernameExists { username: req.username.clone() },
            },
            _ => failed,
        },
        RegisterPhase::UsernameLookup => match reply {
            StoreReply::Exists(true) => RegisterStep::Done {
                outcome: Err(AuthError::UsernameTaken),
            },
            StoreReply::Exists(false) => match hashed {
                Some(hash) => RegisterStep::Ask {
                    phase: RegisterPhase::Insert,
                    query: StoreQuery::Insert {
                        user: NewUser {
                            username: req.username.clone(),
                            email: normalize_email(req.email.as_str()),
                            password_hash: hash,
                            display_name: copy_text(&req.display_name),
                            created_at: now,
                            updated_at: now,
                        },
                    },
                },
                None => failed,
            },
            _ => failed,
        },
        RegisterPhase::Insert => match reply {
            StoreReply::Inserted(id) => RegisterStep::Ask {
                phase: RegisterPhase::Fetch,
                query: StoreQuery::FetchById { id },
            },
            StoreReply::Conflict(UniqueField::Email) => RegisterStep::Done {
                outcome: Err(AuthError::EmailTaken),
            },
            StoreReply::Conflict(UniqueField::Username) => RegisterStep::Done {
                outcome: Err(AuthError::UsernameTaken),
            },
            _ => failed,
        },
        RegisterPhase::Fetch => match reply {
            StoreReply::Row(Some(user)) => RegisterStep::Done {
                outcome: open_session(user, config, now.secs as usize),
            },
            _ => failed,
        },
    }
}

/// What a step of a registration may lead to: what `register_next` gives for
/// some outcome of hashing, where a hash that came back is a hash of the
/// password made at the work factor of 12.
pub open spec fn register_steps(
    req: RegisterRequest,
    secret: Seq<char>,
    lifetime: usize,
    now: Timestamp,
    phase: RegisterPhase,
    reply: ReplyView,
    next: RegisterStepView,
) -> bool {
    exists|hashed: Option<Seq<char>>|
        {
            &&& hashed matches Some(hash) ==> is_hash_of(hash, req.password@)
            &&& next == #[trigger] register_next(req, secret, lifetime, now, phase, reply, hashed)
        }
}

/// Carries a registration on from the reply to its pending query. Once the
/// username is known to be free, the password is hashed; in every other step
/// the outcome is fixed by the reply.
pub fn register_step(
    req: &RegisterRequest,
    config: &TokenConfig,
    now: Timestamp,
    phase: RegisterPhase,
    reply: StoreReply,
) -> (step: RegisterStep)
    requires
        phase == RegisterPhase::Fetch ==> can_issue(*config, now),
    ensures
        register_steps(*req, config.secret@, config.lifetime, now, phase, reply@, step@),
        !hashes_password(phase, reply@) ==> step@ == register_next(
            *req,
            config.secret@,
            config.lifetime,
            now,
            phase,
            reply@,
            None,
        ),
{
    let hashing = match (phase, &reply) {
        (RegisterPhase::UsernameLookup, StoreReply::Exists(false)) => true,
        _ => false,
    };
    let hashed = if hashing {
        hash_password(req.password.as_str())
    } else {
        None
    };
    register_advance(req, config, now, phase, reply, hashed)
}

/// How a login begins: the query for the user who has the normalized email
/// and is not soft-deleted, unless the request breaks an input rule.
pub open spec fn login_first(req: LoginRequest) -> Result<QueryView, AuthError> {
    if login_faults(req).is_clean() {
        Ok(QueryView::FetchActiveByEmail { email: lowercase_of(req.email@) })
    } else {
        Err(AuthError::Validation(login_faults(req)))
    }
}

/// How a login ends, given the reply to its query. No user, a soft-deleted
/// user and a wrong password all give the same `InvalidCredentials`. A hash
/// that cannot be read, a store that fails and a signer that fails give
/// `Internal`.
pub open spec fn login_outcome(
    password: Seq<char>,
    secret: Seq<char>,
    lifetime: usize,
    now: usize,
    reply: ReplyView,
) -> Result<AuthResponseView, AuthError> {
    match reply {
        ReplyView::Row(Some(user)) => if user.is_deleted() {
            Err(AuthError::InvalidCredentials)
        } else {
            match password_check(password, user.password_hash) {
                Some(true) => session_for(user, secret, lifetime, now),
                Some(false) => Err(AuthError::InvalidCredentials),
                None => Err(AuthError::Internal),
            }
        },
        ReplyView::Row(None) => Err(AuthError::InvalidCredentials),
        _ => Err(AuthError::Internal),
    }
}

/// Begins a login: checks the input rules and names the query to put to the
/// store.
pub fn login_start(req: &LoginRequest) -> (first: Result<StoreQuery, AuthError>)
    ensures
        match first {
            Ok(query) => login_first(*req) == Ok::<QueryView, AuthError>(query@),
            Err(e) => login_first(*req) == Err::<QueryView, AuthError>(e),
        },
{
    match req.validate() {
        Err(e) => Err(e),
        Ok(_) => Ok(
            StoreQuery::FetchActiveByEmail { email: normalize_email(req.email.as_str()) },
        ),
    }
}

/// Ends a login from the reply to its query.
pub fn login_finish(req: &LoginRequest, config: &TokenConfig, now: Timestamp, reply: StoreReply) -> (outcome:
    Result<AuthResponse, AuthError>)
    requires
        can_issue(*config, now),
    ensures
        outcome_view(outcome) == login_outcome(
            req.password@,
            config.secret@,
            config.lifetime,
            token_time(now),
            reply@,
        ),
{
    match reply {
        StoreReply::Row(Some(user)) => {
            if user.deleted_at.is_some() {
                return Err(AuthError::InvalidCredentials);
            }
            match verify_password(req.password.as_str(), user.password_hash.as_str()) {
                Some(true) => open_session(user, config, now.secs as usize),
                Some(false) => Err(AuthError::InvalidCredentials),
                None => Err(AuthError::Internal),
            }
        },
        StoreReply::Row(None) => Err(AuthError::InvalidCredentials),
        _ => Err(AuthError::Internal),
    }
}

/// The text a logout is acknowledged with.
pub open spec fn logout_text() -> Seq<char> {
    "Logged out successfully"@
}

/// Acknowledges a logout. Nothing is kept on the server, so nothing is
/// revoked: a token stays valid until it expires.
pub fn logout() -> (acknowledged: MessageResponse)
    ensures
        acknowledged.message@ == logout_text(),
{
    MessageResponse { message: String::from_str("Logged out successfully") }
}

/// What a successful registration does to the users: one user is added at
/// the end, under an identifier that no user had, with the username as given,
/// the email in lowercase, a hash of the password made at the work factor of
/// 12, the current time as creation and update time, and nothing else set.
pub open spec fn adds_user(
    before: Seq<UserView>,
    req: RegisterRequest,
    now: Timestamp,
    after: Seq<UserView>,
) -> bool {
    &&& after.len() == before.len() + 1
    &&& after == before.push(after.last())
    &&& after.last() == stored_form(
        new_record(req, after.last().password_hash, now),
        after.last().id,
    )
    &&& is_hash_of(after.last().password_hash, req.password@)
    &&& !id_taken(before, after.last().id)
}

/// What a registration does, from the users before it to its outcome and the
/// users after it.
///
/// A request that breaks an input rule fails with `Validation`. Otherwise a
/// taken email fails with `EmailTaken`, and otherwise a taken username with
/// `UsernameTaken`. In all three cases nothing is stored. Otherwise either
/// nothing is stored and the outcome is `Internal` (the password could not be
/// hashed, or the store could not take the user), or the user is stored and
/// the outcome is the session opened for that user: a token for the new
/// identifier and the user's public view, or `Internal` where signing fails.
pub open spec fn registers(
    before: Seq<UserView>,
    req: RegisterRequest,
    secret: Seq<char>,
    lifetime: usize,
    now: Timestamp,
    outcome: Result<AuthResponseView, AuthError>,
    after: Seq<UserView>,
) -> bool {
    if !register_faults(req).is_clean() {
        outcome == Err::<AuthResponseView, AuthError>(AuthError::Validation(register_faults(req)))
            && after == before
    } else if email_taken(before, lowercase_of(req.email@)) {
        outcome == Err::<AuthResponseView, AuthError>(AuthError::EmailTaken) && after == before
    } else if username_taken(before, req.username@) {
        outcome == Err::<AuthResponseView, AuthError>(AuthError::UsernameTaken) && after == before
    } else {
        ||| outcome == Err::<AuthResponseView, AuthError>(AuthError::Internal) && after == before
        ||| adds_user(before, req, now, after) && outcome == session_for(
            after.last(),
            secret,
            lifetime,
            token_time(now),
        )
    }
}

/// How many queries a registration may still put to the store.
pub open spec fn queries_left(step: RegisterStepView) -> nat {
    match step {
        RegisterStepView::Ask { phase: RegisterPhase::EmailLookup, .. } => 4,
        RegisterStepView::Ask { phase: RegisterPhase::UsernameLookup, .. } => 3,
        RegisterStepView::Ask { phase: RegisterPhase::Insert, .. } => 2,
        RegisterStepView::Ask { phase: RegisterPhase::Fetch, .. } => 1,
        RegisterStepView::Done { .. } => 0,
    }
}

/// What holds of a registration under way against a faithful store, `before`
/// being the users when it began and `current` the users now: what the
/// replies so far have shown, and that the pending query is the next one in
/// order. Of a registration that has ended it says what `registers` says.
pub open spec fn register_underway(
    before: Seq<UserView>,
    req: RegisterRequest,
    secret: Seq<char>,
    lifetime: usize,
    now: Timestamp,
    step: RegisterStepView,
    current: Seq<UserView>,
) -> bool {
    let email = lowercase_of(req.email@);
    match step {
        RegisterStepView::Done { outcome } => registers(
            before,
            req,
            secret,
            lifetime,
            now,
            outcome,
            current,
        ),
        RegisterStepView::Ask { phase, query } => {
            &&& register_faults(req).is_clean()
            &&& match phase {
                RegisterPhase::EmailLookup => current == before && query
                    == (QueryView::EmailExists { email }),
                RegisterPhase::UsernameLookup => current == before && !email_taken(before, email)
                    && query == (QueryView::UsernameExists { username: req.username@ }),
                RegisterPhase::Insert => {
                    &&& current == before
                    &&& !email_taken(before, email)
                    &&& !username_taken(before, req.username@)
                    &&& query matches QueryView::Insert { user }
                    &&& user == new_record(req, user.password_hash, now)
                    &&& is_hash_of(user.password_hash, req.password@)
                },
                RegisterPhase::Fetch => {
                    &&& !email_taken(before, email)
                    &&& !username_taken(before, req.username@)
                    &&& adds_user(before, req, now, current)
                    &&& query == (QueryView::FetchById { id: current.last().id })
                },
            }
        },
    }
}

/// A registration that has just begun is under way.
pub proof fn register_start_is_underway(
    before: Seq<UserView>,
    req: RegisterRequest,
    secret: Seq<char>,
    lifetime: usize,
    now: Timestamp,
)
    ensures
        register_underway(before, req, secret, lifetime, now, register_first(req), before),
{
}

/// One step of a registration against a faithful store keeps it under way and
/// leaves fewer queries to put. So whoever puts each query of a registration
/// to a faithful store and goes on by `register_step` ends after at most
/// four queries with an outcome and users that `registers` describes, `now`
/// being the time of every step.
pub proof fn register_step_stays_underway(
    before: Seq<UserView>,
    req: RegisterRequest,
    secret: Seq<char>,
    lifetime: usize,
    now: Timestamp,
    phase: RegisterPhase,
    query: QueryView,
    current: Seq<UserView>,
    reply: ReplyView,
    after: Seq<UserView>,
    next: RegisterStepView,
)
    requires
        register_underway(
            before,
            req,
            secret,
            lifetime,
            now,
            RegisterStepView::Ask { phase, query },
            current,
        ),
        answers(current, query, reply, after),
        users_unique(after),
        register_steps(req, secret, lifetime, now, phase, reply, next),
    ensures
        register_underway(before, req, secret, lifetime, now, next, after),
        queries_left(next) < queries_left(RegisterStepView::Ask { phase, query }),
{
}

/// Registers a user with a store in memory: runs the registration from its
/// first query to its outcome, putting each query to the store. The users of
/// the store keep the uniqueness rules before and after.
pub fn register(
    store: &mut UserStore,
    req: &RegisterRequest,
    config: &TokenConfig,
    now: Timestamp,
) -> (outcome: Result<AuthResponse, AuthError>)
    requires
        can_issue(*config, now),
    ensures
        registers(
            old(store)@,
            *req,
            config.secret@,
            config.lifetime,
            now,
            outcome_view(outcome),
            final(store)@,
        ),
        users_unique(old(store)@),
        users_unique(final(store)@),
{
    store.recall_unique();
    let mut step = register_start(req);
    loop
        invariant
            can_issue(*config, now),
            users_unique(old(store)@),
            users_unique(store@),
            register_underway(
                old(store)@,
                *req,
                config.secret@,
                config.lifetime,
                now,
                step@,
                store@,
            ),
        decreases queries_left(step@),
    {
        match step {
            RegisterStep::Done { outcome } => {
                return outcome;
            },
            RegisterStep::Ask { phase, query } => {
                let ghost current = store@;
                let ghost asked = query@;
                let reply = store.answer(query);
                let ghost answered = reply@;
                step = register_step(req, config, now, phase, reply);
                proof {
                    register_step_stays_underway(
                        old(store)@,
                        *req,
                        config.secret@,
                        config.lifetime,
                        now,
                        phase,
                        asked,
                        current,
                        answered,
                        store@,
                        step@,
                    );
                }
            },
        }
    }
}

/// The user who has an email and is not soft-deleted, if there is one. Among
/// users with unique emails there is at most one.
pub open spec fn active_user(users: Seq<UserView>, email: Seq<char>) -> Option<UserView> {
    if active_email(users, email) {
        Some(
            users[choose|i: int|
                0 <= i < users.len() && (#[trigger] users[i]).email == email
                    && !users[i].is_deleted()],
        )
    } else {
        None
    }
}

/// What a login returns, given the users.
///
/// A request that breaks an input rule fails with `Validation`. Otherwise the
/// outcome is that of `login_outcome` for the user who has the normalized
/// email and is not soft-deleted, or for no user where there is none.
pub open spec fn login_result(
    users: Seq<UserView>,
    req: LoginRequest,
    secret: Seq<char>,
    lifetime: usize,
    now: Timestamp,
) -> Result<AuthResponseView, AuthError> {
    if !login_faults(req).is_clean() {
        Err(AuthError::Validation(login_faults(req)))
    } else {
        login_outcome(
            req.password@,
            secret,
            lifetime,
            token_time(now),
            ReplyView::Row(active_user(users, lowercase_of(req.email@))),
        )
    }
}

/// Among users with unique emails, a faithful store answers the query for the
/// active user with an email by `active_user`.
pub proof fn active_user_is_found(users: Seq<UserView>, email: Seq<char>, reply: ReplyView)
    requires
        users_unique(users),
        answers(users, QueryView::FetchActiveByEmail { email }, reply, users),
    ensures
        reply == ReplyView::Row(active_user(users, email)),
{
}

/// A login against a faithful store whose users have unique emails ends as
/// `login_result` says: whoever puts the query of a login to such a store and
/// ends the login by `login_finish` gets that outcome.
pub proof fn login_against_faithful_store(
    users: Seq<UserView>,
    req: LoginRequest,
    secret: Seq<char>,
    lifetime: usize,
    now: Timestamp,
    reply: ReplyView,
)
    requires
        users_unique(users),
        login_first(req) matches Ok(query) && answers(users, query, reply, users),
    ensures
        login_outcome(req.password@, secret, lifetime, token_time(now), reply) == login_result(
            users,
            req,
            secret,
            lifetime,
            now,
        ),
{
    active_user_is_found(users, lowercase_of(req.email@), reply);
}

/// Logs a user in with a store in memory.
pub fn login(store: &UserStore, req: &LoginRequest, config: &TokenConfig, now: Timestamp) -> (outcome:
    Result<AuthResponse, AuthError>)
    requires
        can_issue(*config, now),
    ensures
        outcome_view(outcome) == login_result(
            store@,
            *req,
            config.secret@,
            config.lifetime,
            now,
        ),
        users_unique(store@),
{
    store.recall_unique();
    match login_start(req) {
        Err(e) => Err(e),
        Ok(query) => {
            let reply = store.read(&query);
            proof {
                active_user_is_found(store@, lowercase_of(req.email@), reply@);
            }
            login_finish(req, config, now, reply)
        },
    }
}

} // verus!
