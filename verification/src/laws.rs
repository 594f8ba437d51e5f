//! What holds of the library as a whole, stated over the spec functions that
//! the contracts of its functions use, and proved.

use vstd::prelude::*;
use crate::error::{AuthError, ErrorKind};
use crate::handlers::auth::{
    active_user, adds_user, login_result, registers, session_for, token_time,
};
use crate::models::auth::{
    login_faults, register_faults, AuthResponseView, LoginRequest, RegisterRequest,
};
use crate::models::user::UserView;
use crate::password::password_check;
use crate::store::{
    answers, email_taken, id_taken, soft_deletes, users_unique, QueryView, ReplyView,
};
use crate::text::{decimal, digit_char, lowercase_of};
use crate::time::Timestamp;
use crate::utils::jwt::{decoded_token, issued_claims, issued_token, token_claims};
use crate::validation::{email_syntax_ok, username_ok};

verus! {

/// The numeral of a number ends in the digit of its remainder by ten, and
/// what stands before that digit is the numeral of its tenth.
proof fn decimal_shape(n: nat)
    ensures
        decimal(n).len() >= 1,
        decimal(n).last() == digit_char(n % 10),
        n < 10 <==> decimal(n).len() == 1,
        n >= 10 ==> decimal(n).drop_last() == decimal(n / 10),
    decreases n,
{
    if n >= 10 {
        decimal_shape(n / 10);
    }
}

/// Two numbers with the same decimal numeral are the same number: the subject
/// of a token names one user.
pub proof fn decimal_names_one_number(a: nat, b: nat)
    requires
        decimal(a) == decimal(b),
    ensures
        a == b,
    decreases a,
{
    decimal_shape(a);
    decimal_shape(b);
    if a >= 10 {
        decimal_names_one_number(a / 10, b / 10);
    }
}

/// A token issued to a user stands for that user until it expires and for
/// nobody afterwards: verified before the expiry, which is the issue time plus
/// the lifetime, it gives the claims it was issued with, the subject being the
/// numeral of the user's identifier; verified at the expiry or later, it is
/// rejected.
pub proof fn token_valid_until_expiry(
    user_id: u64,
    secret: Seq<char>,
    lifetime: usize,
    issued_at: usize,
    token: Seq<char>,
    at: usize,
)
    requires
        issued_at + lifetime <= usize::MAX,
        issued_token(user_id, secret, lifetime, issued_at) == Some(token),
    ensures
        at < issued_at + lifetime ==> token_claims(token, secret, at) == Some(
            issued_claims(user_id, lifetime, issued_at),
        ),
        at >= issued_at + lifetime ==> token_claims(token, secret, at) is None,
        issued_claims(user_id, lifetime, issued_at).sub == decimal(user_id as nat),
{
}

/// A token that is rejected at one time is rejected at every later time:
/// nothing brings an expired token back.
pub proof fn rejection_is_final(token: Seq<char>, secret: Seq<char>, earlier: usize, later: usize)
    requires
        earlier <= later,
        token_claims(token, secret, earlier) is None,
    ensures
        token_claims(token, secret, later) is None,
{
}

/// A successful registration returns the public view of the user it stored
/// and a token for that user: read under the same secret, the token's subject
/// is the numeral of the new user's identifier, and until it expires it
/// verifies to exactly the claims issued.
pub proof fn registration_token_names_new_user(
    before: Seq<UserView>,
    req: RegisterRequest,
    secret: Seq<char>,
    lifetime: usize,
    now: Timestamp,
    response: AuthResponseView,
    after: Seq<UserView>,
    at: usize,
)
    requires
        0 <= now.secs,
        now.secs + lifetime <= usize::MAX,
        registers(before, req, secret, lifetime, now, Ok(response), after),
    ensures
        adds_user(before, req, now, after),
        response.user.id == after.last().id,
        decoded_token(response.token, secret) matches Some((Some(sub), _, _)) && sub == decimal(
            after.last().id as nat,
        ),
        at < now.secs + lifetime ==> token_claims(response.token, secret, at) == Some(
            issued_claims(after.last().id, lifetime, token_time(now)),
        ),
{
}

/// A registration keeps the uniqueness rules of the users: where no two users
/// shared an identifier, an email or a username before it, none do after it.
pub proof fn registration_keeps_users_unique(
    before: Seq<UserView>,
    req: RegisterRequest,
    secret: Seq<char>,
    lifetime: usize,
    now: Timestamp,
    outcome: Result<AuthResponseView, AuthError>,
    after: Seq<UserView>,
)
    requires
        users_unique(before),
        registers(before, req, secret, lifetime, now, outcome, after),
    ensures
        users_unique(after),
{
}

/// Whoever registers with an email that, in lowercase, is the email of an
/// earlier successful registration is refused with `EmailTaken`, an error of
/// kind `Conflict`, and nothing is stored. The second request must itself keep
/// the input rules: one that breaks them is refused for that first.
pub proof fn second_registration_conflicts(
    before: Seq<UserView>,
    first: RegisterRequest,
    first_now: Timestamp,
    first_response: AuthResponseView,
    between: Seq<UserView>,
    second: RegisterRequest,
    second_now: Timestamp,
    second_outcome: Result<AuthResponseView, AuthError>,
    after: Seq<UserView>,
    secret: Seq<char>,
    lifetime: usize,
)
    requires
        registers(before, first, secret, lifetime, first_now, Ok(first_response), between),
        registers(between, second, secret, lifetime, second_now, second_outcome, after),
        lowercase_of(first.email@) == lowercase_of(second.email@),
        register_faults(second).is_clean(),
    ensures
        second_outcome == Err::<AuthResponseView, AuthError>(AuthError::EmailTaken),
        AuthError::EmailTaken.kind_spec() == ErrorKind::Conflict,
        after == between,
{
}

/// A login with the email of a user and a password that does not match
/// cannot be told from a login with an email that no user has: both fail with
/// the same `InvalidCredentials`.
pub proof fn wrong_password_looks_like_unknown_email(
    users: Seq<UserView>,
    known: LoginRequest,
    unknown: LoginRequest,
    user: UserView,
    secret: Seq<char>,
    lifetime: usize,
    now: Timestamp,
)
    requires
        login_faults(known).is_clean(),
        login_faults(unknown).is_clean(),
        active_user(users, lowercase_of(known.email@)) == Some(user),
        password_check(known.password@, user.password_hash) == Some(false),
        !email_taken(users, lowercase_of(unknown.email@)),
    ensures
        login_result(users, known, secret, lifetime, now) == login_result(
            users,
            unknown,
            secret,
            lifetime,
            now,
        ),
        login_result(users, known, secret, lifetime, now) == Err::<AuthResponseView, AuthError>(
            AuthError::InvalidCredentials,
        ),
{
}

/// A soft-deleted user cannot log in, whatever password is given: a login
/// with that user's email fails, and where the request keeps the input rules
/// it fails with `InvalidCredentials`.
pub proof fn deleted_user_cannot_log_in(
    users: Seq<UserView>,
    user: UserView,
    req: LoginRequest,
    secret: Seq<char>,
    lifetime: usize,
    now: Timestamp,
)
    requires
        users_unique(users),
        users.contains(user),
        user.is_deleted(),
        user.email == lowercase_of(req.email@),
    ensures
        login_result(users, req, secret, lifetime, now) is Err,
        login_faults(req).is_clean() ==> login_result(users, req, secret, lifetime, now) == Err::<
            AuthResponseView,
            AuthError,
        >(AuthError::InvalidCredentials),
{
}

/// Soft-deleting a user ends that user's logins: among users with unique
/// emails, once the user with a given identifier has been soft-deleted, a
/// login with that user's email fails, with `InvalidCredentials` where the
/// request keeps the input rules.
pub proof fn deletion_ends_logins(
    before: Seq<UserView>,
    id: u64,
    at: Timestamp,
    after: Seq<UserView>,
    position: int,
    req: LoginRequest,
    secret: Seq<char>,
    lifetime: usize,
    now: Timestamp,
)
    requires
        users_unique(before),
        soft_deletes(before, id, at, true, after),
        0 <= position < before.len(),
        before[position].id == id,
        before[position].email == lowercase_of(req.email@),
    ensures
        users_unique(after),
        login_result(after, req, secret, lifetime, now) is Err,
        login_faults(req).is_clean() ==> login_result(after, req, secret, lifetime, now) == Err::<
            AuthResponseView,
            AuthError,
        >(AuthError::InvalidCredentials),
{
    deleted_user_cannot_log_in(after, after[position], req, secret, lifetime, now);
}

/// Whoever has registered can log in: after a successful registration, a
/// login with an email that has the same lowercase form and with the same
/// password opens a session for the user that the registration created, or
/// fails with `Internal` where signing fails. The users must keep the
/// uniqueness rules, and the login request its input rules.
pub proof fn registered_user_can_log_in(
    before: Seq<UserView>,
    registration: RegisterRequest,
    registered_at: Timestamp,
    registered: AuthResponseView,
    after: Seq<UserView>,
    req: LoginRequest,
    secret: Seq<char>,
    lifetime: usize,
    now: Timestamp,
)
    requires
        users_unique(before),
        registers(before, registration, secret, lifetime, registered_at, Ok(registered), after),
        lowercase_of(req.email@) == lowercase_of(registration.email@),
        req.password@ == registration.password@,
        login_faults(req).is_clean(),
    ensures
        login_result(after, req, secret, lifetime, now) == session_for(
            after.last(),
            secret,
            lifetime,
            token_time(now),
        ),
        after.last().id == registered.user.id,
        match login_result(after, req, secret, lifetime, now) {
            Ok(session) => session.user.id == registered.user.id,
            Err(e) => e == AuthError::Internal,
        },
{
    registration_keeps_users_unique(
        before,
        registration,
        secret,
        lifetime,
        registered_at,
        Ok(registered),
        after,
    );
}

/// No query removes a user: whoever was among the users before a faithful
/// store answered a query is among them afterwards.
pub proof fn queries_remove_nobody(
    before: Seq<UserView>,
    query: QueryView,
    reply: ReplyView,
    after: Seq<UserView>,
    id: u64,
)
    requires
        answers(before, query, reply, after),
        id_taken(before, id),
    ensures
        id_taken(after, id),
        after.len() >= before.len(),
{
    let i = choose|i: int| 0 <= i < before.len() && (#[trigger] before[i]).id == id;
    assert(after[i].id == id);
}

/// A soft deletion removes nobody: the users are as many as before, and
/// whoever was among them still is.
pub proof fn deletion_removes_nobody(
    before: Seq<UserView>,
    id: u64,
    at: Timestamp,
    done: bool,
    after: Seq<UserView>,
    other: u64,
)
    requires
        soft_deletes(before, id, at, done, after),
        id_taken(before, other),
    ensures
        id_taken(after, other),
        after.len() == before.len(),
{
    let i = choose|i: int| 0 <= i < before.len() && (#[trigger] before[i]).id == other;
    assert(after[i].id == other);
}

/// The boundary of the password rule at registration: a password of 7
/// characters breaks it, a password of 8 characters keeps it, and with a
/// username and an email that keep their rules the request then passes.
pub proof fn password_boundary(req: RegisterRequest)
    ensures
        req.password@.len() == 7 ==> register_faults(req).password && !register_faults(
            req,
        ).is_clean(),
        req.password@.len() == 8 ==> !register_faults(req).password,
        req.password@.len() == 8 && username_ok(req.username@) && email_syntax_ok(req.email@)
            ==> register_faults(req).is_clean(),
{
}

} // verus!
