use vstd::prelude::*;

use crate::error::AppError;
use crate::ids::{hyphenated, parse_uuid, random_uuid, uuid_parse, uuid_to_text};
use crate::models::{
    can_shift, shifted, shows_user, CreateUserRequest, Invitation, InvitationResponse,
    LoginRequest, RefreshToken, Timestamp, User, UserResponse,
};
use crate::services::jwt::{
    all_alphanumeric, claims_for, AuthResponse, Claims, JwtService, REFRESH_EXPIRY_DAYS,
    REFRESH_TOKEN_LENGTH, SECONDS_PER_DAY,
};
use crate::services::stego::{
    internal_starting, sealed_with_some_nonce, unseal, SteganographyService, Unsealed,
};
use crate::text::{joined, parse_i64, parse_integer};

verus! {

#[verifier::external_type_specification]
#[verifier::external_body]
pub struct ExBcryptError(bcrypt::BcryptError);

/// Shortest accepted username, in bytes.
pub const MIN_USERNAME_BYTES: usize = 3;

/// Shortest accepted password, in bytes.
pub const MIN_PASSWORD_BYTES: usize = 8;

/// What `bcrypt::verify` says of `password` against the stored `hash`:
/// whether it matches, or nothing where it fails (a malformed hash).
pub uninterp spec fn bcrypt_check(password: Seq<char>, hash: Seq<char>) -> Option<bool>;

/// Hashes a password with `bcrypt::hash` at the default cost, under a random
/// salt. The contract claims what `bcrypt`'s code does: it fails only where the
/// operating system gives no random salt, and `bcrypt::verify` then accepts
/// the password against the hash. Nothing else is claimed of the hash.
#[verifier::external_body]
fn bcrypt_hash(password: &str) -> (r: Result<String, bcrypt::BcryptError>)
    ensures
        r matches Ok(h) ==> bcrypt_check(password@, h@) == Some(true),
{
    bcrypt::hash(password, bcrypt::DEFAULT_COST)
}

/// Checks a password against a stored hash with `bcrypt::verify`. The
/// contract claims that the outcome is a function of the two texts.
#[verifier::external_body]
fn bcrypt_verify(password: &str, hash: &str) -> (r: Result<bool, bcrypt::BcryptError>)
    ensures
        r is Ok <==> bcrypt_check(password@, hash@) is Some,
        r matches Ok(b) ==> bcrypt_check(password@, hash@) == Some(b),
{
    bcrypt::verify(password, hash)
}

/// A login with `password` passes the password check against the stored `hash`.
pub open spec fn password_accepted(password: Seq<char>, hash: Seq<char>) -> bool {
    bcrypt_check(password, hash) == Some(true)
}

/// The lifetime a session answers (`expires_in`) is the lifetime of the
/// access token signed for it: what `session_step` puts in the claims it asks
/// to sign, and what it later answers, give the same span.
pub proof fn law_answered_lifetime_is_token_lifetime(
    jwt: JwtService,
    claims: Claims,
    user: User,
    now: Timestamp,
    answer: AuthResponse,
)
    requires
        claims_for(claims, user, now, jwt.expiry()),
        answer.expires_in == jwt.expiry(),
    ensures
        answer.expires_in == claims.exp - claims.iat,
{
}

/// The length of a text in bytes (UTF-8).
pub open spec fn byte_len(s: Seq<char>) -> nat {
    vstd::utf8::encode_utf8(s).len()
}

/// Where a registration stands.
pub enum RegisterStep {
    /// The invitation named by the request is being looked up.
    AwaitingInvitation { request: CreateUserRequest },
    /// The new account is being stored.
    AwaitingUser { invitation: Invitation },
    /// The invitation is being marked as used by the new account.
    AwaitingInvitationUse { user: User },
    /// The request is answered.
    Finished,
}

/// What the server does next for a registration.
pub enum RegisterAction {
    /// Look up an unused, unexpired invitation with this token.
    FindInvitation { token: String },
    /// Store a new, non-admin account.
    InsertUser { username: String, email: String, password_hash: String },
    /// Record that the invitation with this token was used by this account.
    MarkInvitationUsed { user_id: u128, token: String },
    /// Answer the request.
    Reply(Result<UserResponse, AppError>),
}

/// What the server learned from the last action of a registration.
pub enum RegisterEvent {
    InvitationLookedUp(Option<Invitation>),
    UserInserted(User),
    /// The username or the email is already taken.
    UserRejectedAsDuplicate,
    InvitationMarked,
    /// The database failed; the text describes the error.
    DatabaseFailed(String),
}

/// `event` answers the action that left the registration at `step`.
pub open spec fn register_expects(step: RegisterStep, event: RegisterEvent) -> bool {
    match step {
        RegisterStep::AwaitingInvitation { .. } => event is InvitationLookedUp || event is DatabaseFailed,
        RegisterStep::AwaitingUser { .. } => event is UserInserted || event is UserRejectedAsDuplicate
            || event is DatabaseFailed,
        RegisterStep::AwaitingInvitationUse { .. } => event is InvitationMarked || event is DatabaseFailed,
        RegisterStep::Finished => false,
    }
}

/// The registration has ended with the error `e`, and nothing more is done.
pub open spec fn register_failed_with(r: (RegisterStep, RegisterAction), e: AppError) -> bool {
    r.0 is Finished && r.1 == RegisterAction::Reply(Err(e))
}

/// `m` is the text of some error of `bcrypt` (as its `Display` writes it).
pub open spec fn bcrypt_error_text(m: String) -> bool {
    exists|e: bcrypt::BcryptError| vstd::string::to_string_from_display_ensures::<bcrypt::BcryptError>(&e, m)
}

/// The registration has ended with a server-side error, the text of a failure
/// of `bcrypt`.
pub open spec fn register_failed_internally(r: (RegisterStep, RegisterAction)) -> bool {
    r.0 is Finished && (r.1 matches RegisterAction::Reply(Err(AppError::Internal(m))) && bcrypt_error_text(m))
}

/// The registration has ended with a refusal reading `text`.
pub open spec fn register_refused(r: (RegisterStep, RegisterAction), text: Seq<char>) -> bool {
    r.0 is Finished && (r.1 matches RegisterAction::Reply(Err(e)) && e.is_validation_with(text))
}

/// Starts a registration: the invitation it names is looked up first.
pub fn register(request: CreateUserRequest) -> (r: (RegisterStep, RegisterAction))
    ensures
        r.0 == (RegisterStep::AwaitingInvitation { request }),
        r.1 matches RegisterAction::FindInvitation { token } && token@ == request.invitation_token@,
{
    let token = request.invitation_token.clone();
    (RegisterStep::AwaitingInvitation { request }, RegisterAction::FindInvitation { token })
}

/// How `register_step` moves a registration at `step` on `event` to `r`.
pub open spec fn register_moves(step: RegisterStep, event: RegisterEvent, r: (RegisterStep, RegisterAction)) -> bool {
    &&& (event matches RegisterEvent::DatabaseFailed(m) ==> register_failed_with(
            r,
            AppError::Database(m),
        ))
    &&& (step matches RegisterStep::AwaitingInvitation { request } ==> match event {
            RegisterEvent::InvitationLookedUp(None) => register_refused(
                r,
                "Invalid or expired invitation token"@,
            ),
            RegisterEvent::InvitationLookedUp(Some(invitation)) => {
                if byte_len(request.username@) < MIN_USERNAME_BYTES {
                    register_refused(r, "Username must be at least 3 characters long"@)
                } else if byte_len(request.password@) < MIN_PASSWORD_BYTES {
                    register_refused(r, "Password must be at least 8 characters long"@)
                } else {
                    register_failed_internally(r) || (r.0 == (RegisterStep::AwaitingUser {
                        invitation,
                    }) && (r.1 matches RegisterAction::InsertUser {
                        username,
                        email,
                        password_hash,
                    } && username@ == request.username@ && email@ == request.email@
                        && password_accepted(request.password@, password_hash@)))
                }
            },
            _ => true,
        })
    &&& (step matches RegisterStep::AwaitingUser { invitation } ==> match event {
            RegisterEvent::UserRejectedAsDuplicate => register_refused(
                r,
                "Username or email already used"@,
            ),
            RegisterEvent::UserInserted(user) => r.0 == (RegisterStep::AwaitingInvitationUse {
                user,
            }) && (r.1 matches RegisterAction::MarkInvitationUsed { user_id, token } && user_id
                == user.id && token@ == invitation.token@),
            _ => true,
        })
    &&& (step matches RegisterStep::AwaitingInvitationUse { user } ==> (event is InvitationMarked
            ==> r.0 is Finished && (r.1 matches RegisterAction::Reply(Ok(resp)) && shows_user(
            resp,
            user,
        ))))
}

/// Moves a registration on. The invitation must exist (unused and unexpired)
/// before anything else is checked; then the username must have at least 3
/// bytes and the password at least 8; the password is hashed with bcrypt and
/// the account stored; a taken username or email is refused; finally the
/// invitation is marked as used by the new account, and the account is
/// answered. A database failure ends the registration with that failure.
pub fn register_step(step: RegisterStep, event: RegisterEvent) -> (r: (RegisterStep, RegisterAction))
    requires
        register_expects(step, event),
    ensures
        register_moves(step, event, r),

{
    match step {
        RegisterStep::AwaitingInvitation { request } => match event {
            RegisterEvent::InvitationLookedUp(found) => match found {
                None => (
                    RegisterStep::Finished,
                    RegisterAction::Reply(
                        Err(AppError::Validation("Invalid or expired invitation token".to_string())),
                    ),
                ),
                Some(invitation) => {
                    if request.username.as_str().as_bytes().len() < MIN_USERNAME_BYTES {
                        return (
                            RegisterStep::Finished,
                            RegisterAction::Reply(
                                Err(
                                    AppError::Validation(
                                        "Username must be at least 3 characters long".to_string(),
                                    ),
                                ),
                            ),
                        );
                    }
                    if request.password.as_str().as_bytes().len() < MIN_PASSWORD_BYTES {
                        return (
                            RegisterStep::Finished,
                            RegisterAction::Reply(
                                Err(
                                    AppError::Validation(
                                        "Password must be at least 8 characters long".to_string(),
                                    ),
                                ),
                            ),
                        );
                    }
                    match bcrypt_hash(request.password.as_str()) {
                        Ok(password_hash) => (
                            RegisterStep::AwaitingUser { invitation },
                            RegisterAction::InsertUser {
                                username: request.username,
                                email: request.email,
                                password_hash,
                            },
                        ),
                        Err(e) => (
                            RegisterStep::Finished,
                            RegisterAction::Reply(Err(AppError::Internal(e.to_string()))),
                        ),
                    }
                },
            },
            RegisterEvent::DatabaseFailed(m) => (
                RegisterStep::Finished,
                RegisterAction::Reply(Err(AppError::Database(m))),
            ),
            _ => vstd::pervasive::unreached(),
        },
        RegisterStep::AwaitingUser { invitation } => match event {
            RegisterEvent::UserInserted(user) => {
                let user_id = user.id;
                let token = invitation.token;
                (
                    RegisterStep::AwaitingInvitationUse { user },
                    RegisterAction::MarkInvitationUsed { user_id, token },
                )
            },
            RegisterEvent::UserRejectedAsDuplicate => (
                RegisterStep::Finished,
                RegisterAction::Reply(
                    Err(AppError::Validation("Username or email already used".to_string())),
                ),
            ),
            RegisterEvent::DatabaseFailed(m) => (
                RegisterStep::Finished,
                RegisterAction::Reply(Err(AppError::Database(m))),
            ),
            _ => vstd::pervasive::unreached(),
        },
        RegisterStep::AwaitingInvitationUse { user } => match event {
            RegisterEvent::InvitationMarked => {
                let resp = user.to_response();
                (RegisterStep::Finished, RegisterAction::Reply(Ok(resp)))
            },
            RegisterEvent::DatabaseFailed(m) => (
                RegisterStep::Finished,
                RegisterAction::Reply(Err(AppError::Database(m))),
            ),
            _ => vstd::pervasive::unreached(),
        },
        RegisterStep::Finished => vstd::pervasive::unreached(),
    }
}

/// A registration whose invitation was found, with a username of at least 3
/// bytes and a password of at least 8, goes on to store the account: under the
/// requested username and email, with a hash that bcrypt accepts for the
/// requested password, keeping the invitation for the next step. The one other
/// outcome is a server error carrying the text of a bcrypt failure: the
/// hashing itself failed.
pub proof fn law_valid_registration_stores_account(
    request: CreateUserRequest,
    invitation: Invitation,
    r: (RegisterStep, RegisterAction),
)
    requires
        register_moves(
            RegisterStep::AwaitingInvitation { request },
            RegisterEvent::InvitationLookedUp(Some(invitation)),
            r,
        ),
        vstd::utf8::encode_utf8(request.username@).len() >= 3,
        vstd::utf8::encode_utf8(request.password@).len() >= 8,
    ensures
        ({
            &&& r.0 == (RegisterStep::AwaitingUser { invitation })
            &&& r.1 matches RegisterAction::InsertUser { username, email, password_hash }
            &&& r.1->username@ == request.username@
            &&& r.1->email@ == request.email@
            &&& bcrypt_check(request.password@, r.1->password_hash@) == Some(true)
        }) || ({
            &&& r.0 is Finished
            &&& r.1 matches RegisterAction::Reply(Err(AppError::Internal(m)))
            &&& exists|e: bcrypt::BcryptError|
                vstd::string::to_string_from_display_ensures::<bcrypt::BcryptError>(&e, r.1->Reply_0->Err_0->Internal_0)
        }),
{
}

/// A registration is refused, and nothing is stored, when its invitation is
/// not found (unused and unexpired), or the username has fewer than 3 bytes,
/// or the password fewer than 8; the invitation is checked first, then the
/// username, then the password.
pub proof fn law_registration_refusals(
    request: CreateUserRequest,
    found: Option<Invitation>,
    r: (RegisterStep, RegisterAction),
)
    requires
        register_moves(RegisterStep::AwaitingInvitation { request }, RegisterEvent::InvitationLookedUp(found), r),
    ensures
        found is None ==> r.0 is Finished && (r.1 matches RegisterAction::Reply(Err(AppError::Validation(m)))
            && m@ == "Invalid or expired invitation token"@),
        found is Some && vstd::utf8::encode_utf8(request.username@).len() < 3 ==> r.0 is Finished
            && (r.1 matches RegisterAction::Reply(Err(AppError::Validation(m)))
            && m@ == "Username must be at least 3 characters long"@),
        found is Some && vstd::utf8::encode_utf8(request.username@).len() >= 3
            && vstd::utf8::encode_utf8(request.password@).len() < 8 ==> r.0 is Finished
            && (r.1 matches RegisterAction::Reply(Err(AppError::Validation(m)))
            && m@ == "Password must be at least 8 characters long"@),
{
}

/// Once the account is stored, the invitation that admitted it is marked as
/// used by that account; once marked, the registration answers that account.
/// A taken username or email is refused instead.
pub proof fn law_stored_account_uses_invitation(
    invitation: Invitation,
    user: User,
    marked: (RegisterStep, RegisterAction),
    answered: (RegisterStep, RegisterAction),
    duplicate: (RegisterStep, RegisterAction),
)
    requires
        register_moves(RegisterStep::AwaitingUser { invitation }, RegisterEvent::UserInserted(user), marked),
        register_moves(marked.0, RegisterEvent::InvitationMarked, answered),
        register_moves(RegisterStep::AwaitingUser { invitation }, RegisterEvent::UserRejectedAsDuplicate, duplicate),
    ensures
        marked.1 matches RegisterAction::MarkInvitationUsed { user_id, token } && user_id == user.id
            && token@ == invitation.token@,
        answered.0 is Finished,
        answered.1 matches RegisterAction::Reply(Ok(resp)) && resp.id == user.id
            && resp.username@ == user.username@ && resp.email@ == user.email@
            && resp.is_admin == user.is_admin && resp.created_at == user.created_at
            && resp.last_seen == user.last_seen,
        duplicate.0 is Finished && (duplicate.1 matches RegisterAction::Reply(Err(AppError::Validation(m)))
            && m@ == "Username or email already used"@),
{
}

/// A request to trade a refresh token for a new session.
pub struct RefreshTokenRequest {
    pub refresh_token: String,
}

/// Where a login or a token refresh stands.
pub enum SessionStep {
    /// Login: the account with the given email is being looked up.
    AwaitingAccount { password: String },
    /// Login: the account's last-seen time is being updated.
    AwaitingLastSeen { user: User },
    /// Refresh: the refresh token is being looked up (valid, unexpired, not revoked).
    AwaitingRefreshRecord,
    /// Refresh: the token's owner is being fetched.
    AwaitingOwner { record: RefreshToken },
    /// Refresh: the old refresh token is being revoked.
    AwaitingRevocation { user: User },
    /// The access token is being signed.
    AwaitingAccessToken { user: User },
    /// The new refresh token is being stored.
    AwaitingRefreshStorage { user: User, access_token: String, refresh_token: String },
    /// The request is answered.
    Finished,
}

/// What the server does next for a login or a refresh.
pub enum SessionAction {
    FindUserByEmail { email: String },
    TouchLastSeen { user_id: u128 },
    FindRefreshToken { token: String },
    FindUserById { user_id: u128 },
    RevokeRefreshToken { id: u128 },
    /// Sign these claims as an access token.
    SignAccessToken { claims: Claims },
    StoreRefreshToken { user_id: u128, token: String, expires_at: Timestamp },
    Reply(Result<AuthResponse, AppError>),
}

/// What the server learned from the last action of a login or a refresh.
pub enum SessionEvent {
    AccountFound(Option<User>),
    /// The last-seen time was updated; `now` is the current time.
    LastSeenTouched { now: Timestamp },
    RefreshRecordFound(Option<RefreshToken>),
    OwnerFound(User),
    /// The old token was revoked; `now` is the current time.
    Revoked { now: Timestamp },
    /// The signing gave a token or failed with a description; `now` is the current time.
    AccessTokenSigned { token: Result<String, String>, now: Timestamp },
    RefreshTokenStored,
    DatabaseFailed(String),
}

/// `event` answers the action that left the session at `step`, and the
/// times it brings keep the token lifetimes within the range of timestamps.
pub open spec fn session_expects(jwt: JwtService, step: SessionStep, event: SessionEvent) -> bool {
    match step {
        SessionStep::AwaitingAccount { .. } => event is AccountFound || event is DatabaseFailed,
        SessionStep::AwaitingLastSeen { .. } => event is DatabaseFailed || (event matches SessionEvent::LastSeenTouched { now } && can_shift(now, jwt.expiry() as int)),
        SessionStep::AwaitingRefreshRecord => event is RefreshRecordFound || event is DatabaseFailed,
        SessionStep::AwaitingOwner { .. } => event is OwnerFound || event is DatabaseFailed,
        SessionStep::AwaitingRevocation { .. } => event is DatabaseFailed || (event matches SessionEvent::Revoked { now } && can_shift(now, jwt.expiry() as int)),
        SessionStep::AwaitingAccessToken { .. } => event is DatabaseFailed || (event matches SessionEvent::AccessTokenSigned { token, now } && (token is Ok ==> can_shift(now, REFRESH_EXPIRY_DAYS * SECONDS_PER_DAY))),
        SessionStep::AwaitingRefreshStorage { .. } => event is RefreshTokenStored || event is DatabaseFailed,
        SessionStep::Finished => false,
    }
}

/// The session request has ended with the error `e`.
pub open spec fn session_failed_with(r: (SessionStep, SessionAction), e: AppError) -> bool {
    r.0 is Finished && r.1 == SessionAction::Reply(Err(e))
}

/// The session request has ended with a refusal reading `text`.
pub open spec fn session_refused(r: (SessionStep, SessionAction), text: Seq<char>) -> bool {
    r.0 is Finished && (r.1 matches SessionAction::Reply(Err(e)) && e.is_validation_with(text))
}

/// The session goes on to sign the access token of `user`, issued at `now`.
pub open spec fn signs_for(r: (SessionStep, SessionAction), jwt: JwtService, user: User, now: Timestamp) -> bool {
    &&& r.0 == (SessionStep::AwaitingAccessToken { user })
    &&& r.1 matches SessionAction::SignAccessToken { claims } && claims_for(claims, user, now, jwt.expiry())
}

/// Starts a login: the account is looked up by its email.
pub fn login(request: LoginRequest) -> (r: (SessionStep, SessionAction))
    ensures
        r.0 == (SessionStep::AwaitingAccount { password: request.password }),
        r.1 matches SessionAction::FindUserByEmail { email } && email@ == request.email@,
{
    (
        SessionStep::AwaitingAccount { password: request.password },
        SessionAction::FindUserByEmail { email: request.email },
    )
}

/// Starts a token refresh: the refresh token is looked up.
pub fn refresh_token(request: RefreshTokenRequest) -> (r: (SessionStep, SessionAction))
    ensures
        r.0 is AwaitingRefreshRecord,
        r.1 matches SessionAction::FindRefreshToken { token } && token@ == request.refresh_token@,
{
    (SessionStep::AwaitingRefreshRecord, SessionAction::FindRefreshToken { token: request.refresh_token })
}

/// How `session_step` moves a login or a refresh at `step` on `event` to `r`.
pub open spec fn session_moves(jwt: JwtService, step: SessionStep, event: SessionEvent, r: (SessionStep, SessionAction)) -> bool {
    &&& (event matches SessionEvent::DatabaseFailed(m) ==> session_failed_with(r, AppError::Database(m)))
    &&& (step matches SessionStep::AwaitingAccount { password } ==> match event {
            SessionEvent::AccountFound(None) => session_refused(r, "Invalid credentials"@),
            SessionEvent::AccountFound(Some(user)) => if password_accepted(password@, user.password_hash@) {
                r.0 == (SessionStep::AwaitingLastSeen { user }) && r.1 == (SessionAction::TouchLastSeen { user_id: user.id })
            } else if bcrypt_check(password@, user.password_hash@) is None {
                r.0 is Finished && (r.1 matches SessionAction::Reply(Err(AppError::Internal(m))) && bcrypt_error_text(m))
            } else {
                session_refused(r, "Invalid credentials"@)
            },
            _ => true,
        })
    &&& (step matches SessionStep::AwaitingLastSeen { user } ==> (event matches SessionEvent::LastSeenTouched { now } ==> signs_for(r, jwt, user, now)))
    &&& (step matches SessionStep::AwaitingRefreshRecord ==> match event {
            SessionEvent::RefreshRecordFound(None) => session_refused(r, "Invalid or expired refresh token"@),
            SessionEvent::RefreshRecordFound(Some(record)) => r.0 == (SessionStep::AwaitingOwner { record }) && r.1 == (SessionAction::FindUserById { user_id: record.user_id }),
            _ => true,
        })
    &&& (step matches SessionStep::AwaitingOwner { record } ==> (event matches SessionEvent::OwnerFound(user) ==> r.0 == (SessionStep::AwaitingRevocation { user }) && r.1 == (SessionAction::RevokeRefreshToken { id: record.id })))
    &&& (step matches SessionStep::AwaitingRevocation { user } ==> (event matches SessionEvent::Revoked { now } ==> signs_for(r, jwt, user, now)))
    &&& (step matches SessionStep::AwaitingAccessToken { user } ==> match event {
            SessionEvent::AccessTokenSigned { token: Err(detail), .. } => r.0 is Finished && (r.1 matches SessionAction::Reply(Err(AppError::Internal(m))) && m@ == "Token generation failed: "@ + detail@),
            SessionEvent::AccessTokenSigned { token: Ok(access_token), now } => (r.0 matches SessionStep::AwaitingRefreshStorage { user: u, access_token: a, refresh_token: t } && u == user && a == access_token && (r.1 matches SessionAction::StoreRefreshToken { user_id, token, expires_at } && user_id == user.id && token@ == t@ && token@.len() == REFRESH_TOKEN_LENGTH && all_alphanumeric(token@) && expires_at == shifted(now, REFRESH_EXPIRY_DAYS * SECONDS_PER_DAY))),
            _ => true,
        })
    &&& (step matches SessionStep::AwaitingRefreshStorage { user, access_token, refresh_token } ==> (event is RefreshTokenStored ==> r.0 is Finished && (r.1 matches SessionAction::Reply(Ok(resp)) && shows_user(resp.user, user) && resp.access_token == access_token && resp.refresh_token == refresh_token && resp.expires_in == jwt.expiry())))
}

/// Moves a login or a token refresh on.
///
/// Login: an unknown email or a password that bcrypt does not accept are
/// both refused as "Invalid credentials"; otherwise the last-seen time is
/// updated. Refresh: an unknown, expired or revoked token is refused; its
/// owner is fetched and the old token revoked. Both then sign an access
/// token for the user (claims expiring `expiry_seconds()` from now), draw a
/// fresh 64-character refresh token, store it to expire 7 days from now, and
/// answer the user, both tokens and the access token's lifetime. A database
/// failure ends the request with that failure.
pub fn session_step(jwt: &JwtService, step: SessionStep, event: SessionEvent) -> (r: (SessionStep, SessionAction))
    requires
        session_expects(*jwt, step, event),
    ensures
        session_moves(*jwt, step, event, r),

{
    match step {
        SessionStep::AwaitingAccount { password } => match event {
            SessionEvent::AccountFound(None) => (
                SessionStep::Finished,
                SessionAction::Reply(Err(AppError::Validation("Invalid credentials".to_string()))),
            ),
            SessionEvent::AccountFound(Some(user)) => match bcrypt_verify(password.as_str(), user.password_hash.as_str()) {
                Err(e) => (SessionStep::Finished, SessionAction::Reply(Err(AppError::Internal(e.to_string())))),
                Ok(false) => (
                    SessionStep::Finished,
                    SessionAction::Reply(Err(AppError::Validation("Invalid credentials".to_string()))),
                ),
                Ok(true) => {
                    let user_id = user.id;
                    (SessionStep::AwaitingLastSeen { user }, SessionAction::TouchLastSeen { user_id })
                },
            },
            SessionEvent::DatabaseFailed(m) => (SessionStep::Finished, SessionAction::Reply(Err(AppError::Database(m)))),
            _ => vstd::pervasive::unreached(),
        },
        SessionStep::AwaitingLastSeen { user } => match event {
            SessionEvent::LastSeenTouched { now } => {
                let claims = jwt.access_claims(&user, now);
                (SessionStep::AwaitingAccessToken { user }, SessionAction::SignAccessToken { claims })
            },
            SessionEvent::DatabaseFailed(m) => (SessionStep::Finished, SessionAction::Reply(Err(AppError::Database(m)))),
            _ => vstd::pervasive::unreached(),
        },
        SessionStep::AwaitingRefreshRecord => match event {
            SessionEvent::RefreshRecordFound(None) => (
                SessionStep::Finished,
                SessionAction::Reply(Err(AppError::Validation("Invalid or expired refresh token".to_string()))),
            ),
            SessionEvent::RefreshRecordFound(Some(record)) => {
                let user_id = record.user_id;
                (SessionStep::AwaitingOwner { record }, SessionAction::FindUserById { user_id })
            },
            SessionEvent::DatabaseFailed(m) => (SessionStep::Finished, SessionAction::Reply(Err(AppError::Database(m)))),
            _ => vstd::pervasive::unreached(),
        },
        SessionStep::AwaitingOwner { record } => match event {
            SessionEvent::OwnerFound(user) => (
                SessionStep::AwaitingRevocation { user },
                SessionAction::RevokeRefreshToken { id: record.id },
            ),
            SessionEvent::DatabaseFailed(m) => (SessionStep::Finished, SessionAction::Reply(Err(AppError::Database(m)))),
            _ => vstd::pervasive::unreached(),
        },
        SessionStep::AwaitingRevocation { user } => match event {
            SessionEvent::Revoked { now } => {
                let claims = jwt.access_claims(&user, now);
                (SessionStep::AwaitingAccessToken { user }, SessionAction::SignAccessToken { claims })
            },
            SessionEvent::DatabaseFailed(m) => (SessionStep::Finished, SessionAction::Reply(Err(AppError::Database(m)))),
            _ => vstd::pervasive::unreached(),
        },
        SessionStep::AwaitingAccessToken { user } => match event {
            SessionEvent::AccessTokenSigned { token, now } => match token {
                Err(detail) => (
                    SessionStep::Finished,
                    SessionAction::Reply(Err(AppError::Internal(joined("Token generation failed: ", detail.as_str())))),
                ),
                Ok(access_token) => {
                    let refresh_token = jwt.generate_refresh_token();
                    let expires_at = jwt.refresh_expires_at(now);
                    let user_id = user.id;
                    let token = refresh_token.clone();
                    (
                        SessionStep::AwaitingRefreshStorage { user, access_token, refresh_token },
                        SessionAction::StoreRefreshToken { user_id, token, expires_at },
                    )
                },
            },
            SessionEvent::DatabaseFailed(m) => (SessionStep::Finished, SessionAction::Reply(Err(AppError::Database(m)))),
            _ => vstd::pervasive::unreached(),
        },
        SessionStep::AwaitingRefreshStorage { user, access_token, refresh_token } => match event {
            SessionEvent::RefreshTokenStored => {
                let response = AuthResponse {
                    user: user.to_response(),
                    access_token,
                    refresh_token,
                    expires_in: jwt.expiry_seconds(),
                };
                (SessionStep::Finished, SessionAction::Reply(Ok(response)))
            },
            SessionEvent::DatabaseFailed(m) => (SessionStep::Finished, SessionAction::Reply(Err(AppError::Database(m)))),
            _ => vstd::pervasive::unreached(),
        },
        SessionStep::Finished => vstd::pervasive::unreached(),
    }
}

/// At login, once the account's last-seen time is updated at `now`, the access
/// token asked for names that account: its identifier (hyphenated), its
/// username, its email and its admin flag, issued at `now` and expiring the
/// service's access lifetime later.
pub proof fn law_login_signs_for_account(jwt: JwtService, user: User, now: Timestamp, r: (SessionStep, SessionAction))
    requires
        session_moves(jwt, SessionStep::AwaitingLastSeen { user }, SessionEvent::LastSeenTouched { now }, r),
    ensures
        r.0 == (SessionStep::AwaitingAccessToken { user }),
        r.1 matches SessionAction::SignAccessToken { claims } && claims.sub@ == hyphenated(user.id)
            && claims.username@ == user.username@ && claims.email@ == user.email@
            && claims.is_admin == user.is_admin && claims.iat == now.secs
            && claims.exp == now.secs + jwt.expiry(),
{
}

/// At a token refresh, once the old refresh token is revoked at `now`, the
/// access token asked for names the token's owner, as at login.
pub proof fn law_refresh_signs_for_owner(jwt: JwtService, user: User, now: Timestamp, r: (SessionStep, SessionAction))
    requires
        session_moves(jwt, SessionStep::AwaitingRevocation { user }, SessionEvent::Revoked { now }, r),
    ensures
        r.0 == (SessionStep::AwaitingAccessToken { user }),
        r.1 matches SessionAction::SignAccessToken { claims } && claims.sub@ == hyphenated(user.id)
            && claims.username@ == user.username@ && claims.email@ == user.email@
            && claims.is_admin == user.is_admin && claims.iat == now.secs
            && claims.exp == now.secs + jwt.expiry(),
{
}

/// A login goes on only where bcrypt accepts the password against the stored
/// hash of the account found by the email; an unknown email and a rejected
/// password are both refused with the same words.
pub proof fn law_login_checks_password(jwt: JwtService, password: String, found: Option<User>, r: (SessionStep, SessionAction))
    requires
        session_moves(jwt, SessionStep::AwaitingAccount { password }, SessionEvent::AccountFound(found), r),
    ensures
        found is None ==> r.0 is Finished && (r.1 matches SessionAction::Reply(Err(AppError::Validation(m)))
            && m@ == "Invalid credentials"@),
        found matches Some(u) ==> (bcrypt_check(password@, u.password_hash@) == Some(true) ==> r.0
            == (SessionStep::AwaitingLastSeen { user: u }) && r.1 == (SessionAction::TouchLastSeen { user_id: u.id })),
        found matches Some(u) ==> (bcrypt_check(password@, u.password_hash@) == Some(false) ==> r.0 is Finished
            && (r.1 matches SessionAction::Reply(Err(AppError::Validation(m))) && m@ == "Invalid credentials"@)),
{
}

/// A token refresh revokes the very token presented, once its record is found
/// (valid, unexpired and not revoked), and works for that token's owner; a
/// token with no such record is refused.
pub proof fn law_refresh_revokes_presented_token(
    jwt: JwtService,
    found: Option<RefreshToken>,
    owner: User,
    fetched: (SessionStep, SessionAction),
    revoking: (SessionStep, SessionAction),
)
    requires
        session_moves(jwt, SessionStep::AwaitingRefreshRecord, SessionEvent::RefreshRecordFound(found), fetched),
        session_moves(jwt, fetched.0, SessionEvent::OwnerFound(owner), revoking),
    ensures
        found is None ==> fetched.0 is Finished && (fetched.1 matches SessionAction::Reply(Err(AppError::Validation(m)))
            && m@ == "Invalid or expired refresh token"@),
        found matches Some(record) ==> fetched.1 == (SessionAction::FindUserById { user_id: record.user_id })
            && revoking.0 == (SessionStep::AwaitingRevocation { user: owner })
            && revoking.1 == (SessionAction::RevokeRefreshToken { id: record.id }),
{
}

/// Once the access token is signed at `now`, a fresh refresh token of 64
/// letters and digits is stored for the user, to expire 7 days after `now`;
/// once stored, the session answers the user, that access token, that refresh
/// token and the access token's lifetime.
pub proof fn law_session_answers_both_tokens(
    jwt: JwtService,
    user: User,
    access_token: String,
    now: Timestamp,
    stored: (SessionStep, SessionAction),
    answered: (SessionStep, SessionAction),
)
    requires
        can_shift(now, 604800int),
        session_moves(
            jwt,
            SessionStep::AwaitingAccessToken { user },
            SessionEvent::AccessTokenSigned { token: Ok(access_token), now },
            stored,
        ),
        session_moves(jwt, stored.0, SessionEvent::RefreshTokenStored, answered),
    ensures
        stored.1 matches SessionAction::StoreRefreshToken { user_id, token, expires_at } && user_id == user.id
            && token@.len() == 64 && all_alphanumeric(token@)
            && expires_at.secs == now.secs + 7 * 86400 && expires_at.nanos == now.nanos,
        answered.0 is Finished,
        answered.1 matches SessionAction::Reply(Ok(resp)) && resp.access_token == access_token
            && resp.refresh_token@ == stored.1->StoreRefreshToken_token@
            && resp.expires_in == jwt.expiry() && resp.user.id == user.id
            && resp.user.username@ == user.username@ && resp.user.email@ == user.email@,
{
}

/// A signing failure ends the session with a server error that reads
/// "Token generation failed: " followed by the signer's description.
pub proof fn law_signing_failure_is_reported(
    jwt: JwtService,
    user: User,
    detail: String,
    now: Timestamp,
    r: (SessionStep, SessionAction),
)
    requires
        session_moves(
            jwt,
            SessionStep::AwaitingAccessToken { user },
            SessionEvent::AccessTokenSigned { token: Err(detail), now },
            r,
        ),
    ensures
        r.0 is Finished,
        r.1 matches SessionAction::Reply(Err(AppError::Internal(m))) && m@ == "Token generation failed: "@ + detail@,
{
}

/// Whatever step a registration, a login or a refresh is at, a failure of the
/// database ends it, answered with that failure as the database described it.
pub proof fn law_database_failure_ends_request(
    registration: RegisterStep,
    session: SessionStep,
    jwt: JwtService,
    m: String,
    r1: (RegisterStep, RegisterAction),
    r2: (SessionStep, SessionAction),
)
    requires
        register_moves(registration, RegisterEvent::DatabaseFailed(m), r1),
        session_moves(jwt, session, SessionEvent::DatabaseFailed(m), r2),
    ensures
        r1.0 is Finished && (r1.1 matches RegisterAction::Reply(Err(AppError::Database(d))) && d@ == m@),
        r2.0 is Finished && (r2.1 matches SessionAction::Reply(Err(AppError::Database(d))) && d@ == m@),
{
}

/// Seconds in an hour.
pub const SECONDS_PER_HOUR: i64 = 3600;

/// How many hours an invitation lives where nothing else is configured.
pub const DEFAULT_INVITATION_HOURS: i64 = 48;

/// The frontend's address where nothing else is configured.
pub const DEFAULT_FRONTEND_URL: &'static str = "http://localhost:4200";

/// The configuration an invitation is made with.
pub struct InvitationSettings {
    /// The configured lifetime in hours, as written (decimal).
    pub expiry_hours: Option<String>,
    /// The configured address of the frontend.
    pub frontend_url: Option<String>,
}

/// The lifetime, in hours, that the configured text gives: its decimal
/// value, or 48 where it is absent or not an `i64`.
pub open spec fn expiry_hours_of(setting: Option<Seq<char>>) -> int {
    match setting {
        None => DEFAULT_INVITATION_HOURS as int,
        Some(t) => match parse_integer(vstd::utf8::encode_utf8(t), i64::MIN as int, i64::MAX as int) {
            Some(v) => v,
            None => DEFAULT_INVITATION_HOURS as int,
        },
    }
}

/// The view of an optional text.
pub open spec fn opt_view(s: Option<String>) -> Option<Seq<char>> {
    match s {
        Some(t) => Some(t@),
        None => None,
    }
}

/// The lifetime of an invitation, in hours, from its configured text.
pub fn invitation_expiry_hours(setting: Option<&str>) -> (r: i64)
    ensures
        r == expiry_hours_of(match setting { Some(t) => Some(t@), None => None }),
        setting matches Some(t) ==> (parse_integer(vstd::utf8::encode_utf8(t@), i64::MIN as int, i64::MAX as int)
            matches Some(v) ==> r == v),
        setting matches Some(t) ==> (parse_integer(vstd::utf8::encode_utf8(t@), i64::MIN as int, i64::MAX as int)
            is None ==> r == 48),
        setting is None ==> r == 48,
{
    match setting {
        None => DEFAULT_INVITATION_HOURS,
        Some(t) => match parse_i64(t) {
            Some(v) => v,
            None => DEFAULT_INVITATION_HOURS,
        },
    }
}

/// An invitation lives the configured number of hours whenever the configured
/// text reads as an `i64` (any value, above 48 as well as below), and 48 hours
/// only where the setting is absent or does not read; it expires that many
/// hours after it is made.
pub proof fn law_configured_lifetime_is_used(text: Seq<char>, now: Timestamp)
    ensures
        forall|v: int| parse_integer(vstd::utf8::encode_utf8(text), i64::MIN as int, i64::MAX as int) == Some(v)
            ==> #[trigger] expiry_hours_of(Some(text)) == v && shifted(now, expiry_hours_of(Some(text)) * 3600)
            == shifted(now, v * 3600),
        parse_integer(vstd::utf8::encode_utf8(text), i64::MIN as int, i64::MAX as int) is None
            ==> expiry_hours_of(Some(text)) == 48,
        expiry_hours_of(None) == 48,
{
}

/// Decides who may create an invitation: only an admin, whose token names a
/// readable user identifier, which is given back.
pub fn create_invitation(claims: &Claims) -> (r: Result<u128, AppError>)
    ensures
        !claims.is_admin ==> (r matches Err(e) && e.is_validation_with("Admin access required"@)),
        claims.is_admin ==> match uuid_parse(claims.sub@) {
            Some(u) => r == Ok::<u128, AppError>(u),
            None => r matches Err(e) && e.is_internal_with("Invalid user ID in token"@),
        },
        forall|u: u128| claims.is_admin && claims.sub@ == hyphenated(u) ==> r == Ok::<u128, AppError>(u),
{
    if !claims.is_admin {
        return Err(AppError::Validation("Admin access required".to_string()));
    }
    match parse_uuid(claims.sub.as_str()) {
        Some(u) => Ok(u),
        None => Err(AppError::Internal("Invalid user ID in token".to_string())),
    }
}

/// Where an invitation's creation stands.
pub enum InviteStep {
    /// The invitation is being stored; this is the answer once it is.
    AwaitingInsert { response: InvitationResponse },
    /// The request is answered.
    Finished,
}

/// What the server does next for an invitation.
pub enum InviteAction {
    InsertInvitation { token: String, created_by: u128, expires_at: Timestamp },
    Reply(Result<InvitationResponse, AppError>),
}

/// What the server learned from storing an invitation.
pub enum InviteEvent {
    Inserted,
    DatabaseFailed(String),
}

/// Makes an invitation by `creator` at `now`: a fresh random identifier as
/// its token, living the configured number of hours (48 by default), and a
/// link to the frontend's registration page carrying the token.
pub fn invitation_issue(creator: u128, settings: &InvitationSettings, now: Timestamp) -> (r: (InviteStep, InviteAction))
    requires
        can_shift(now, expiry_hours_of(opt_view(settings.expiry_hours)) * SECONDS_PER_HOUR),
    ensures
        ({
            let expires_at = shifted(now, expiry_hours_of(opt_view(settings.expiry_hours)) * SECONDS_PER_HOUR);
            let frontend = match settings.frontend_url { Some(f) => f@, None => DEFAULT_FRONTEND_URL@ };
            &&& r.1 matches InviteAction::InsertInvitation { token, created_by, expires_at: e }
                && created_by == creator && e == expires_at
                && (exists|u: u128| token@ == hyphenated(u) && (u >> 76u128) & 0xfu128 == 4 && (u >> 62u128) & 0x3u128 == 2)
            &&& r.0 matches InviteStep::AwaitingInsert { response }
                && response.token@ == r.1->InsertInvitation_token@
                && response.invite_url@ == frontend + "/register?token="@ + response.token@
                && response.expires_at == expires_at
        }),
{
    let id = random_uuid();
    let token = uuid_to_text(id);
    let hours = invitation_expiry_hours(match &settings.expiry_hours { Some(t) => Some(t.as_str()), None => None });
    let expires_at = now.plus_seconds(hours * SECONDS_PER_HOUR);
    let frontend = match &settings.frontend_url {
        Some(f) => f.clone(),
        None => DEFAULT_FRONTEND_URL.to_string(),
    };
    let link = joined(frontend.as_str(), "/register?token=");
    let invite_url = joined(link.as_str(), token.as_str());
    let response = InvitationResponse { token: token.clone(), invite_url, expires_at };
    (
        InviteStep::AwaitingInsert { response },
        InviteAction::InsertInvitation { token, created_by: creator, expires_at },
    )
}

/// Answers an invitation once it is stored, or the database's failure.
pub fn invitation_step(step: InviteStep, event: InviteEvent) -> (r: (InviteStep, InviteAction))
    requires
        step is AwaitingInsert,
    ensures
        r.0 is Finished,
        event matches InviteEvent::DatabaseFailed(m) ==> r.1 == InviteAction::Reply(Err(AppError::Database(m))),
        event is Inserted ==> r.1 == InviteAction::Reply(Ok(step->AwaitingInsert_response)),
{
    match step {
        InviteStep::AwaitingInsert { response } => match event {
            InviteEvent::Inserted => (InviteStep::Finished, InviteAction::Reply(Ok(response))),
            InviteEvent::DatabaseFailed(m) => (InviteStep::Finished, InviteAction::Reply(Err(AppError::Database(m)))),
        },
        InviteStep::Finished => vstd::pervasive::unreached(),
    }
}

/// What the current user is shown of themselves.
pub struct CurrentUser {
    pub id: String,
    pub username: String,
    pub email: String,
    pub is_admin: bool,
}

/// The current user, as the claims of their token name them.
pub fn get_current_user(claims: &Claims) -> (r: CurrentUser)
    ensures
        r.id@ == claims.sub@,
        r.username@ == claims.username@,
        r.email@ == claims.email@,
        r.is_admin == claims.is_admin,
{
    CurrentUser {
        id: claims.sub.clone(),
        username: claims.username.clone(),
        email: claims.email.clone(),
        is_admin: claims.is_admin,
    }
}

/// A message to seal and open again, to check the sealing.
pub struct StegoTestRequest {
    pub message: String,
}

/// A message, its sealed text, what that opens to, and whether it matches.
pub struct StegoTestResponse {
    pub original: String,
    pub encoded: String,
    pub decoded: String,
    pub matches: bool,
}

/// Seals the request's message and opens it again. Whenever sealing
/// succeeds, opening gives the message back.
pub fn test_steganography(service: &SteganographyService, request: &StegoTestRequest) -> (r: Result<StegoTestResponse, AppError>)
    requires
        (vstd::utf8::encode_utf8(request.message@).len() + 30) / 3 * 4 <= isize::MAX,
    ensures
        r is Ok <==> vstd::utf8::encode_utf8(request.message@).len() / 64 < 0xffff_ffff,
        r matches Ok(resp) ==> {
            &&& resp.original@ == request.message@
            &&& resp.decoded@ == request.message@
            &&& resp.matches
            &&& sealed_with_some_nonce(service.key(), request.message@, resp.encoded@)
            &&& unseal(service.key(), resp.encoded@) == Unsealed::Opened(request.message@)
        },
        r matches Err(e) ==> internal_starting(e, "Encryption failed: "@),
{
    let encoded = match service.encode(request.message.as_str()) {
        Ok(s) => s,
        Err(e) => return Err(e),
    };
    let decoded = match service.decode(encoded.as_str()) {
        Ok(s) => s,
        Err(e) => return Err(e),
    };
    let matches = request.message == decoded;
    Ok(StegoTestResponse { original: request.message.clone(), encoded, decoded, matches })
}

} // verus!
