use vstd::prelude::*;

use crate::handlers::auth::{
    byte_len, password_accepted, register_moves, session_moves, RegisterAction, RegisterEvent,
    RegisterStep, SessionAction, SessionEvent, SessionStep, MIN_PASSWORD_BYTES,
    MIN_USERNAME_BYTES,
};
use crate::models::{CreateUserRequest, Invitation, RefreshToken, Timestamp, User};
use crate::services::jwt::JwtService;

verus! {

/// The tables that the workflows' actions read and write, as the server's
/// queries treat them: accounts and refresh tokens by identifier,
/// invitations by token.
pub struct Store {
    pub users: Map<u128, User>,
    pub invitations: Map<Seq<char>, Invitation>,
    pub refresh_tokens: Map<u128, RefreshToken>,
}

/// `a` comes strictly before `b`.
pub open spec fn before(a: Timestamp, b: Timestamp) -> bool {
    a.secs < b.secs || (a.secs == b.secs && a.nanos < b.nanos)
}

/// What `FindInvitation { token }` finds at `now`: the invitation with that
/// token, where it is unused and expires after `now`.
pub open spec fn invitation_found(s: Store, token: Seq<char>, now: Timestamp) -> Option<Invitation> {
    if s.invitations.contains_key(token) && s.invitations[token].used_by is None && before(
        now,
        s.invitations[token].expires_at,
    ) {
        Some(s.invitations[token])
    } else {
        None
    }
}

/// The store after `MarkInvitationUsed { user_id, token }` at `now`.
pub open spec fn invitation_marked(s: Store, user_id: u128, token: Seq<char>, now: Timestamp) -> Store {
    if s.invitations.contains_key(token) {
        Store {
            invitations: s.invitations.insert(
                token,
                Invitation { used_by: Some(user_id), used_at: Some(now), ..s.invitations[token] },
            ),
            ..s
        }
    } else {
        s
    }
}

/// The store after `InsertInvitation { token, created_by, expires_at }` at `now`.
pub open spec fn invitation_inserted(
    s: Store,
    token: String,
    created_by: u128,
    expires_at: Timestamp,
    now: Timestamp,
) -> Store {
    Store {
        invitations: s.invitations.insert(
            token@,
            Invitation { token, created_by, expires_at, used_by: None, used_at: None, created_at: now },
        ),
        ..s
    }
}

/// The store after `StoreRefreshToken { user_id, token, expires_at }` kept
/// the token under the fresh identifier `id` at `now`.
pub open spec fn refresh_stored(
    s: Store,
    id: u128,
    user_id: u128,
    token: String,
    expires_at: Timestamp,
    now: Timestamp,
) -> Store {
    Store {
        refresh_tokens: s.refresh_tokens.insert(
            id,
            RefreshToken { id, user_id, token, expires_at, created_at: now, revoked: false },
        ),
        ..s
    }
}

/// `FindRefreshToken { token }` at `now` can find the stored token `id`: it
/// has that text, is not revoked and expires after `now`.
pub open spec fn refresh_usable(s: Store, id: u128, token: Seq<char>, now: Timestamp) -> bool {
    &&& s.refresh_tokens.contains_key(id)
    &&& s.refresh_tokens[id].token@ == token
    &&& !s.refresh_tokens[id].revoked
    &&& before(now, s.refresh_tokens[id].expires_at)
}

/// The store after `RevokeRefreshToken { id }`.
pub open spec fn refresh_revoked(s: Store, id: u128) -> Store {
    if s.refresh_tokens.contains_key(id) {
        Store {
            refresh_tokens: s.refresh_tokens.insert(
                id,
                RefreshToken { revoked: true, ..s.refresh_tokens[id] },
            ),
            ..s
        }
    } else {
        s
    }
}

/// Some stored account already has this username or this email; storing
/// another is refused as a duplicate.
pub open spec fn account_taken(s: Store, username: Seq<char>, email: Seq<char>) -> bool {
    exists|id: u128|
        #![trigger s.users[id]]
        s.users.contains_key(id) && (s.users[id].username@ == username || s.users[id].email@ == email)
}

/// The store after `InsertUser` stored a non-admin account under the fresh
/// identifier `id` at `now`.
pub open spec fn user_inserted(
    s: Store,
    id: u128,
    username: String,
    email: String,
    password_hash: String,
    now: Timestamp,
) -> Store {
    Store {
        users: s.users.insert(
            id,
            User { id, username, email, password_hash, is_admin: false, created_at: now, last_seen: None },
        ),
        ..s
    }
}

/// What `FindUserByEmail { email }` finds: the account with that email.
pub open spec fn user_with_email(s: Store, email: Seq<char>) -> Option<User> {
    if exists|id: u128| #![trigger s.users[id]] s.users.contains_key(id) && s.users[id].email@ == email {
        let id = choose|id: u128| #![trigger s.users[id]] s.users.contains_key(id) && s.users[id].email@ == email;
        Some(s.users[id])
    } else {
        None
    }
}

/// An invitation admits one registration: once a registration marks it
/// used, looking it up again, at any time, finds nothing, so a second
/// registration with the same token is refused (`register_step`).
pub proof fn law_invitation_admits_one_registration(
    s: Store,
    user_id: u128,
    token: Seq<char>,
    marked_at: Timestamp,
    later: Timestamp,
)
    ensures
        invitation_found(invitation_marked(s, user_id, token, marked_at), token, later) is None,
{
}

/// A new invitation admits a registration: looking its token up at any time
/// before it expires finds it, unused, made by its creator, so
/// `register_step` goes on past the invitation check.
pub proof fn law_new_invitation_is_found(
    s: Store,
    token: String,
    created_by: u128,
    expires_at: Timestamp,
    now: Timestamp,
    later: Timestamp,
)
    requires
        before(later, expires_at),
    ensures
        invitation_found(invitation_inserted(s, token, created_by, expires_at, now), token@, later)
            matches Some(inv) && inv.token@ == token@ && inv.created_by == created_by && inv.used_by
            is None,
{
}

/// A refresh token handed out by a login or a refresh works until it
/// expires: looking its text up at any time before then finds it, owned by
/// the user it was issued to.
pub proof fn law_issued_refresh_token_is_usable(
    s: Store,
    id: u128,
    user_id: u128,
    token: String,
    expires_at: Timestamp,
    now: Timestamp,
    later: Timestamp,
)
    requires
        before(later, expires_at),
    ensures
        refresh_usable(refresh_stored(s, id, user_id, token, expires_at, now), id, token@, later),
        refresh_stored(s, id, user_id, token, expires_at, now).refresh_tokens[id].user_id == user_id,
{
}

/// A refresh token is accepted once: after a refresh revokes it, looking its
/// text up again, at any time, cannot find it, so a second refresh with it
/// is refused (`session_step`). The other stored tokens are untouched.
pub proof fn law_refresh_token_accepted_once(s: Store, id: u128, token: Seq<char>, later: Timestamp)
    ensures
        !refresh_usable(refresh_revoked(s, id), id, token, later),
        forall|other: u128|
            other != id ==> refresh_revoked(s, id).refresh_tokens.contains_key(other)
                == s.refresh_tokens.contains_key(other) && refresh_revoked(s, id).refresh_tokens[other]
                == s.refresh_tokens[other],
{
}

/// A registered account can log in with its password: once the account that
/// a registration asked to store (with a hash that, as `register_step`
/// promises, bcrypt accepts for the password) is stored, looking its email up
/// finds it, and its hash passes the password check of `session_step`.
pub proof fn law_registered_account_logs_in(
    s: Store,
    id: u128,
    username: String,
    email: String,
    password: Seq<char>,
    password_hash: String,
    now: Timestamp,
)
    requires
        !s.users.contains_key(id),
        !account_taken(s, username@, email@),
        password_accepted(password, password_hash@),
    ensures
        user_with_email(user_inserted(s, id, username, email, password_hash, now), email@) matches Some(
            u,
        ) && u.id == id && u.username@ == username@ && !u.is_admin && password_accepted(
            password,
            u.password_hash@,
        ),
{
    let t = user_inserted(s, id, username, email, password_hash, now);
    assert(t.users.contains_key(id) && t.users[id].email@ == email@);
    let found = choose|k: u128| #![trigger t.users[k]] t.users.contains_key(k) && t.users[k].email@ == email@;
    if found != id {
        assert(s.users.contains_key(found) && s.users[found].email@ == email@);
        assert(account_taken(s, username@, email@));
    }
}

/// A new invitation leads to an account: a registration naming its token
/// before it expires, with a username of at least 3 bytes, a password of at
/// least 8, and a username and email not yet taken, goes through
/// `register_step` to the new account, once its password is hashed (which
/// rests on the system's randomness). Looking the token up again then finds
/// nothing.
pub proof fn law_invitation_leads_to_registration(
    s: Store,
    token: String,
    created_by: u128,
    expires_at: Timestamp,
    issued_at: Timestamp,
    later: Timestamp,
    request: CreateUserRequest,
    id: u128,
    stored_at: Timestamp,
    r1: (RegisterStep, RegisterAction),
    r2: (RegisterStep, RegisterAction),
    r3: (RegisterStep, RegisterAction),
)
    requires
        before(later, expires_at),
        request.invitation_token@ == token@,
        byte_len(request.username@) >= MIN_USERNAME_BYTES,
        byte_len(request.password@) >= MIN_PASSWORD_BYTES,
        !s.users.contains_key(id),
        !account_taken(s, request.username@, request.email@),
        register_moves(
            RegisterStep::AwaitingInvitation { request },
            RegisterEvent::InvitationLookedUp(
                invitation_found(
                    invitation_inserted(s, token, created_by, expires_at, issued_at),
                    token@,
                    later,
                ),
            ),
            r1,
        ),
        r1.1 is InsertUser,
        register_moves(
            r1.0,
            RegisterEvent::UserInserted(
                user_inserted(
                    s,
                    id,
                    r1.1->InsertUser_username,
                    r1.1->InsertUser_email,
                    r1.1->InsertUser_password_hash,
                    stored_at,
                ).users[id],
            ),
            r2,
        ),
        register_moves(r2.0, RegisterEvent::InvitationMarked, r3),
    ensures
        r2.1 matches RegisterAction::MarkInvitationUsed { user_id, token: t } && user_id == id
            && t@ == token@,
        r3.1 matches RegisterAction::Reply(Ok(resp)) && resp.id == id && resp.username@
            == request.username@ && resp.email@ == request.email@ && !resp.is_admin,
        password_accepted(request.password@, r1.1->InsertUser_password_hash@),
        forall|user_id: u128, marked_at: Timestamp, again: Timestamp|
            invitation_found(
                invitation_marked(
                    invitation_inserted(s, token, created_by, expires_at, issued_at),
                    user_id,
                    token@,
                    marked_at,
                ),
                token@,
                again,
            ) is None,
{
}

/// A registered account logs in: with the account stored as a registration
/// asked (a fresh identifier, a free username and email, a hash bcrypt
/// accepts for the password), a login with its email and password goes
/// through `session_step` to a session for that account, once its access
/// token is signed.
pub proof fn law_registered_account_gets_a_session(
    jwt: JwtService,
    s: Store,
    id: u128,
    username: String,
    email: String,
    password: String,
    password_hash: String,
    created_at: Timestamp,
    r1: (SessionStep, SessionAction),
    touched_at: Timestamp,
    r2: (SessionStep, SessionAction),
    access_token: String,
    signed_at: Timestamp,
    r3: (SessionStep, SessionAction),
    r4: (SessionStep, SessionAction),
)
    requires
        !s.users.contains_key(id),
        !account_taken(s, username@, email@),
        password_accepted(password@, password_hash@),
        session_moves(
            jwt,
            SessionStep::AwaitingAccount { password },
            SessionEvent::AccountFound(
                user_with_email(user_inserted(s, id, username, email, password_hash, created_at), email@),
            ),
            r1,
        ),
        session_moves(jwt, r1.0, SessionEvent::LastSeenTouched { now: touched_at }, r2),
        session_moves(
            jwt,
            r2.0,
            SessionEvent::AccessTokenSigned { token: Ok(access_token), now: signed_at },
            r3,
        ),
        session_moves(jwt, r3.0, SessionEvent::RefreshTokenStored, r4),
    ensures
        r1.1 == (SessionAction::TouchLastSeen { user_id: id }),
        r2.1 matches SessionAction::SignAccessToken { claims } && claims.exp == touched_at.secs
            + jwt.expiry(),
        r3.1 matches SessionAction::StoreRefreshToken { user_id, .. } && user_id == id,
        r4.1 matches SessionAction::Reply(Ok(a)) && a.user.id == id && a.user.username@ == username@
            && !a.user.is_admin && a.access_token == access_token && a.expires_in == jwt.expiry(),
{
    law_registered_account_logs_in(s, id, username, email, password@, password_hash, created_at);
}

/// A refresh token issued to a user refreshes the session: while it has not
/// expired, looking it up finds it, and a refresh with it goes through
/// `session_step` (owner fetched, the token revoked, a new access token
/// signed and a new refresh token stored) to a session for the same user.
/// The token can then no longer be found.
pub proof fn law_issued_refresh_token_refreshes(
    jwt: JwtService,
    s: Store,
    id: u128,
    owner: User,
    token: String,
    expires_at: Timestamp,
    issued_at: Timestamp,
    later: Timestamp,
    r1: (SessionStep, SessionAction),
    r2: (SessionStep, SessionAction),
    revoked_at: Timestamp,
    r3: (SessionStep, SessionAction),
    access_token: String,
    signed_at: Timestamp,
    r4: (SessionStep, SessionAction),
    r5: (SessionStep, SessionAction),
)
    requires
        before(later, expires_at),
        session_moves(
            jwt,
            SessionStep::AwaitingRefreshRecord,
            SessionEvent::RefreshRecordFound(
                Some(refresh_stored(s, id, owner.id, token, expires_at, issued_at).refresh_tokens[id]),
            ),
            r1,
        ),
        session_moves(jwt, r1.0, SessionEvent::OwnerFound(owner), r2),
        session_moves(jwt, r2.0, SessionEvent::Revoked { now: revoked_at }, r3),
        session_moves(
            jwt,
            r3.0,
            SessionEvent::AccessTokenSigned { token: Ok(access_token), now: signed_at },
            r4,
        ),
        session_moves(jwt, r4.0, SessionEvent::RefreshTokenStored, r5),
    ensures
        refresh_usable(refresh_stored(s, id, owner.id, token, expires_at, issued_at), id, token@, later),
        r1.1 == (SessionAction::FindUserById { user_id: owner.id }),
        r2.1 == (SessionAction::RevokeRefreshToken { id }),
        r4.1 matches SessionAction::StoreRefreshToken { user_id, token: fresh, .. } && user_id
            == owner.id && (r5.1 matches SessionAction::Reply(Ok(b)) && b.user.id == owner.id
            && b.refresh_token@ == fresh@ && b.access_token == access_token),
        forall|again: Timestamp|
            !refresh_usable(
                refresh_revoked(refresh_stored(s, id, owner.id, token, expires_at, issued_at), id),
                id,
                token@,
                again,
            ),
{
}

} // verus!
