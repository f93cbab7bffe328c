use vstd::prelude::*;

verus! {

/// The earliest second (since the Unix epoch) that a timestamp can hold.
pub const MIN_TIMESTAMP: i64 = -8334601315200;

/// The latest second (since the Unix epoch) that a timestamp can hold.
pub const MAX_TIMESTAMP: i64 = 8210266876799;

/// The largest number of seconds, either way, that a time span can hold.
pub const MAX_SPAN_SECONDS: i64 = 9223372036854775;

/// A point in time: whole seconds since the Unix epoch and the nanoseconds
/// past that second.
#[derive(Clone, Copy, Debug, PartialEq, Eq, Structural)]
pub struct Timestamp {
    pub secs: i64,
    pub nanos: u32,
}

/// A span of `span` seconds can be formed, and moving `t` by it stays within
/// the range of timestamps.
pub open spec fn can_shift(t: Timestamp, span: int) -> bool {
    &&& -MAX_SPAN_SECONDS <= span <= MAX_SPAN_SECONDS
    &&& MIN_TIMESTAMP <= t.secs + span <= MAX_TIMESTAMP
}

/// `t` moved by `span` seconds.
pub open spec fn shifted(t: Timestamp, span: int) -> Timestamp {
    Timestamp { secs: (t.secs + span) as i64, nanos: t.nanos }
}

impl Timestamp {
    /// This timestamp moved by `span` seconds.
    pub fn plus_seconds(&self, span: i64) -> (r: Timestamp)
        requires
            can_shift(*self, span as int),
        ensures
            r == shifted(*self, span as int),
    {
        Timestamp { secs: self.secs + span, nanos: self.nanos }
    }
}

/// A registered account, as stored.
pub struct User {
    pub id: u128,
    pub username: String,
    pub email: String,
    pub password_hash: String,
    pub is_admin: bool,
    pub created_at: Timestamp,
    pub last_seen: Option<Timestamp>,
}

/// What a client is shown of an account: everything but the password hash.
pub struct UserResponse {
    pub id: u128,
    pub username: String,
    pub email: String,
    pub is_admin: bool,
    pub created_at: Timestamp,
    pub last_seen: Option<Timestamp>,
}

/// `r` shows the account `u`.
pub open spec fn shows_user(r: UserResponse, u: User) -> bool {
    &&& r.id == u.id
    &&& r.username@ == u.username@
    &&& r.email@ == u.email@
    &&& r.is_admin == u.is_admin
    &&& r.created_at == u.created_at
    &&& r.last_seen == u.last_seen
}

impl User {
    /// The public view of this account.
    pub fn to_response(&self) -> (r: UserResponse)
        ensures
            shows_user(r, *self),
    {
        UserResponse {
            id: self.id,
            username: self.username.clone(),
            email: self.email.clone(),
            is_admin: self.is_admin,
            created_at: self.created_at,
            last_seen: self.last_seen,
        }
    }
}

/// A registration request.
pub struct CreateUserRequest {
    pub username: String,
    pub email: String,
    pub password: String,
    pub invitation_token: String,
}

/// A login request.
pub struct LoginRequest {
    pub email: String,
    pub password: String,
}

/// An invitation to register, as stored.
pub struct Invitation {
    pub token: String,
    pub created_by: u128,
    pub expires_at: Timestamp,
    pub used_by: Option<u128>,
    pub used_at: Option<Timestamp>,
    pub created_at: Timestamp,
}

/// What the creator of an invitation is given back.
pub struct InvitationResponse {
    pub token: String,
    pub invite_url: String,
    pub expires_at: Timestamp,
}

/// A stored refresh token.
pub struct RefreshToken {
    pub id: u128,
    pub user_id: u128,
    pub token: String,
    pub expires_at: Timestamp,
    pub created_at: Timestamp,
    pub revoked: bool,
}

/// A stored chat message.
pub struct Message {
    pub id: u128,
    pub user_id: Option<u128>,
    pub content: String,
    pub created_at: Timestamp,
    pub edited_at: Option<Timestamp>,
    pub reply_to: Option<u128>,
}

/// A chat message as clients see it, with its author's name.
pub struct MessageResponse {
    pub id: u128,
    pub user_id: Option<u128>,
    pub username: Option<String>,
    pub content: String,
    pub created_at: Timestamp,
    pub edited_at: Option<Timestamp>,
    pub reply_to: Option<u128>,
}

/// The name of a message's author, as a view.
pub open spec fn name_view(n: Option<String>) -> Option<Seq<char>> {
    match n {
        Some(s) => Some(s@),
        None => None,
    }
}

/// `r` shows the message `m`, written by the user named `username`.
pub open spec fn shows_message(r: MessageResponse, m: Message, username: Option<Seq<char>>) -> bool {
    &&& r.id == m.id
    &&& r.user_id == m.user_id
    &&& name_view(r.username) == username
    &&& r.content@ == m.content@
    &&& r.created_at == m.created_at
    &&& r.edited_at == m.edited_at
    &&& r.reply_to == m.reply_to
}

impl Message {
    /// This message as clients see it, under its author's name.
    pub fn to_response(&self, username: Option<String>) -> (r: MessageResponse)
        ensures
            shows_message(r, *self, name_view(username)),
    {
        MessageResponse {
            id: self.id,
            user_id: self.user_id,
            username,
            content: self.content.clone(),
            created_at: self.created_at,
            edited_at: self.edited_at,
            reply_to: self.reply_to,
        }
    }
}

} // verus!
