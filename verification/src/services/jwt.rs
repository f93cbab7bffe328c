use rand::RngExt;
use vstd::prelude::*;

use crate::ids::{hyphenated, uuid_to_text};
use crate::models::{can_shift, shifted, Timestamp, User, UserResponse};

verus! {

/// Seconds in a day.
pub const SECONDS_PER_DAY: i64 = 86400;

/// How many days a refresh token stays valid.
pub const REFRESH_EXPIRY_DAYS: i64 = 7;

/// How many characters a refresh token has.
pub const REFRESH_TOKEN_LENGTH: usize = 64;

/// The claims an access token carries.
pub struct Claims {
    /// The user's identifier, hyphenated.
    pub sub: String,
    pub email: String,
    pub username: String,
    pub is_admin: bool,
    /// When the token expires, in seconds since the Unix epoch.
    pub exp: i64,
    /// When the token was issued, in seconds since the Unix epoch.
    pub iat: i64,
}

/// Issues the tokens of a session: it holds the signing secret and how long
/// an access token lives.
pub struct JwtService {
    secret: String,
    access_expiry: i64,
}

/// What a successful login or refresh answers.
pub struct AuthResponse {
    pub user: UserResponse,
    pub access_token: String,
    pub refresh_token: String,
    pub expires_in: i64,
}

/// An ASCII letter or digit, as a byte.
pub open spec fn is_alphanumeric(b: u8) -> bool {
    (48 <= b <= 57) || (65 <= b <= 90) || (97 <= b <= 122)
}

/// A text of ASCII letters and digits only.
pub open spec fn all_alphanumeric(s: Seq<char>) -> bool {
    forall|i: int| 0 <= i < s.len() ==> is_alphanumeric(#[trigger] s[i] as u8) && (s[i] as u32) < 128
}

/// `c` are the claims issued for `user` at `now` with tokens living `expiry` seconds.
pub open spec fn claims_for(c: Claims, user: User, now: Timestamp, expiry: i64) -> bool {
    &&& c.sub@ == hyphenated(user.id)
    &&& c.email@ == user.email@
    &&& c.username@ == user.username@
    &&& c.is_admin == user.is_admin
    &&& c.exp == now.secs + expiry
    &&& c.iat == now.secs
}

/// One byte drawn from `rand`'s `Alphanumeric` distribution with the thread
/// generator (`rand::rng()`). The contract claims what `rand`'s code does: the
/// byte is one of `A-Z`, `a-z`, `0-9`.
#[verifier::external_body]
fn random_alphanumeric() -> (r: u8)
    ensures
        is_alphanumeric(r),
{
    rand::rng().sample(rand::distr::Alphanumeric)
}

impl JwtService {
    /// How long access tokens live, in seconds.
    pub closed spec fn expiry(&self) -> i64 {
        self.access_expiry
    }

    /// The signing secret.
    pub closed spec fn secret_view(&self) -> Seq<char> {
        self.secret@
    }

    pub fn new(secret: String, access_expiry: i64) -> (r: Self)
        ensures
            r.expiry() == access_expiry,
            r.secret_view() == secret@,
    {
        JwtService { secret, access_expiry }
    }

    /// The signing secret.
    pub fn secret(&self) -> (r: &str)
        ensures
            r@ == self.secret_view(),
    {
        self.secret.as_str()
    }

    pub fn expiry_seconds(&self) -> (r: i64)
        ensures
            r == self.expiry(),
    {
        self.access_expiry
    }

    pub fn refresh_expiry_days(&self) -> (r: i64)
        ensures
            r == REFRESH_EXPIRY_DAYS,
    {
        REFRESH_EXPIRY_DAYS
    }

    /// The claims of an access token for `user` issued at `now`: they name
    /// the user and expire `expiry_seconds()` after `now`.
    pub fn access_claims(&self, user: &User, now: Timestamp) -> (r: Claims)
        requires
            can_shift(now, self.expiry() as int),
        ensures
            claims_for(r, *user, now, self.expiry()),
    {
        let exp = now.plus_seconds(self.access_expiry);
        Claims {
            sub: uuid_to_text(user.id),
            email: user.email.clone(),
            username: user.username.clone(),
            is_admin: user.is_admin,
            exp: exp.secs,
            iat: now.secs,
        }
    }

    /// A fresh refresh token: 64 random ASCII letters and digits.
    pub fn generate_refresh_token(&self) -> (r: String)
        ensures
            r@.len() == REFRESH_TOKEN_LENGTH,
            all_alphanumeric(r@),
    {
        let mut token = String::new();
        let mut i: usize = 0;
        while i < REFRESH_TOKEN_LENGTH
            invariant
                i <= REFRESH_TOKEN_LENGTH,
                token@.len() == i,
                all_alphanumeric(token@),
            decreases REFRESH_TOKEN_LENGTH - i,
        {
            let b = random_alphanumeric();
            let c = b as char;
            token.push(c);
            i = i + 1;
        }
        token
    }

    /// When a refresh token issued at `now` expires.
    pub fn refresh_expires_at(&self, now: Timestamp) -> (r: Timestamp)
        requires
            can_shift(now, REFRESH_EXPIRY_DAYS * SECONDS_PER_DAY),
        ensures
            r == shifted(now, REFRESH_EXPIRY_DAYS * SECONDS_PER_DAY),
    {
        now.plus_seconds(REFRESH_EXPIRY_DAYS * SECONDS_PER_DAY)
    }
}

} // verus!
