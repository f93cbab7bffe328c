use vstd::prelude::*;

use crate::error::AppError;
use crate::text::{after_prefix, joined, strip_prefix};

verus! {

/// The scheme word that leads an authorization header carrying a token.
pub const BEARER_PREFIX: &'static str = "Bearer ";

/// Takes the token out of an `Authorization` header: the header must be
/// there (as visible text) and begin with `Bearer `; the token is the rest.
pub fn authorization_token(header: Option<&str>) -> (r: Result<String, AppError>)
    ensures
        header is None ==> (r matches Err(e) && e.is_validation_with("Missing authorization header"@)),
        header matches Some(h) ==> match after_prefix(h@, BEARER_PREFIX@) {
            Some(token) => r matches Ok(t) && t@ == token,
            None => r matches Err(e) && e.is_validation_with("Invalid authorization header format"@),
        },
{
    match header {
        None => Err(AppError::Validation("Missing authorization header".to_string())),
        Some(h) => match strip_prefix(h, BEARER_PREFIX) {
            Some(token) => Ok(token),
            None => Err(AppError::Validation("Invalid authorization header format".to_string())),
        },
    }
}

/// The refusal of a token that did not validate, with the validator's reason.
pub fn token_rejected(reason: &str) -> (r: AppError)
    ensures
        r.is_validation_with("Invalid token: "@ + reason@),
{
    AppError::Validation(joined("Invalid token: ", reason))
}

} // verus!
