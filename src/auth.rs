use vstd::prelude::*;
use vstd::string::StrSliceExecFns;

use crate::errors::AppError;
use crate::ids::{parse_uuid, uuid_parsed_of, uuid_text, uuid_text_of};

verus! {

/// How long an issued token stays valid, in seconds.
pub const TOKEN_LIFETIME_SECS: i64 = 86400;

/// What a signed token carries.
pub struct Claims {
    pub school_id: String,
    pub username: String,
    /// Expiry, in seconds since the Unix epoch.
    pub exp: usize,
}

/// The tenant identity that a verified token yields.
pub struct AuthSchool {
    pub school_id: u128,
    pub username: String,
}

/// The scheme that must open an authorization header.
pub open spec fn bearer_scheme() -> Seq<char> {
    seq!['B', 'e', 'a', 'r', 'e', 'r', ' ']
}

/// The token of an authorization header `Bearer <token>`. An absent header,
/// or one in another scheme, fails with `Unauthorized`.
pub fn bearer_token(header: Option<&str>) -> (r: Result<String, AppError>)
    ensures
        match header {
            Some(h) => h@.len() >= 7 && h@.subrange(0, 7) == bearer_scheme() ==> (r matches Ok(
                t,
            ) && t@ == h@.subrange(7, h@.len() as int)),
            None => true,
        },
        r is Err <==> !(header matches Some(h) && (h@.len() >= 7 && h@.subrange(0, 7)
            == bearer_scheme())),
        r matches Err(e) ==> (e matches AppError::Unauthorized(m) && m@
            == "Missing authorization header"@),
{
    let missing = Err(AppError::Unauthorized("Missing authorization header".to_string()));
    let h = match header {
        Some(h) => h,
        None => {
            return missing;
        },
    };
    let n = h.unicode_len();
    if n < 7 {
        return missing;
    }
    let head = h.substring_char(0, 7).to_owned();
    let scheme = "Bearer ".to_owned();
    proof {
        reveal_strlit("Bearer ");
        assert("Bearer "@ == bearer_scheme());
    }
    if head != scheme {
        return missing;
    }
    Ok(h.substring_char(7, n).to_owned())
}

/// The identity in verified claims: the school identifier must parse as an
/// identifier, else `Unauthorized`.
pub fn identity_from_claims(claims: Claims) -> (r: Result<AuthSchool, AppError>)
    ensures
        match uuid_parsed_of(claims.school_id@) {
            Some(id) => r == Ok::<AuthSchool, AppError>(
                AuthSchool { school_id: id, username: claims.username },
            ),
            None => r matches Err(AppError::Unauthorized(m)) && m@
                == "Invalid school id in token"@,
        },
{
    match parse_uuid(claims.school_id.as_str()) {
        Some(id) => Ok(AuthSchool { school_id: id, username: claims.username }),
        None => Err(AppError::Unauthorized("Invalid school id in token".to_string())),
    }
}

/// The identity that the outcome of token verification yields. Every
/// verification failure (bad signature, expired, malformed) gives the same
/// `Unauthorized` answer, so that the reason does not leak.
pub fn identity_from_token(verified: Result<Claims, AppError>) -> (r: Result<AuthSchool, AppError>)
    ensures
        match verified {
            Ok(c) => match uuid_parsed_of(c.school_id@) {
                Some(id) => r == Ok::<AuthSchool, AppError>(
                    AuthSchool { school_id: id, username: c.username },
                ),
                None => r matches Err(AppError::Unauthorized(m)) && m@
                    == "Invalid school id in token"@,
            },
            Err(_) => r matches Err(AppError::Unauthorized(m)) && m@
                == "Invalid or expired token"@,
        },
{
    match verified {
        Ok(c) => identity_from_claims(c),
        Err(_) => Err(AppError::Unauthorized("Invalid or expired token".to_string())),
    }
}

/// The expiry of a token issued at `now`: `TOKEN_LIFETIME_SECS` later. Fails
/// with `InternalServerError` when that instant is before the epoch or does
/// not fit a `usize`.
pub fn token_expiry(now: i64) -> (r: Result<usize, AppError>)
    ensures
        0 <= now + TOKEN_LIFETIME_SECS <= usize::MAX ==> r == Ok::<usize, AppError>(
            (now + TOKEN_LIFETIME_SECS) as usize,
        ),
        !(0 <= now + TOKEN_LIFETIME_SECS <= usize::MAX) ==> r matches Err(
            AppError::InternalServerError(_),
        ),
{
    let exp: i128 = now as i128 + TOKEN_LIFETIME_SECS as i128;
    if exp < 0 || exp > usize::MAX as i128 {
        return Err(AppError::InternalServerError("token expiry out of range".to_string()));
    }
    Ok(exp as usize)
}

/// The claims of a token for `school_id` and `username`, issued at `now`.
pub fn claims_for(school_id: u128, username: &str, now: i64) -> (r: Result<Claims, AppError>)
    ensures
        r is Ok <==> 0 <= now + TOKEN_LIFETIME_SECS <= usize::MAX,
        r matches Ok(c) ==> c.school_id@ == uuid_text_of(school_id) && c.username@ == username@
            && c.exp == now + TOKEN_LIFETIME_SECS,
        r matches Err(e) ==> e is InternalServerError,
{
    let exp = match token_expiry(now) {
        Ok(e) => e,
        Err(e) => {
            return Err(e);
        },
    };
    Ok(Claims { school_id: uuid_text(school_id), username: username.to_owned(), exp })
}

} // verus!
