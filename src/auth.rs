use vstd::prelude::*;

use crate::clock::{DateTime, Duration};
use crate::text::strip_prefix;
use crate::users::{ApiError, User, UserRow};

verus! {

/// The claims of an access token.
pub struct Claims {
    pub sub: String,
    pub username: String,
    pub role: String,
    pub exp: usize,
}

/// Body of a login.
pub struct LoginRequest {
    pub username: String,
    pub password: String,
}

/// Answer to a successful login.
pub struct LoginResponse {
    pub token: String,
    pub user: User,
}

/// Body of a password change.
pub struct ChangePasswordRequest {
    pub current_password: String,
    pub new_password: String,
}

/// How long an access token stays valid, in hours.
pub const TOKEN_LIFETIME_HOURS: i64 = 24;

/// The outcome of checking `password` against the bcrypt `hash`: `None`
/// when the hash cannot be read.
pub uninterp spec fn bcrypt_check(password: Seq<char>, hash: Seq<char>) -> Option<bool>;

/// Relies on `bcrypt::verify`: it rehashes the password with the cost and
/// salt stored in the hash and compares, so the answer depends on the two
/// strings alone; an unreadable hash is an error.
#[verifier::external_body]
fn bcrypt_verify(password: &str, hash: &str) -> (r: Option<bool>)
    ensures
        r == bcrypt_check(password@, hash@),
{
    bcrypt::verify(password, hash).ok()
}

/// The expiry of a token issued at `now`: 24 hours later, in seconds since
/// the epoch; `None` when that does not fit.
pub fn token_expiry(now: &DateTime) -> (r: Option<usize>)
    ensures
        r is Some <==> 0 <= now@ + 86400 <= i64::MAX && now@ + 86400 <= usize::MAX,
        r matches Some(e) ==> e as int == now@ + 86400,
{
    match now.checked_add_signed(Duration::hours(TOKEN_LIFETIME_HOURS)) {
        Some(t) => {
            let secs = t.timestamp();
            if secs < 0 || secs as u64 > usize::MAX as u64 {
                None
            } else {
                Some(secs as usize)
            }
        },
        None => None,
    }
}

impl Claims {
    /// The claims of a token for this user, expiring at `exp`.
    pub fn for_user(user_id: &str, username: &str, role: &str, exp: usize) -> (r: Claims)
        ensures
            r.sub@ == user_id@,
            r.username@ == username@,
            r.role@ == role@,
            r.exp == exp,
    {
        Claims { sub: user_id.to_owned(), username: username.to_owned(), role: role.to_owned(), exp }
    }
}

/// What a password check means for a request: an unreadable hash is an
/// internal error, a mismatch is `wrong`.
pub open spec fn check_outcome(check: Option<bool>, wrong: ApiError) -> Result<(), ApiError> {
    match check {
        Some(true) => Ok(()),
        Some(false) => Err(wrong),
        None => Err(ApiError::Internal),
    }
}

/// Turns the result of a password check into the request's outcome.
pub fn password_outcome(check: Option<bool>, wrong: ApiError) -> (r: Result<(), ApiError>)
    ensures
        r == check_outcome(check, wrong),
{
    match check {
        Some(true) => Ok(()),
        Some(false) => Err(wrong),
        None => Err(ApiError::Internal),
    }
}

/// Signs in with the stored row of the named user, if there is one.
pub fn authenticate(row: Option<UserRow>, password: &str) -> (r: Result<User, ApiError>)
    ensures
        row is None ==> r == Err::<User, ApiError>(ApiError::BadCredentials),
        row matches Some(u) ==> match check_outcome(bcrypt_check(password@, u.password_hash@), ApiError::BadCredentials) {
            Ok(_) => r matches Ok(p) && p.id@ == u.id@ && p.username@ == u.username@ && p.role@ == u.role@
                && p.display_name@ == u.display_name@ && p.created_at@ == u.created_at@
                && p.updated_at@ == u.updated_at@,
            Err(e) => r == Err::<User, ApiError>(e),
        },
{
    match row {
        None => Err(ApiError::BadCredentials),
        Some(u) => {
            let check = bcrypt_verify(password, u.password_hash.as_str());
            match password_outcome(check, ApiError::BadCredentials) {
                Ok(()) => Ok(u.to_public()),
                Err(e) => Err(e),
            }
        },
    }
}

/// Checks the current password before a change.
pub fn verify_current_password(row: &UserRow, current_password: &str) -> (r: Result<(), ApiError>)
    ensures
        r == check_outcome(bcrypt_check(current_password@, row.password_hash@), ApiError::WrongCurrentPassword),
{
    password_outcome(bcrypt_verify(current_password, row.password_hash.as_str()), ApiError::WrongCurrentPassword)
}

pub open spec fn bearer_prefix() -> Seq<char> {
    seq!['B', 'e', 'a', 'r', 'e', 'r', ' ']
}

/// The token of an `Authorization: Bearer <token>` header.
pub fn bearer_token(header: Option<&str>) -> (r: Result<&str, ApiError>)
    ensures
        r is Ok <==> (header matches Some(h) && h@.len() >= 7 && h@.take(7) == bearer_prefix()),
        r matches Ok(t) ==> header matches Some(h) && h@ == bearer_prefix() + t@,
        r matches Err(e) ==> e == ApiError::MissingToken,
{
    proof {
        reveal_strlit("Bearer ");
    }
    assert("Bearer "@ =~= bearer_prefix());
    match header {
        None => Err(ApiError::MissingToken),
        Some(h) => match strip_prefix(h, "Bearer ") {
            Some(t) => Ok(t),
            None => Err(ApiError::MissingToken),
        },
    }
}

} // verus!
