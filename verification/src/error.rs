use vstd::prelude::*;

verus! {

/// Error taxonomy of the authentication and authorization core.
///
/// Every failure a core operation can report is one of these variants;
/// the HTTP layer surfaces each as `status_code()` plus `message()`.
/// A failed credential check is deliberately the same variant (and so
/// the same status and message) whether the account does not exist or
/// the password is wrong, so account existence never leaks.
#[derive(Clone, Copy, Debug, PartialEq, Eq, Structural)]
pub enum AuthError {
    /// Bad handle/password pair at login; identical whether or not the handle exists.
    InvalidCredentials,
    /// No authenticated identity is bound to the session.
    Unauthorized,
    /// Authenticated, but not the owner of the target resource.
    Forbidden,
    /// Handle or email is already registered.
    Conflict,
    /// The referenced entity is absent.
    NotFound,
    /// Key-derivation failure, or a malformed stored credential record.
    Hashing,
    /// Corrupted session state at the transport boundary.
    SessionCorrupt,
}

impl AuthError {
    /// The HTTP status this error is surfaced with.
    pub open spec fn spec_status_code(self) -> u16 {
        match self {
            AuthError::InvalidCredentials => 401,
            AuthError::Unauthorized => 401,
            AuthError::Forbidden => 403,
            AuthError::Conflict => 409,
            AuthError::NotFound => 404,
            AuthError::Hashing => 500,
            AuthError::SessionCorrupt => 500,
        }
    }

    pub fn status_code(&self) -> (code: u16)
        ensures
            code == self.spec_status_code(),
    {
        match self {
            AuthError::InvalidCredentials => 401,
            AuthError::Unauthorized => 401,
            AuthError::Forbidden => 403,
            AuthError::Conflict => 409,
            AuthError::NotFound => 404,
            AuthError::Hashing => 500,
            AuthError::SessionCorrupt => 500,
        }
    }

    /// The message the HTTP layer sends with this error.
    pub open spec fn spec_message(self) -> Seq<char> {
        match self {
            AuthError::InvalidCredentials => "Credentials not valid"@,
            AuthError::Unauthorized => "Unauthorized"@,
            AuthError::Forbidden => "Forbidden"@,
            AuthError::Conflict => "Handle or email already registered"@,
            AuthError::NotFound => "Not found"@,
            AuthError::Hashing => "Failed to process credentials"@,
            AuthError::SessionCorrupt => "Corrupted session state"@,
        }
    }

    pub fn message(&self) -> (m: &'static str)
        ensures
            m@ == self.spec_message(),
    {
        match self {
            AuthError::InvalidCredentials => "Credentials not valid",
            AuthError::Unauthorized => "Unauthorized",
            AuthError::Forbidden => "Forbidden",
            AuthError::Conflict => "Handle or email already registered",
            AuthError::NotFound => "Not found",
            AuthError::Hashing => "Failed to process credentials",
            AuthError::SessionCorrupt => "Corrupted session state",
        }
    }
}

} // verus!
