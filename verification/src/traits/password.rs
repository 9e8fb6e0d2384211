//! Traits and types that every password type of the kit works with: the error
//! raised by hashing and verification, and the traits for both operations.

use vstd::prelude::*;
use vstd::string::*;

verus! {

/// Error type used when encountering issues with passwords.
#[derive(Debug)]
pub enum PasswordError {
    /// Error occurred while trying to hash the password.
    Hashing(String),
    /// Error occurred while trying to verify the password.
    Verification(String),
    /// Other unknown error occurred.
    Other(String),
}

impl Clone for PasswordError {
    fn clone(&self) -> (copy: Self)
        ensures
            copy == *self,
    {
        match self {
            PasswordError::Hashing(e) => PasswordError::Hashing(e.clone()),
            PasswordError::Verification(e) => PasswordError::Verification(e.clone()),
            PasswordError::Other(e) => PasswordError::Other(e.clone()),
        }
    }
}

impl PasswordError {
    /// The human readable text of the error, as a sequence of characters.
    pub open spec fn text(self) -> Seq<char> {
        match self {
            PasswordError::Hashing(e) => "Failed to hash password: "@ + e@,
            PasswordError::Verification(e) => "Failed to verify password: "@ + e@,
            PasswordError::Other(e) => e@,
        }
    }

    /// Renders the error for a human reader. Each variant is prefixed by the
    /// operation that failed; `Other` is rendered as it is.
    pub fn to_string(&self) -> (s: String)
        ensures
            s@ == self.text(),
    {
        match self {
            PasswordError::Hashing(e) => String::from_str("Failed to hash password: ").concat(
                e.as_str(),
            ),
            PasswordError::Verification(e) => String::from_str(
                "Failed to verify password: ",
            ).concat(e.as_str()),
            PasswordError::Other(e) => e.clone(),
        }
    }
}

/// Trait for types that can hash passwords.
pub trait PasswordHasher {
    /// Type of password this hasher is designed to handle.
    type Password;

    /// Hashes the provided `password`.
    ///
    /// Returns an error if hashing fails. The error will be a variant
    /// of `PasswordError` indicating why hashing failed.
    fn hash(&self, password: Self::Password) -> Result<(), PasswordError>;
}

/// Trait for types that can verify passwords.
pub trait PasswordChecker {
    /// Type of password this checker is designed to handle.
    type Password;

    /// Verifies the provided `password`.
    ///
    /// Returns `Ok(true)` if the password matches and `Ok(false)` otherwise.
    /// If verification fails, returns an error which will be a variant
    /// of `PasswordError` indicating why verification failed.
    fn verify(&self, password: Self::Password) -> Result<bool, PasswordError>;
}

/// Trait for types that can both hash and verify passwords.
pub trait PasswordHandler: PasswordHasher + PasswordChecker {

}

} // verus!
