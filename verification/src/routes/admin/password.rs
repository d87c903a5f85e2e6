//! Changing the operator's password.

use vstd::prelude::*;
use vstd::string::*;
use vstd::utf8::encode_utf8;

verus! {

/// The least number of bytes that a new password may have.
pub const MIN_LENGTH: usize = 12;

/// The most bytes that a new password may have.
pub const MAX_LENGTH: usize = 128;

/// Why a new password is refused.
#[derive(Debug, Clone, Copy, PartialEq, Eq, Structural)]
pub enum PasswordChangeError {
    /// The new password is shorter than 12 or longer than 128 bytes.
    BadLength,
    /// The new password and its repetition differ.
    Mismatch,
}

impl PasswordChangeError {
    /// What the operator is told.
    pub fn message(&self) -> (message: &'static str)
        ensures
            message@ == (match *self {
                PasswordChangeError::BadLength =>
                    "The new password should be between 12 and 128 characters long."@,
                PasswordChangeError::Mismatch =>
                    "You entered two different new passwords - the field values must match."@,
            }),
    {
        match self {
            PasswordChangeError::BadLength => {
                "The new password should be between 12 and 128 characters long."
            },
            PasswordChangeError::Mismatch => {
                "You entered two different new passwords - the field values must match."
            },
        }
    }
}

/// The number of bytes that a string takes in UTF-8, as `str::len` tells it.
pub open spec fn byte_length(s: Seq<char>) -> usize {
    encode_utf8(s).len() as usize
}

/// Checks a new password and its repetition: the length first, in bytes of
/// its UTF-8 form, then that the two are the same.
pub fn check_new_password(new_password: &String, new_password_check: &String) -> (checked: Result<
    (),
    PasswordChangeError,
>)
    ensures
        checked == (if byte_length(new_password@) < MIN_LENGTH || byte_length(new_password@)
            > MAX_LENGTH {
            Err::<(), PasswordChangeError>(PasswordChangeError::BadLength)
        } else if new_password@ != new_password_check@ {
            Err(PasswordChangeError::Mismatch)
        } else {
            Ok(())
        }),
{
    let length = new_password.as_str().len();
    if length < MIN_LENGTH || length > MAX_LENGTH {
        return Err(PasswordChangeError::BadLength);
    }
    if !(*new_password == *new_password_check) {
        return Err(PasswordChangeError::Mismatch);
    }
    Ok(())
}

} // verus!
