//! The client-supplied token that identifies one logical publish action.

use vstd::prelude::*;
use vstd::string::*;

verus! {

/// Why a string cannot serve as an idempotency key.
#[derive(Debug, Clone, Copy, PartialEq, Eq, Structural)]
pub enum KeyError {
    /// The key holds no character.
    Empty,
    /// The key holds fifty characters or more.
    TooLong,
}

impl KeyError {
    /// What the caller is told.
    pub fn message(&self) -> (message: &'static str)
        ensures
            message@ == (match *self {
                KeyError::Empty => "The idempotency key cannot be empty"@,
                KeyError::TooLong => "The idempotency key must be shorter than 50 characters"@,
            }),
    {
        match self {
            KeyError::Empty => "The idempotency key cannot be empty",
            KeyError::TooLong => "The idempotency key must be shorter than 50 characters",
        }
    }
}

/// The smallest length, in characters, that is too long for a key.
pub const MAX_LENGTH: usize = 50;

/// Whether `s` may serve as an idempotency key: between 1 and 49 characters.
pub open spec fn is_valid_key(s: Seq<char>) -> bool {
    0 < s.len() < MAX_LENGTH
}

/// A validated idempotency key: never empty, never fifty characters or more.
#[derive(Debug)]
pub struct IdempotencyKey(String);

impl View for IdempotencyKey {
    type V = Seq<char>;

    closed spec fn view(&self) -> Seq<char> {
        self.0@
    }
}

impl IdempotencyKey {
    #[verifier::type_invariant]
    spec fn well_formed(self) -> bool {
        is_valid_key(self.0@)
    }

    /// Validates `value` as a key. Succeeds exactly on 1 to 49 characters and
    /// keeps the characters as they are.
    pub fn try_from(value: String) -> (r: Result<IdempotencyKey, KeyError>)
        ensures
            is_valid_key(value@) <==> r is Ok,
            r matches Ok(key) ==> key@ == value@,
            r matches Err(e) ==> (e == KeyError::Empty <==> value@.len() == 0),
    {
        let n: usize = value.as_str().unicode_len();
        if n == 0 {
            return Err(KeyError::Empty);
        }
        if n >= MAX_LENGTH {
            return Err(KeyError::TooLong);
        }
        Ok(IdempotencyKey(value))
    }

    /// The key as the string it was made from.
    pub fn into_string(self) -> (s: String)
        ensures
            s@ == self@,
            is_valid_key(s@),
    {
        proof {
            use_type_invariant(&self);
        }
        self.0
    }

    /// The key's characters.
    pub fn as_ref(&self) -> (s: &str)
        ensures
            s@ == self@,
            is_valid_key(s@),
    {
        proof {
            use_type_invariant(self);
        }
        self.0.as_str()
    }
}

} // verus!
