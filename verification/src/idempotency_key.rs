//! Idempotency keys.
//!
//! A key is a client- or server-generated opaque token, non-empty and at
//! most 50 characters, scoping a publish command to "run at most once" per
//! acting user.

use vstd::prelude::*;

verus! {

/// The longest accepted idempotency key, in characters.
pub const MAX_KEY_LEN: usize = 50;

/// Whether a string is an acceptable idempotency key.
pub open spec fn key_is_valid(s: Seq<char>) -> bool {
    0 < s.len() <= MAX_KEY_LEN
}

/// A validated idempotency key.
#[derive(Debug)]
pub struct IdempotencyKey {
    key: String,
}

impl View for IdempotencyKey {
    type V = Seq<char>;

    closed spec fn view(&self) -> Seq<char> {
        self.key@
    }
}

/// Relies on uuid's `Uuid::new_v4` and its `Display` impl: a random UUID
/// formats as the 36-character hyphenated form.
#[verifier::external_body]
fn fresh_uuid_string() -> (r: String)
    ensures
        r@.len() == 36,
{
    uuid::Uuid::new_v4().to_string()
}

impl IdempotencyKey {
    /// Generate a fresh random key.
    pub fn generate() -> (r: IdempotencyKey)
        ensures
            key_is_valid(r@),
    {
        IdempotencyKey { key: fresh_uuid_string() }
    }

    /// Accept a string as a key exactly when it is non-empty and at most
    /// 50 characters long.
    pub fn try_from(value: String) -> (r: Result<IdempotencyKey, String>)
        ensures
            r matches Ok(k) ==> k@ == value@ && key_is_valid(value@),
            r matches Err(e) ==> !key_is_valid(value@) && (value@.len() == 0 ==> e@
                == "The idempotency key cannot be empty"@) && (value@.len() > 0 ==> e@
                == "The idempotency key must be shorter than 50 characters"@),
    {
        let n = value.as_str().unicode_len();
        if n == 0 {
            return Err(String::from_str("The idempotency key cannot be empty"));
        }
        if n > MAX_KEY_LEN {
            return Err(
                String::from_str("The idempotency key must be shorter than 50 characters"),
            );
        }
        Ok(IdempotencyKey { key: value })
    }

    /// The key as a string.
    pub fn as_str(&self) -> (r: &str)
        ensures
            r@ == self@,
    {
        self.key.as_str()
    }

    /// An exact copy of this key.
    pub fn duplicate(&self) -> (r: IdempotencyKey)
        ensures
            r@ == self@,
    {
        IdempotencyKey { key: self.key.clone() }
    }

    /// Whether this key reads the same as the given string.
    pub fn eq_string(&self, other: &String) -> (r: bool)
        ensures
            r == (self@ == other@),
    {
        self.key == *other
    }
}

} // verus!
