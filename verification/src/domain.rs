//! Subscriber domain types.
//!
//! A subscriber's name is validated locally; the email address check is
//! delegated to the `validator` crate, whose verdict is modeled by the
//! uninterpreted predicate [`is_valid_email`].

use vstd::prelude::*;

verus! {

/// The verdict of the `validator` crate's HTML5 email check on a string.
pub uninterp spec fn is_valid_email(s: Seq<char>) -> bool;

/// Whether the `validator` crate accepts a character as whitespace when
/// trimming, per `char::is_whitespace`.
pub uninterp spec fn is_whitespace_char(c: char) -> bool;

/// Relies on validator's `ValidateEmail` impl for `&str`: the verdict is a
/// function of the characters alone, an empty string is rejected, and a
/// string without `@` is rejected.
#[verifier::external_body]
fn validate_email_str(s: &str) -> (r: bool)
    ensures
        r == is_valid_email(s@),
        s@.len() == 0 ==> !r,
        !s@.contains('@') ==> !r,
{
    validator::ValidateEmail::validate_email(&s)
}

/// Relies on `char::is_whitespace`: the verdict depends on the character
/// alone, and the ASCII whitespace characters are accepted.
#[verifier::external_body]
fn char_is_whitespace(c: char) -> (r: bool)
    ensures
        r == is_whitespace_char(c),
        c == ' ' || c == '\t' || c == '\n' || c == '\r' ==> r,
{
    c.is_whitespace()
}

/// Whether a character is forbidden in a subscriber name.
pub open spec fn forbidden_name_char(c: char) -> bool {
    c == '/' || c == '(' || c == ')' || c == '"' || c == '<' || c == '>' || c == '\\' || c == '{'
        || c == '}'
}

/// Whether a string is a valid subscriber name: not empty once whitespace
/// is trimmed, at most 256 characters, and free of forbidden characters.
pub open spec fn name_is_valid(s: Seq<char>) -> bool {
    &&& exists|i: int| 0 <= i < s.len() && !is_whitespace_char(s[i])
    &&& s.len() <= 256
    &&& forall|i: int| 0 <= i < s.len() ==> !forbidden_name_char(s[i])
}

/// A validated subscriber name.
#[derive(Debug)]
pub struct SubscriberName {
    name: String,
}

impl View for SubscriberName {
    type V = Seq<char>;

    closed spec fn view(&self) -> Seq<char> {
        self.name@
    }
}

impl SubscriberName {
    /// Parse a subscriber name, accepting it exactly when it is non-empty
    /// after trimming, at most 256 characters long, and contains no
    /// forbidden character.
    pub fn parse(name: String) -> (r: Result<SubscriberName, String>)
        ensures
            r matches Ok(n) ==> n@ == name@ && name_is_valid(name@),
            r matches Err(e) ==> !name_is_valid(name@) && e@ == name@
                + " is not a valid subscriber name"@,
    {
        let n = name.as_str().unicode_len();
        let mut all_whitespace = true;
        let mut has_forbidden = false;
        let mut i: usize = 0;
        while i < n
            invariant
                i <= n,
                n == name@.len(),
                all_whitespace == forall|j: int|
                    0 <= j < i ==> is_whitespace_char(name@[j]),
                has_forbidden == exists|j: int| 0 <= j < i && forbidden_name_char(name@[j]),
            decreases n - i,
        {
            let c = name.as_str().get_char(i);
            if !char_is_whitespace(c) {
                all_whitespace = false;
            }
            if c == '/' || c == '(' || c == ')' || c == '"' || c == '<' || c == '>' || c == '\\'
                || c == '{' || c == '}' {
                has_forbidden = true;
            }
            i = i + 1;
        }
        if all_whitespace || n > 256 || has_forbidden {
            let mut e = name;
            e.append(" is not a valid subscriber name");
            Err(e)
        } else {
            Ok(SubscriberName { name })
        }
    }

    /// The name as a string.
    pub fn as_str(&self) -> (r: &str)
        ensures
            r@ == self@,
    {
        self.name.as_str()
    }
}

/// A subscriber email address accepted by the `validator` crate.
#[derive(Debug)]
pub struct EmailAddress {
    email: String,
}

impl View for EmailAddress {
    type V = Seq<char>;

    closed spec fn view(&self) -> Seq<char> {
        self.email@
    }
}

impl EmailAddress {
    /// Parse an email address, accepting it exactly when the `validator`
    /// crate does.
    pub fn parse(email: String) -> (r: Result<EmailAddress, String>)
        ensures
            r matches Ok(a) ==> a@ == email@ && is_valid_email(email@),
            r matches Err(e) ==> !is_valid_email(email@) && e@ == email@
                + " is not a valid subscriber email"@,
    {
        if validate_email_str(email.as_str()) {
            Ok(EmailAddress { email })
        } else {
            let mut e = email;
            e.append(" is not a valid subscriber email");
            Err(e)
        }
    }

    /// The address as a string.
    pub fn as_str(&self) -> (r: &str)
        ensures
            r@ == self@,
    {
        self.email.as_str()
    }

    /// Whether this address reads the same as the given string.
    pub fn eq_string(&self, other: &String) -> (r: bool)
        ensures
            r == (self@ == other@),
    {
        self.email == *other
    }
}

/// A new subscriber: a validated email address and a validated name.
#[derive(Debug)]
pub struct NewSubscriber {
    pub email: EmailAddress,
    pub name: SubscriberName,
}

impl NewSubscriber {
    /// Build a new subscriber from raw form fields, validating both.
    pub fn try_from(email: String, name: String) -> (r: Result<NewSubscriber, String>)
        ensures
            r matches Ok(s) ==> s.email@ == email@ && s.name@ == name@ && is_valid_email(email@)
                && name_is_valid(name@),
            r is Err ==> !is_valid_email(email@) || !name_is_valid(name@),
    {
        let email = match EmailAddress::parse(email) {
            Ok(e) => e,
            Err(e) => {
                return Err(e);
            },
        };
        let name = match SubscriberName::parse(name) {
            Ok(n) => n,
            Err(e) => {
                return Err(e);
            },
        };
        Ok(NewSubscriber { email, name })
    }
}

} // verus!
