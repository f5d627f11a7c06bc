//! Password change validation.
//!
//! The password change route enforces three rules before it touches the
//! authentication collaborator: the two new-password fields must match,
//! and the new password must be at least 12 and at most 128 characters.

use vstd::prelude::*;

verus! {

/// The first rule a proposed password change breaks, if any, with the
/// message flashed back to the form. Checked in order: mismatched
/// fields, then a too-short password, then a too-long one.
pub fn validate_password_change(new_password: &String, new_password2: &String) -> (r: Option<
    &'static str,
>)
    ensures
        ({
            match r {
                Some(m) => {
                    &&& new_password@ != new_password2@ ==> m@
                        == "New passwords fields must match"@
                    &&& new_password@ == new_password2@ && new_password@.len() < 12 ==> m@
                        == "The password must be at least 12 characters long"@
                    &&& new_password@ == new_password2@ && new_password@.len() > 128 ==> m@
                        == "The password must contain a maximum of 128 characters"@
                },
                None => {
                    &&& new_password@ == new_password2@
                    &&& 12 <= new_password@.len() <= 128
                },
            }
        }),
        r is None <==> new_password@ == new_password2@ && 12 <= new_password@.len() <= 128,
{
    if !(*new_password == *new_password2) {
        return Some("New passwords fields must match");
    }
    let n = new_password.as_str().unicode_len();
    if n < 12 {
        return Some("The password must be at least 12 characters long");
    }
    if n > 128 {
        return Some("The password must contain a maximum of 128 characters");
    }
    None
}

} // verus!
