//! Runtime environment selection.

use vstd::prelude::*;

verus! {

/// Available runtime environments.
#[derive(Clone, Copy, PartialEq, Eq, Structural, Debug)]
pub enum Env {
    Development,
    Production,
}

/// The lower-case form of an ASCII letter; any other character is unchanged.
pub open spec fn ascii_lower_char(c: char) -> char {
    if 'A' <= c <= 'Z' {
        ((c as u8) + 32) as char
    } else {
        c
    }
}

/// Each character taken to its ASCII lower-case form.
pub open spec fn ascii_lower(s: Seq<char>) -> Seq<char> {
    s.map_values(|c: char| ascii_lower_char(c))
}

impl Env {
    /// Represent the environment as a string.
    pub fn as_str(&self) -> (r: &'static str)
        ensures
            *self is Development ==> r@ == "dev"@,
            *self is Production ==> r@ == "prd"@,
    {
        match self {
            Env::Development => "dev",
            Env::Production => "prd",
        }
    }

    /// Parse an environment name, ignoring ASCII case.
    pub fn try_from(value: &str) -> (r: Result<Env, String>)
        ensures
            ascii_lower(value@) == "dev"@ ==> r == Ok::<Env, String>(Env::Development),
            ascii_lower(value@) == "prd"@ ==> r == Ok::<Env, String>(Env::Production),
            r is Err ==> ascii_lower(value@) != "dev"@ && ascii_lower(value@) != "prd"@,
    {
        proof {
            reveal_strlit("dev");
            reveal_strlit("prd");
        }
        let n = value.unicode_len();
        if n == 3 {
            let c0 = lower_char(value.get_char(0));
            let c1 = lower_char(value.get_char(1));
            let c2 = lower_char(value.get_char(2));
            assert(ascii_lower(value@) =~= seq![
                ascii_lower_char(value@[0]),
                ascii_lower_char(value@[1]),
                ascii_lower_char(value@[2]),
            ]);
            if c0 == 'd' && c1 == 'e' && c2 == 'v' {
                return Ok(Env::Development);
            }
            if c0 == 'p' && c1 == 'r' && c2 == 'd' {
                return Ok(Env::Production);
            }
        } else {
            assert(ascii_lower(value@).len() == value@.len());
        }
        Err(String::from_str(
            "this is not a supported environment. Use either `dev` or `prd`",
        ))
    }
}

/// Take one character to its ASCII lower-case form.
fn lower_char(c: char) -> (r: char)
    ensures
        r == ascii_lower_char(c),
{
    if 'A' <= c && c <= 'Z' {
        (c as u8 + 32) as char
    } else {
        c
    }
}

} // verus!
