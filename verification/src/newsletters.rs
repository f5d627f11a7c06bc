//! The basic-auth newsletter route's data and logic.
//!
//! An older publish route authenticates with HTTP Basic auth and sends
//! the issue to every confirmed subscriber directly. Its credential
//! extraction and its subscriber listing are here; the transport calls
//! stay with the host process.

use vstd::prelude::*;

use crate::authentication::Credentials;
use crate::domain::is_valid_email;
use crate::domain::EmailAddress;
use crate::response::ascii_bytes;
use crate::response::CapturedResponse;
use crate::response::HeaderModel;
use crate::response::HeaderPair;
use crate::response::ResponseModel;
use crate::store::find_index;
use crate::store::lemma_find_index;
use crate::store::Store;
use crate::store::SubscriberModel;
use crate::store::SubscriberStatus;

verus! {

/// The payload of the basic-auth publish route.
#[derive(Debug)]
pub struct NewsletterData {
    pub title: String,
    pub content: Content,
}

/// A newsletter body in both renderings.
#[derive(Debug)]
pub struct Content {
    pub html: String,
    pub text: String,
}

/// A failure of the basic-auth publish route.
#[derive(Debug)]
pub enum PublishError {
    AuthError(String),
    UnexpectedError(String),
}

/// Mathematical form of a publish failure.
#[verifier::ext_equal]
pub enum PublishErrorModel {
    AuthError(Seq<char>),
    UnexpectedError(Seq<char>),
}

impl View for PublishError {
    type V = PublishErrorModel;

    open spec fn view(&self) -> PublishErrorModel {
        match self {
            PublishError::AuthError(m) => PublishErrorModel::AuthError(m@),
            PublishError::UnexpectedError(m) => PublishErrorModel::UnexpectedError(m@),
        }
    }
}

/// The response an authentication failure turns into: 401 with a
/// `WWW-Authenticate` challenge for the `newsletters` realm.
pub open spec fn auth_challenge_response() -> ResponseModel {
    ResponseModel {
        status: 401,
        headers: seq![
            HeaderModel {
                name: "WWW-Authenticate"@,
                value: ascii_bytes("Basic realm=\"newsletters\""@),
            },
        ],
        body: Seq::empty(),
    }
}

impl PublishError {
    /// The response this failure surfaces as: a 401 challenge for bad
    /// credentials, an opaque 500 otherwise.
    pub fn error_response(&self) -> (r: CapturedResponse)
        ensures
            self@ is AuthError ==> r@ == auth_challenge_response(),
            self@ is UnexpectedError ==> r@ == crate::response::empty_response_model(500),
    {
        match self {
            PublishError::AuthError(_) => {
                proof {
                    reveal_strlit("Basic realm=\"newsletters\"");
                    assert(vstd::string::is_ascii("Basic realm=\"newsletters\""));
                }
                let name = String::from_str("WWW-Authenticate");
                let value = crate::response::str_to_bytes("Basic realm=\"newsletters\"");
                let mut headers: Vec<HeaderPair> = Vec::new();
                headers.push(HeaderPair { name, value });
                let r = CapturedResponse { status: 401, headers, body: Vec::new() };
                proof {
                    assert(r@ =~= auth_challenge_response());
                }
                r
            },
            PublishError::UnexpectedError(_) => {
                let r = CapturedResponse { status: 500, headers: Vec::new(), body: Vec::new() };
                proof {
                    assert(r@ =~= crate::response::empty_response_model(500));
                }
                r
            },
        }
    }
}

/// A confirmed subscriber whose stored address passed validation.
#[derive(Debug)]
pub struct ConfirmedSubscriber {
    pub email: EmailAddress,
}

/// The emails of the subscribers in Confirmed status, in table order.
pub open spec fn confirmed_emails(subs: Seq<SubscriberModel>) -> Seq<Seq<char>>
    decreases subs.len(),
{
    if subs.len() == 0 {
        Seq::empty()
    } else {
        let rest = confirmed_emails(subs.drop_last());
        if subs.last().status is Confirmed {
            rest.push(subs.last().email)
        } else {
            rest
        }
    }
}

/// One listed subscriber: the stored address parsed if the validator
/// accepts it, and its validation error otherwise.
pub open spec fn listed_subscriber_spec(
    entry: Result<ConfirmedSubscriber, String>,
    email: Seq<char>,
) -> bool {
    match entry {
        Ok(c) => is_valid_email(email) && c.email@ == email,
        Err(e) => !is_valid_email(email) && e@ == email + " is not a valid subscriber email"@,
    }
}

/// List the confirmed subscribers, each stored address either parsed
/// into a usable recipient or reported with its validation error.
pub fn get_confirmed_subscribers(store: &Store) -> (r: Vec<Result<ConfirmedSubscriber, String>>)
    ensures
        ({
            let emails = confirmed_emails(store@.subscriptions);
            &&& r@.len() == emails.len()
            &&& forall|i: int|
                #![trigger r@[i]]
                0 <= i < r@.len() ==> listed_subscriber_spec(r@[i], emails[i])
        }),
{
    let ghost subs = store@.subscriptions;
    let mut out: Vec<Result<ConfirmedSubscriber, String>> = Vec::new();
    let n = store.subscriptions.len();
    let mut i: usize = 0;
    proof {
        assert(confirmed_emails(subs.take(0)) =~= Seq::<Seq<char>>::empty());
    }
    while i < n
        invariant
            n == store.subscriptions.len(),
            i <= n,
            subs == store@.subscriptions,
            out@.len() == confirmed_emails(subs.take(i as int)).len(),
            forall|j: int|
                #![trigger out@[j]]
                0 <= j < out@.len() ==> listed_subscriber_spec(
                    out@[j],
                    confirmed_emails(subs.take(i as int))[j],
                ),
        decreases n - i,
    {
        let ghost before = confirmed_emails(subs.take(i as int));
        proof {
            assert(subs.take(i + 1).drop_last() =~= subs.take(i as int));
            assert(subs.take(i + 1).last() == subs[i as int]);
        }
        let row = &store.subscriptions[i];
        match row.status {
            SubscriberStatus::Confirmed => {
                match EmailAddress::parse(row.email.clone()) {
                    Ok(address) => {
                        out.push(Ok(ConfirmedSubscriber { email: address }));
                    },
                    Err(e) => {
                        out.push(Err(e));
                    },
                }
                proof {
                    assert(confirmed_emails(subs.take(i + 1)) =~= before.push(subs[i as int].email));
                }
            },
            SubscriberStatus::PendingConfirmation => {
                proof {
                    assert(confirmed_emails(subs.take(i + 1)) =~= before);
                }
            },
        }
        i = i + 1;
    }
    proof {
        assert(subs.take(n as int) =~= subs);
    }
    out
}

/// The bytes of the `Basic ` scheme prefix.
pub open spec fn basic_prefix() -> Seq<u8> {
    seq![66u8, 97u8, 115u8, 105u8, 99u8, 32u8]
}

/// What the `base64` crate's standard-alphabet decoder returns for an
/// input; `Some` stands for the inputs the engine accepts.
pub uninterp spec fn base64_decoded(s: Seq<u8>) -> Option<Seq<u8>>;

#[verifier::external_type_specification]
#[verifier::external_body]
pub struct ExDecodeError(base64::DecodeError);

/// Relies on base64's `STANDARD` engine `decode`: the outcome is a
/// function of the input bytes alone.
#[verifier::external_body]
fn base64_decode(input: &Vec<u8>) -> (r: Result<Vec<u8>, base64::DecodeError>)
    ensures
        (r matches Ok(b) ==> base64_decoded(input@) == Some(b@)),
        r is Err ==> base64_decoded(input@) is None,
{
    base64::Engine::decode(&base64::engine::general_purpose::STANDARD, input)
}

/// What `String::from_utf8` returns for a byte sequence; `Some` stands
/// for valid UTF-8.
pub uninterp spec fn utf8_decoded(bytes: Seq<u8>) -> Option<Seq<char>>;

#[verifier::external_type_specification]
#[verifier::external_body]
pub struct ExFromUtf8Error(std::string::FromUtf8Error);

/// Relies on `String::from_utf8`: the outcome is a function of the bytes
/// alone.
#[verifier::external_body]
fn string_from_utf8(bytes: Vec<u8>) -> (r: Result<String, std::string::FromUtf8Error>)
    ensures
        (r matches Ok(s) ==> utf8_decoded(bytes@) == Some(s@)),
        r is Err ==> utf8_decoded(bytes@) is None,
{
    String::from_utf8(bytes)
}

/// A successfully extracted credential pair: the header carries the
/// `Basic ` scheme, its payload decodes, the decoded bytes are UTF-8,
/// and the text splits at its first colon into username and password.
pub open spec fn basic_auth_ok(h: Seq<u8>, username: Seq<char>, password: Seq<char>) -> bool {
    &&& h.len() >= 6
    &&& h.subrange(0, 6) == basic_prefix()
    &&& ({
        let dec = base64_decoded(h.skip(6));
        &&& dec is Some
        &&& ({
            let txt = utf8_decoded(dec->Some_0);
            &&& txt is Some
            &&& ({
                let chars = txt->Some_0;
                let ci = find_index(chars, |c: char| c == ':');
                &&& ci >= 0
                &&& username == chars.take(ci)
                &&& password == chars.skip(ci + 1)
            })
        })
    })
}

/// Extract Basic-auth credentials from the raw `Authorization` header
/// value: check the scheme, decode the payload, and split the decoded
/// text at its first colon.
pub fn basic_auth(authorization_header: &Vec<u8>) -> (r: Result<Credentials, String>)
    ensures
        ({
            let h = authorization_header@;
            let scheme_ok = h.len() >= 6 && h.subrange(0, 6) == basic_prefix();
            match r {
                Ok(c) => basic_auth_ok(h, c.username@, c.password@),
                Err(e) => {
                    let dec = base64_decoded(h.skip(6));
                    &&& !scheme_ok ==> e@ == "The authorization scheme was not 'Basic'"@
                    &&& scheme_ok && dec is None ==> e@
                        == "Failed to decode the credential string"@
                    &&& scheme_ok && dec is Some && utf8_decoded(dec->Some_0) is None ==> e@
                        == "The decoded credential string was not valid UTF-8"@
                    &&& scheme_ok && dec is Some && utf8_decoded(dec->Some_0) is Some ==> (
                    find_index(utf8_decoded(dec->Some_0)->Some_0, |c: char| c == ':') == -1 && e@
                        == "A password must be provided in 'Basic' auth"@)
                },
            }
        }),
{
    let h = authorization_header;
    let n = h.len();

    // The scheme must be `Basic `.
    let scheme_ok = n >= 6 && h[0] == 66 && h[1] == 97 && h[2] == 115 && h[3] == 105 && h[4] == 99
        && h[5] == 32;
    if !scheme_ok {
        proof {
            if h@.len() >= 6 {
                assert(h@.subrange(0, 6) != basic_prefix()) by {
                    assert(h@.subrange(0, 6)[0] == h@[0]);
                    assert(h@.subrange(0, 6)[1] == h@[1]);
                    assert(h@.subrange(0, 6)[2] == h@[2]);
                    assert(h@.subrange(0, 6)[3] == h@[3]);
                    assert(h@.subrange(0, 6)[4] == h@[4]);
                    assert(h@.subrange(0, 6)[5] == h@[5]);
                }
            }
        }
        return Err(String::from_str("The authorization scheme was not 'Basic'"));
    }
    proof {
        assert(h@.subrange(0, 6) =~= basic_prefix());
    }

    // Copy the payload after the scheme prefix.
    let mut payload: Vec<u8> = Vec::new();
    let mut i: usize = 6;
    while i < n
        invariant
            n == h.len(),
            6 <= i <= n,
            payload@ =~= h@.subrange(6, i as int),
        decreases n - i,
    {
        payload.push(h[i]);
        i = i + 1;
    }
    proof {
        assert(payload@ =~= h@.skip(6));
    }

    // Decode the credential string.
    let decoded = match base64_decode(&payload) {
        Ok(b) => b,
        Err(_) => {
            return Err(String::from_str("Failed to decode the credential string"));
        },
    };
    let text = match string_from_utf8(decoded) {
        Ok(s) => s,
        Err(_) => {
            return Err(String::from_str("The decoded credential string was not valid UTF-8"));
        },
    };

    // Split at the first colon into username and password.
    let m = text.as_str().unicode_len();
    let ci = match find_colon(&text) {
        Some(i) => i,
        None => {
            return Err(String::from_str("A password must be provided in 'Basic' auth"));
        },
    };
    let username = String::from_str(text.as_str().substring_char(0, ci));
    let password = String::from_str(text.as_str().substring_char(ci + 1, m));
    proof {
        assert(username@ =~= text@.take(ci as int));
        assert(password@ =~= text@.skip(ci as int + 1));
    }
    Ok(Credentials { username, password })
}

/// Find the position of the first colon.
fn find_colon(text: &String) -> (r: Option<usize>)
    ensures
        ({
            let ci = find_index(text@, |c: char| c == ':');
            match r {
                Some(i) => i as int == ci && i < text@.len(),
                None => ci == -1,
            }
        }),
{
    let m = text.as_str().unicode_len();
    let mut i: usize = 0;
    while i < m
        invariant
            m == text@.len(),
            i <= m,
            forall|j: int| 0 <= j < i ==> text@[j] != ':',
        decreases m - i,
    {
        if text.as_str().get_char(i) == ':' {
            proof {
                lemma_find_index(text@, |c: char| c == ':');
                assert((|c: char| c == ':')(text@[i as int]));
            }
            return Some(i);
        }
        i = i + 1;
    }
    proof {
        lemma_find_index(text@, |c: char| c == ':');
    }
    None
}

} // verus!
