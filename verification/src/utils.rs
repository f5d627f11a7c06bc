//! Handler-level error values and small helpers.

use vstd::prelude::*;

verus! {

/// An error a request handler surfaces to the HTTP layer: a client error
/// (status 400) or an opaque server error (status 500), each carrying the
/// underlying cause's description.
#[derive(Debug)]
pub enum HandlerError {
    BadRequest(String),
    InternalServerError(String),
}

/// Mathematical form of a handler error.
#[verifier::ext_equal]
pub enum HandlerErrorModel {
    BadRequest(Seq<char>),
    InternalServerError(Seq<char>),
}

impl View for HandlerError {
    type V = HandlerErrorModel;

    open spec fn view(&self) -> HandlerErrorModel {
        match self {
            HandlerError::BadRequest(m) => HandlerErrorModel::BadRequest(m@),
            HandlerError::InternalServerError(m) => HandlerErrorModel::InternalServerError(m@),
        }
    }
}

impl HandlerError {
    /// The HTTP status code this error surfaces as.
    pub fn status_code(&self) -> (r: u16)
        ensures
            self@ is BadRequest ==> r == 400,
            self@ is InternalServerError ==> r == 500,
    {
        match self {
            HandlerError::BadRequest(_) => 400,
            HandlerError::InternalServerError(_) => 500,
        }
    }

    /// The description carried by this error.
    pub fn message(&self) -> (r: &str)
        ensures
            self@ is BadRequest ==> r@ == self@->BadRequest_0,
            self@ is InternalServerError ==> r@ == self@->InternalServerError_0,
    {
        match self {
            HandlerError::BadRequest(m) => m.as_str(),
            HandlerError::InternalServerError(m) => m.as_str(),
        }
    }
}

/// Wrap a cause as an opaque 400 Bad Request error.
pub fn e400_bad_request(cause: String) -> (r: HandlerError)
    ensures
        r@ == HandlerErrorModel::BadRequest(cause@),
{
    HandlerError::BadRequest(cause)
}

/// Wrap a cause as an opaque 500 Internal Server Error.
pub fn e500_internal_server_error(cause: String) -> (r: HandlerError)
    ensures
        r@ == HandlerErrorModel::InternalServerError(cause@),
{
    HandlerError::InternalServerError(cause)
}

/// The `Caused by` lines for a chain of causes, oldest last.
pub open spec fn caused_by_lines(causes: Seq<Seq<char>>) -> Seq<char>
    decreases causes.len(),
{
    if causes.len() == 0 {
        Seq::empty()
    } else {
        caused_by_lines(causes.drop_last()) + "Caused by:\n\t"@ + causes.last() + "\n"@
    }
}

/// The full representation of an error chain: the error itself, then one
/// `Caused by` line per cause.
pub open spec fn error_chain_model(msgs: Seq<Seq<char>>) -> Seq<char>
    recommends
        msgs.len() > 0,
{
    msgs[0] + "\n\n"@ + caused_by_lines(msgs.drop_first())
}

/// Render an error and its chain of causes, the error's own description
/// first and each cause on a `Caused by` line.
pub fn error_chain_fmt(messages: &Vec<String>) -> (r: String)
    requires
        messages@.len() > 0,
    ensures
        r@ == error_chain_model(messages@.map_values(|m: String| m@)),
{
    let ghost m = messages@.map_values(|x: String| x@);
    let mut s = messages[0].clone();
    s.append("\n\n");
    proof {
        assert(caused_by_lines(m.drop_first().take(0)) =~= Seq::<char>::empty());
        assert(s@ =~= m[0] + "\n\n"@ + caused_by_lines(m.drop_first().take(0)));
    }
    let n = messages.len();
    let mut i: usize = 1;
    while i < n
        invariant
            n == messages.len(),
            1 <= i <= n,
            m == messages@.map_values(|x: String| x@),
            s@ == m[0] + "\n\n"@ + caused_by_lines(m.drop_first().take(i - 1)),
        decreases n - i,
    {
        s.append("Caused by:\n\t");
        s.append(messages[i].as_str());
        s.append("\n");
        proof {
            let causes = m.drop_first();
            assert(causes.take(i as int).drop_last() =~= causes.take(i - 1));
            assert(causes.take(i as int).last() == m[i as int]);
            assert(s@ =~= m[0] + "\n\n"@ + caused_by_lines(causes.take(i as int)));
        }
        i = i + 1;
    }
    proof {
        assert(m.drop_first().take(n - 1) =~= m.drop_first());
    }
    s
}

} // verus!
