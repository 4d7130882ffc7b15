//! The decision steps of the request path.
//!
//! One request runs through strictly sequential phases: build the
//! target URL, send, check the negotiated protocol version, read the
//! body.  The network work itself happens outside the library; after
//! each fallible phase the outcome comes back as a plain event and the
//! functions here decide how it proceeds — returning the body on
//! success and a classified error for any failure, with the stage
//! description that names the phase.
//!
//! A response that did not negotiate HTTP/2 is rejected as a
//! `RequestError` rather than treated as a hard invariant violation:
//! the protocol-mismatch check is a strict contract check, but it
//! surfaces as a recoverable classified error.

use crate::errors::ClassifiedError;
use crate::errors::ErrorKind;
use crate::errors::TransportError;
use crate::errors::classified_kind;
use crate::errors::classified_message;
use crate::errors::compose_message;
use crate::errors::composed_message;
use crate::query::query_string_of;
use crate::query::encode_query;
use crate::query::push_char;
use vstd::prelude::*;
use vstd::string::StringExecFns;

verus! {

/// The protocol version a response was negotiated with.
#[derive(Clone, Copy, Debug, PartialEq, Eq, Structural)]
pub enum HttpVersion {
    Http09,
    Http10,
    Http11,
    Http2,
    Http3,
}

/// The outcome of the send phase: a transport failure, or a response
/// whose negotiated protocol version is given.
pub enum SendEvent {
    Failed(TransportError),
    Received(HttpVersion),
}

/// The outcome of the body-read phase: a transport failure, or the
/// full body as text.
pub enum BodyEvent {
    Failed(TransportError),
    Read(String),
}

/// A request's transient parameters: the target URL and the query
/// pairs, keys unique, in the order given.
pub struct RequestParams {
    pub url: String,
    pub query: Vec<(String, String)>,
}

/// The full URL a request is sent to: the target URL, with `?` and the
/// serialized query appended when any pairs are given.
pub open spec fn spec_target_url(url: Seq<char>, pairs: Seq<(String, String)>) -> Seq<char> {
    if pairs.len() == 0 {
        url
    } else {
        url + seq!['?'] + query_string_of(pairs)
    }
}

/// The message of the classified error a protocol mismatch yields.
pub open spec fn protocol_mismatch_message() -> Seq<char> {
    composed_message(
        Seq::<char>::empty(),
        "response protocol check failed"@,
        "negotiated protocol is not HTTP/2"@,
    )
}

impl RequestParams {
    pub fn new(url: String, query: Vec<(String, String)>) -> (r: RequestParams)
        ensures
            r.url@ == url@,
            r.query@ == query@,
    {
        RequestParams { url, query }
    }

    /// Renders the full URL this request targets.
    pub fn target_url(&self) -> (r: String)
        ensures
            r@ == spec_target_url(self.url@, self.query@),
    {
        let mut out = self.url.as_str().to_owned();
        if self.query.len() > 0 {
            push_char(&mut out, '?');
            let q = encode_query(&self.query);
            out.append(q.as_str());
        }
        out
    }
}

/// Decides how the request proceeds after the send phase.
///
/// A transport failure is classified at the "request send failed"
/// stage.  A response is accepted only when its negotiated protocol
/// version is exactly HTTP/2; anything else is rejected as a
/// `RequestError` with the protocol-mismatch message.
pub fn handle_send(ev: SendEvent) -> (r: Result<(), ClassifiedError>)
    ensures
        match ev {
            SendEvent::Received(v) => {
                &&& (r is Ok <==> v == HttpVersion::Http2)
                &&& (r is Err ==> r->Err_0.kind == ErrorKind::RequestError && r->Err_0.message@
                    == protocol_mismatch_message())
            },
            SendEvent::Failed(e) => {
                &&& r is Err
                &&& r->Err_0.kind == classified_kind(e)
                &&& r->Err_0.message@ == classified_message(e, "request send failed"@)
            },
        },
{
    match ev {
        SendEvent::Received(v) => {
            if v == HttpVersion::Http2 {
                Ok(())
            } else {
                let message = compose_message(
                    "",
                    "response protocol check failed",
                    "negotiated protocol is not HTTP/2",
                );
                proof {
                    reveal_strlit("");
                    assert(""@ =~= Seq::<char>::empty());
                    assert(message@ =~= protocol_mismatch_message());
                }
                Err(ClassifiedError { kind: ErrorKind::RequestError, message })
            }
        },
        SendEvent::Failed(e) => Err(e.classify("request send failed")),
    }
}

/// Decides the final result after the body-read phase: the body text
/// on success, and a transport failure classified at the
/// "request data read failed" stage.
pub fn handle_body(ev: BodyEvent) -> (r: Result<String, ClassifiedError>)
    ensures
        match ev {
            BodyEvent::Read(body) => r is Ok && r->Ok_0@ == body@,
            BodyEvent::Failed(e) => {
                &&& r is Err
                &&& r->Err_0.kind == classified_kind(e)
                &&& r->Err_0.message@ == classified_message(e, "request data read failed"@)
            },
        },
{
    match ev {
        BodyEvent::Read(body) => Ok(body),
        BodyEvent::Failed(e) => Err(e.classify("request data read failed")),
    }
}

/// Classifies a failure to build the connection pool, at the
/// "failed to create http2 client" stage.
pub fn on_build_failure(e: &TransportError) -> (r: ClassifiedError)
    ensures
        r.kind == classified_kind(*e),
        r.message@ == classified_message(*e, "failed to create http2 client"@),
{
    e.classify("failed to create http2 client")
}

} // verus!
