//! The error taxonomy and the error classifier.
//!
//! A failed transport operation is handed to the library as a
//! [`TransportError`]: the textual rendering of the top-level failure,
//! the transport layer's classification predicates, and the chain of
//! nested causes, outermost first.  [`classify`](TransportError::classify)
//! maps it, together with a short stage description, to a
//! [`ClassifiedError`]: one of nine distinct kinds (or a generic
//! fallback) and a composed human-readable message.
//!
//! The classifier is a pure decision procedure: a stream-level reset
//! whose reason code is zero — a graceful close, not a true fault —
//! wins over every other check and yields `RetryError`; otherwise the
//! transport predicates are tested in a fixed priority order.

use vstd::prelude::*;
use vstd::string::StringExecFns;

verus! {

/// The distinct kinds of classified failure exposed to callers.
#[derive(Clone, Copy, Debug, PartialEq, Eq, Structural)]
pub enum ErrorKind {
    /// The operation exceeded the configured deadline.
    TimeoutError,
    /// Establishing the underlying connection failed.
    ConnectError,
    /// The request was malformed or rejected.
    RequestError,
    /// The response carried a status the transport treats as failure.
    BadStatusCodeError,
    /// Reading or streaming the response body failed.
    BodyError,
    /// Constructing request or client state failed.
    BuilderError,
    /// Decoding the response content failed.
    DecodeError,
    /// A redirect-policy violation.
    RedirectError,
    /// A benign stream reset (reason code zero): the caller should retry.
    RetryError,
    /// Anything the other kinds do not cover.
    GenericError,
}

/// What a single cause in the chain is, as far as classification cares.
#[derive(Clone, Copy, Debug, PartialEq, Eq, Structural)]
pub enum CauseKind {
    /// A stream-level protocol error, with its reset reason code when
    /// the transport reports one.
    StreamReset { reason: Option<u32> },
    /// Any other cause.
    Other,
}

/// One link of a causal chain: its textual rendering and its kind.
#[derive(Debug)]
pub struct Cause {
    pub description: String,
    pub kind: CauseKind,
}

/// A failed transport operation, flattened to plain values.
///
/// `causes` holds the chain of nested causes, outermost first; the
/// classification predicates mirror the transport layer's own verdict
/// on the top-level failure.
#[derive(Debug)]
pub struct TransportError {
    /// Textual rendering of the top-level failure.
    pub description: String,
    pub is_timeout: bool,
    pub is_connect: bool,
    pub is_request: bool,
    pub is_status: bool,
    pub is_body: bool,
    pub is_builder: bool,
    pub is_decode: bool,
    pub is_redirect: bool,
    /// Nested causes, outermost first.
    pub causes: Vec<Cause>,
}

/// A classified failure: its kind and a composed message.
#[derive(Debug)]
pub struct ClassifiedError {
    pub kind: ErrorKind,
    pub message: String,
}

/// True of a cause that is a stream reset with reason code zero: the
/// graceful-close signal that must be treated as retryable.
pub open spec fn is_graceful_reset(c: Cause) -> bool {
    match c.kind {
        CauseKind::StreamReset { reason } => reason == Some(0u32),
        CauseKind::Other => false,
    }
}

/// True when a graceful reset occurs anywhere in the cause chain.
pub open spec fn has_graceful_reset(causes: Seq<Cause>) -> bool {
    exists|i: int| 0 <= i < causes.len() && is_graceful_reset(causes[i])
}

/// The kind the classifier assigns: the graceful-reset check first,
/// then the transport predicates in fixed priority order.
pub open spec fn classified_kind(e: TransportError) -> ErrorKind {
    if has_graceful_reset(e.causes@) {
        ErrorKind::RetryError
    } else if e.is_timeout {
        ErrorKind::TimeoutError
    } else if e.is_connect {
        ErrorKind::ConnectError
    } else if e.is_request {
        ErrorKind::RequestError
    } else if e.is_status {
        ErrorKind::BadStatusCodeError
    } else if e.is_body {
        ErrorKind::BodyError
    } else if e.is_builder {
        ErrorKind::BuilderError
    } else if e.is_decode {
        ErrorKind::DecodeError
    } else if e.is_redirect {
        ErrorKind::RedirectError
    } else {
        ErrorKind::GenericError
    }
}

/// The rendering of the deepest cause — the last link of the chain,
/// which is stored outermost first — or empty when the failure has no
/// nested cause.
pub open spec fn source_description(e: TransportError) -> Seq<char> {
    if e.causes@.len() == 0 {
        Seq::<char>::empty()
    } else {
        e.causes@.last().description@
    }
}

/// The composed three-part message:
/// `[<deepest-cause-description-or-empty>] <stage>: <top-level description>`.
pub open spec fn composed_message(source_desc: Seq<char>, stage: Seq<char>, top_desc: Seq<char>) -> Seq<char> {
    "["@ + source_desc + "] "@ + stage + ": "@ + top_desc
}

/// The message the classifier composes for a failure at the given stage.
pub open spec fn classified_message(e: TransportError, stage: Seq<char>) -> Seq<char> {
    composed_message(source_description(e), stage, e.description@)
}

/// Composes the three-part failure message.
pub fn compose_message(source_desc: &str, stage: &str, top_desc: &str) -> (r: String)
    ensures
        r@ == composed_message(source_desc@, stage@, top_desc@),
{
    let mut m = String::from_str("[");
    m.append(source_desc);
    m.append("] ");
    m.append(stage);
    m.append(": ");
    m.append(top_desc);
    m
}

impl TransportError {
    /// True when a graceful stream reset (reason code zero) occurs
    /// anywhere in the cause chain.
    pub fn has_reset_signal(&self) -> (r: bool)
        ensures
            r == has_graceful_reset(self.causes@),
    {
        let mut i: usize = 0;
        while i < self.causes.len()
            invariant
                i <= self.causes@.len(),
                forall|j: int| 0 <= j < i ==> !is_graceful_reset(self.causes@[j]),
            decreases self.causes@.len() - i,
        {
            match &self.causes[i].kind {
                CauseKind::StreamReset { reason: Some(code) } => {
                    if *code == 0 {
                        return true;
                    }
                },
                _ => {},
            }
            i = i + 1;
        }
        false
    }

    /// Classifies this failure, observed at the stage described by
    /// `stage`, into its kind and composed message.
    ///
    /// The graceful-reset signal is checked before every transport
    /// predicate, so a benign reset never masquerades as a generic
    /// failure; the remaining predicates are tested in fixed priority
    /// order, first match wins.
    pub fn classify(&self, stage: &str) -> (r: ClassifiedError)
        ensures
            r.kind == classified_kind(*self),
            r.message@ == classified_message(*self, stage@),
    {
        let source_desc = if self.causes.len() == 0 {
            String::new()
        } else {
            self.causes[self.causes.len() - 1].description.clone()
        };
        let message = compose_message(source_desc.as_str(), stage, self.description.as_str());
        let kind = if self.has_reset_signal() {
            ErrorKind::RetryError
        } else if self.is_timeout {
            ErrorKind::TimeoutError
        } else if self.is_connect {
            ErrorKind::ConnectError
        } else if self.is_request {
            ErrorKind::RequestError
        } else if self.is_status {
            ErrorKind::BadStatusCodeError
        } else if self.is_body {
            ErrorKind::BodyError
        } else if self.is_builder {
            ErrorKind::BuilderError
        } else if self.is_decode {
            ErrorKind::DecodeError
        } else if self.is_redirect {
            ErrorKind::RedirectError
        } else {
            ErrorKind::GenericError
        };
        ClassifiedError { kind, message }
    }
}

/// A graceful stream reset wins over every other check: whenever the
/// cause chain holds a stream reset with reason code zero, whatever
/// the transport predicates say of the failure, classification yields
/// `RetryError`.
pub proof fn lemma_graceful_reset_wins(e: TransportError)
    requires
        has_graceful_reset(e.causes@),
    ensures
        classified_kind(e) == ErrorKind::RetryError,
{
}

/// And only a graceful stream reset is retryable: without one in the
/// cause chain, classification never yields `RetryError`.
pub proof fn lemma_retry_only_on_graceful_reset(e: TransportError)
    requires
        !has_graceful_reset(e.causes@),
    ensures
        classified_kind(e) != ErrorKind::RetryError,
{
}

/// A failure that exceeded the deadline is classified `TimeoutError`
/// whenever no graceful reset hides in its cause chain: a timeout is
/// never surfaced as a generic failure.
pub proof fn lemma_timeout_classified(e: TransportError)
    requires
        e.is_timeout,
        !has_graceful_reset(e.causes@),
    ensures
        classified_kind(e) == ErrorKind::TimeoutError,
{
}

/// A failure in establishing the underlying connection — one the
/// transport does not also mark as a timeout — is classified
/// `ConnectError` whenever no graceful reset hides in its cause
/// chain: it never surfaces as the generic kind.
pub proof fn lemma_connect_classified(e: TransportError)
    requires
        e.is_connect,
        !e.is_timeout,
        !has_graceful_reset(e.causes@),
    ensures
        classified_kind(e) == ErrorKind::ConnectError,
{
}

/// Classification is a pure function of the failure and the stage
/// description: any two results of classifying the same values agree
/// in kind and message.
pub proof fn lemma_classify_deterministic(
    e: TransportError,
    stage: Seq<char>,
    r1: ClassifiedError,
    r2: ClassifiedError,
)
    requires
        r1.kind == classified_kind(e),
        r1.message@ == classified_message(e, stage),
        r2.kind == classified_kind(e),
        r2.message@ == classified_message(e, stage),
    ensures
        r1.kind == r2.kind,
        r1.message@ == r2.message@,
{
}

} // verus!
