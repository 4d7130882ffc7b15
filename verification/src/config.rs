//! Client configuration.
//!
//! A `ClientConfig` is an immutable value assembled before the
//! connection pool is built.  It fixes the end-to-end request timeout,
//! the TLS trust policy, and the protocol-negotiation mode.  Changing
//! a setting requires building a new client.

use vstd::prelude::*;

verus! {

/// How the protocol is negotiated when a connection is established.
///
/// The client speaks HTTP/2 directly over the transport ("prior
/// knowledge"): no upgrade or ALPN negotiation is attempted.
#[derive(Clone, Copy, Debug, PartialEq, Eq, Structural)]
pub enum NegotiationMode {
    PriorKnowledge,
}

/// Immutable configuration for one connection pool.
#[derive(Clone, Copy, Debug, PartialEq, Eq, Structural)]
pub struct ClientConfig {
    /// End-to-end deadline for one request, in seconds (connect, send
    /// and full body read combined).
    pub timeout_seconds: u64,
    /// When true, certificate validation is disabled for every
    /// connection of the pool.  Never a default.
    pub accept_invalid_certs: bool,
    /// Protocol-negotiation mode; fixed to prior-knowledge HTTP/2.
    pub negotiation_mode: NegotiationMode,
}

impl ClientConfig {
    /// A configuration with the given timeout, certificate validation
    /// enabled, and prior-knowledge HTTP/2 negotiation.
    pub fn new(timeout_seconds: u64) -> (r: ClientConfig)
        ensures
            r.timeout_seconds == timeout_seconds,
            r.accept_invalid_certs == false,
            r.negotiation_mode == NegotiationMode::PriorKnowledge,
    {
        ClientConfig {
            timeout_seconds,
            accept_invalid_certs: false,
            negotiation_mode: NegotiationMode::PriorKnowledge,
        }
    }

    /// The same configuration with the certificate trust policy set as
    /// given: an explicit downgrade when `accept` is true.
    pub fn with_accept_invalid_certs(self, accept: bool) -> (r: ClientConfig)
        ensures
            r.timeout_seconds == self.timeout_seconds,
            r.accept_invalid_certs == accept,
            r.negotiation_mode == self.negotiation_mode,
    {
        ClientConfig { accept_invalid_certs: accept, ..self }
    }
}

} // verus!
