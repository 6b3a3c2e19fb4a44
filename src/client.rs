//! The request shapes and the routes of the verifier's interface.

use vstd::prelude::*;

verus! {

/// The two operations that the verifier offers.
#[derive(Clone, Copy, Debug, PartialEq, Eq, Structural)]
pub enum Endpoint {
    Nonce,
    Verify,
}

/// The route under which an endpoint is served.
pub open spec fn route_of(e: Endpoint) -> Seq<char> {
    match e {
        Endpoint::Nonce => "/nonce"@,
        Endpoint::Verify => "/verify"@,
    }
}

impl Endpoint {
    /// The route under which this endpoint is served.
    pub fn value(&self) -> (r: &'static str)
        ensures
            r@ == route_of(*self),
    {
        match self {
            Endpoint::Nonce => "/nonce",
            Endpoint::Verify => "/verify",
        }
    }
}

/// The signed part of a verification request: the message and the nonce
/// that the holder claims is current.
#[derive(Clone, Debug)]
pub struct Payload {
    pub message: String,
    pub nonce: String,
}

/// A verification request: the payload and the base64 text of an Ed25519
/// signature over the payload's message.
#[derive(Clone, Debug)]
pub struct VerifyPayload {
    pub payload: Payload,
    pub signature: String,
}

} // verus!
