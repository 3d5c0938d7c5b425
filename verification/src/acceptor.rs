//! Admission of a connector: from the verifier's reply to an entry in the
//! tunnel registry.
//!
//! The caller completes the QUIC handshake, sends the peer's certificate to
//! the verifier and, holding the registry for writing, looks whether the UID
//! in the reply already has a connection and whether that connection reports
//! a close reason. The decision and the update of the registry are made here.

use crate::identity::{is_success, status_is_success, VerifierReply};
use crate::registry::{admits, RegistryError, TunnelRegistry};
use vstd::prelude::*;

verus! {

/// Why a connector was turned away.
#[derive(Debug, Clone, Copy, PartialEq, Eq, Structural)]
pub enum HandshakeError {
    /// The verifier answered with a status outside 2xx.
    VerifierRejected,
    /// The verifier answered 2xx, but the body names no UID.
    MalformedReply,
    /// The UID has a connection that is not closed.
    AlreadyExists,
}

impl HandshakeError {
    /// The text under which the error is reported.
    pub fn message(&self) -> (text: &'static str)
        ensures
            text@ == match *self {
                HandshakeError::VerifierRejected => "Failed to verify client certificate"@,
                HandshakeError::MalformedReply => "Verifier reply names no uid"@,
                HandshakeError::AlreadyExists => "Connection already exists"@,
            },
    {
        match self {
            HandshakeError::VerifierRejected => "Failed to verify client certificate",
            HandshakeError::MalformedReply => "Verifier reply names no uid",
            HandshakeError::AlreadyExists => "Connection already exists",
        }
    }
}

/// A connector that was admitted: the UID it is registered under, and the
/// closed connection that it displaced, if there was one.
pub struct Admitted<C> {
    pub uid: String,
    pub displaced: Option<C>,
}

/// What becomes of a connector, given the registry, the verifier's reply and
/// whether the connection registered under the reply's UID was found closed:
/// the UID it is registered under, or why it is turned away.
pub open spec fn admission<C>(
    registry: Map<Seq<char>, C>,
    reply: VerifierReply,
    existing_closed: bool,
) -> Result<Seq<char>, HandshakeError> {
    if !is_success(reply.status) {
        Err(HandshakeError::VerifierRejected)
    } else {
        match reply.uid {
            None => Err(HandshakeError::MalformedReply),
            Some(uid) => if admits(registry, uid@, existing_closed) {
                Ok(uid@)
            } else {
                Err(HandshakeError::AlreadyExists)
            },
        }
    }
}

/// Admits or turns away the connector behind `connection`.
///
/// A connector is registered under the UID of the reply when the verifier
/// answered 2xx with a UID and that UID is free or its connection was found
/// closed. In every other case the registry stays as it was.
pub fn handle_quic_connection<C>(
    registry: &mut TunnelRegistry<C>,
    connection: C,
    reply: VerifierReply,
    existing_closed: bool,
) -> (res: Result<Admitted<C>, HandshakeError>)
    ensures
        match admission(old(registry)@, reply, existing_closed) {
            Ok(uid) => {
                &&& res matches Ok(admitted)
                &&& admitted.uid@ == uid
                &&& admitted.displaced == if old(registry)@.contains_key(uid) {
                    Some(old(registry)@[uid])
                } else {
                    None
                }
                &&& final(registry)@ == old(registry)@.insert(uid, connection)
            },
            Err(e) => res matches Err(err) && err == e && final(registry)@ == old(registry)@,
        },
        !is_success(reply.status) ==> final(registry)@ == old(registry)@,
{
    if !status_is_success(reply.status) {
        return Err(HandshakeError::VerifierRejected);
    }
    match reply.uid {
        None => Err(HandshakeError::MalformedReply),
        Some(uid) => {
            let name = uid.clone();
            match registry.register(uid, connection, existing_closed) {
                Ok(displaced) => Ok(Admitted { uid: name, displaced }),
                Err(RegistryError::AlreadyExists) => Err(HandshakeError::AlreadyExists),
            }
        },
    }
}

} // verus!
