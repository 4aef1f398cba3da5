//! Rules of one client connection: who may connect, what the endpoint must
//! look like, and the initialize handshake every connection goes through.

use vstd::prelude::*;

use crate::daemon::session::ClientContext;
use crate::protocol::codec::ProtocolCodecError;
use crate::protocol::response::{ErrorCode, ProtocolError, ServerReply};

verus! {

/// Checks that the peer of a connection runs as the daemon's user.
///
/// # Errors
///
/// `"IPC peer is not owned by the daemon user"` otherwise.
pub fn authorize_peer(peer_uid: u32, daemon_uid: u32) -> (r: Result<(), &'static str>)
    ensures
        peer_uid == daemon_uid ==> r is Ok,
        peer_uid != daemon_uid ==> (r matches Err(m) && m@
            == "IPC peer is not owned by the daemon user"@),
{
    if peer_uid != daemon_uid {
        return Err("IPC peer is not owned by the daemon user");
    }
    Ok(())
}

/// Whether an endpoint path holds a socket of the daemon's user with no
/// group or other permissions.
pub fn endpoint_is_private(is_socket: bool, owner_uid: u32, daemon_uid: u32, mode: u32) -> (r: bool)
    ensures
        r == (is_socket && owner_uid == daemon_uid && mode & 0o077u32 == 0),
{
    is_socket && owner_uid == daemon_uid && mode & 0o077u32 == 0
}

/// The protocol error code a rejected frame is answered with.
pub fn frame_rejection_code(error: &ProtocolCodecError) -> (r: ErrorCode)
    ensures
        *error == ProtocolCodecError::FrameTooLarge ==> r == ErrorCode::FrameTooLarge,
        *error == ProtocolCodecError::UnsupportedVersion ==> r == ErrorCode::UnsupportedVersion,
        !(*error == ProtocolCodecError::FrameTooLarge || *error
            == ProtocolCodecError::UnsupportedVersion) ==> r == ErrorCode::InvalidRequest,
{
    match error {
        ProtocolCodecError::FrameTooLarge => ErrorCode::FrameTooLarge,
        ProtocolCodecError::UnsupportedVersion => ErrorCode::UnsupportedVersion,
        _ => ErrorCode::InvalidRequest,
    }
}

/// A failure reply that is not tied to a request the client sent.
pub fn failure_reply<T>(code: ErrorCode, message: &str, request_id: u128, correlation_id: u128) -> (r:
    ServerReply<T>)
    ensures
        r matches ServerReply::Failure { request_id: id, error } && id == request_id && error.code
            == code && error.message@ == message@ && !error.retryable && error.correlation_id
            == correlation_id,
{
    ServerReply::Failure {
        request_id,
        error: ProtocolError {
            code,
            message: message.to_owned(),
            retryable: false,
            correlation_id,
        },
    }
}

/// The reply a lagging subscriber gets before its connection closes.
pub fn lagged_reply<T>(request_id: u128, correlation_id: u128) -> (r: ServerReply<T>)
    ensures
        r matches ServerReply::Failure { request_id: id, error } && id == request_id && error.code
            == ErrorCode::ClientLagged && error.message@ == "client exceeded the bounded event queue"@
            && !error.retryable && error.correlation_id == correlation_id,
{
    failure_reply(ErrorCode::ClientLagged, "client exceeded the bounded event queue", request_id, correlation_id)
}

/// Handshake state of one connection.
#[derive(Debug)]
pub struct Connection {
    initialized: bool,
    context: ClientContext,
}

impl Connection {
    /// Whether a successful `initialize` has been answered.
    pub closed spec fn spec_initialized(&self) -> bool {
        self.initialized
    }

    /// The client the connection speaks for.
    pub closed spec fn spec_context(&self) -> ClientContext {
        self.context
    }

    /// A fresh connection of a verified peer, not yet initialized.
    pub fn new(uid: u32) -> (r: Self)
        ensures
            !r.spec_initialized(),
            r.spec_context().uid == uid,
            r.spec_context().client_name@ == "uninitialized"@,
    {
        Self {
            initialized: false,
            context: ClientContext { uid, client_name: "uninitialized".to_owned() },
        }
    }

    /// The client the connection speaks for.
    pub fn context(&self) -> (r: &ClientContext)
        ensures
            *r == self.spec_context(),
    {
        &self.context
    }

    /// Whether a successful `initialize` has been answered.
    pub fn is_initialized(&self) -> (r: bool)
        ensures
            r == self.spec_initialized(),
    {
        self.initialized
    }

    /// Decides whether a command may be dispatched: `initialize` must come
    /// first, and only once.
    ///
    /// # Errors
    ///
    /// `"initialize must be the first command"` or
    /// `"connection is already initialized"`; the connection stays open.
    pub fn accept_command(&self, is_initialize: bool) -> (r: Result<(), &'static str>)
        ensures
            !self.spec_initialized() && !is_initialize ==> (r matches Err(m) && m@
                == "initialize must be the first command"@),
            self.spec_initialized() && is_initialize ==> (r matches Err(m) && m@
                == "connection is already initialized"@),
            self.spec_initialized() != is_initialize ==> r is Ok,
    {
        if !self.initialized && !is_initialize {
            return Err("initialize must be the first command");
        }
        if self.initialized && is_initialize {
            return Err("connection is already initialized");
        }
        Ok(())
    }

    /// Records the answer to a dispatched command: a successful
    /// `initialize` completes the handshake and names the client.
    pub fn record_reply(&mut self, is_initialize: bool, success: bool, client_name: Option<String>)
        ensures
            final(self).spec_initialized() == (old(self).spec_initialized() || (is_initialize
                && success)),
            final(self).spec_context().uid == old(self).spec_context().uid,
            is_initialize && success && client_name is Some ==> final(self).spec_context().client_name@
                == client_name->0@,
            !(is_initialize && success && client_name is Some) ==> final(self).spec_context().client_name
                == old(self).spec_context().client_name,
    {
        if is_initialize && success {
            self.initialized = true;
            if let Some(name) = client_name {
                self.context.client_name = name;
            }
        }
    }
}

} // verus!
