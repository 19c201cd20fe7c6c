//! The hand-written capability contracts the generated code may be asked
//! to implement: connections, listening servers, call fetching, and the
//! dispatcher surface the protocol compiler targets.  These are consumed
//! as plain interfaces and never themselves generated.

use vstd::prelude::*;

verus! {

/// Relies on `core::task::Poll`, carried through as an opaque value: the
/// readiness result a call-fetch capability reports.
#[verifier::external_type_specification]
#[verifier::external_body]
#[verifier::reject_recursive_types(T)]
pub struct ExPoll<T>(core::task::Poll<T>);

/// Something that can be disconnected, used for clients and for
/// connections accepted by a server.
pub trait Connection {
    /// Possible errors of the connection.
    type Error;

    /// Disconnect from the other end of the connection.  The consequence
    /// of calling it more than once is implementation-defined.
    fn disconnect(&self) -> Result<(), Self::Error>;
}

/// Serve on some address to accept incoming connections, used for active
/// providers.
pub trait Server: Sized {
    /// The address to listen on.
    type Address;

    /// The type of an incoming client.
    type Incoming: Connection;

    /// Possible errors during serving.
    type Error;

    fn serve(addr: Self::Address) -> Result<Self, Self::Error>;

    fn accept(&self) -> Result<Self::Incoming, Self::Error>;

    fn shutdown(self) -> Result<(), Self::Error>;
}

/// Fetch an incoming procedure call.  There is no mechanism to get the
/// origin message; to see it, plug an adapter into the provider.
pub trait FetchCall: Connection {
    /// Check if there are pending calls to be polled.
    fn has_call() -> bool;

    /// Poll a call and process it, reporting whether one was there.
    fn poll_call() -> core::task::Poll<()>;
}

/// Dispatch requests into implementations, returning responses; the
/// surface the protocol compiler generates against.  Implementing this by
/// hand is not encouraged: generation keeps the response types matched
/// with the request types.
pub trait Dispatcher {
    /// Incoming requests, including all the underlying operations'
    /// parameters.
    type Request;

    /// Responses returned by the underlying operations.
    type Response;

    /// Dispatch the request to the operation its variant names, returning
    /// the matching response.
    fn dispatch(&mut self, request: Self::Request) -> Self::Response;
}

} // verus!
