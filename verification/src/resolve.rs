//! Resolution of a remote deployment descriptor into one connectable
//! endpoint.
//!
//! Turning the symbolic address into candidate endpoints (name lookup) is
//! the host's job; this module owns the decision: take the first candidate
//! of the ordered sequence, and treat an empty sequence as a fatal startup
//! configuration error — a consensus-critical service must not start with
//! an undefined network topology.

use crate::config::RemoteService;
use vstd::prelude::*;

verus! {

/// A concrete connectable endpoint: an IP address as its octets (four for
/// v4, sixteen for v6) and a port.
#[derive(Debug, Clone, PartialEq, Eq)]
pub struct SocketEndpoint {
    pub octets: Vec<u8>,
    pub port: u16,
}

/// View of [`SocketEndpoint`].
pub struct SocketEndpointView {
    pub octets: Seq<u8>,
    pub port: u16,
}

impl View for SocketEndpoint {
    type V = SocketEndpointView;

    open spec fn view(&self) -> SocketEndpointView {
        SocketEndpointView { octets: self.octets@, port: self.port }
    }
}

impl SocketEndpoint {
    /// An endpoint address is four or sixteen octets.
    pub open spec fn wf(&self) -> bool {
        self@.octets.len() == 4 || self@.octets.len() == 16
    }
}

/// Resolution failure: there is no recoverable path from it at this layer.
#[derive(Debug, Clone, PartialEq, Eq)]
pub enum ResolveError {
    /// The symbolic address yielded no candidate endpoints.
    NoAddresses,
}

impl RemoteService {
    /// Pick the endpoint to connect to from the ordered candidates that the
    /// host resolved this descriptor's symbolic address to: the first one.
    /// No candidates is a fatal configuration error.
    pub fn server_address(&self, candidates: Vec<SocketEndpoint>) -> (r: Result<
        SocketEndpoint,
        ResolveError,
    >)
        ensures
            candidates@.len() > 0 ==> (r matches Ok(e) && e == candidates@[0]),
            candidates@.len() == 0 ==> r == Err::<SocketEndpoint, ResolveError>(
                ResolveError::NoAddresses,
            ),
    {
        let mut candidates = candidates;
        if candidates.len() == 0 {
            Err(ResolveError::NoAddresses)
        } else {
            Ok(candidates.remove(0))
        }
    }
}

} // verus!
