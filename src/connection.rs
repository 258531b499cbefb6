use vstd::prelude::*;

use crate::addr::{PeerAddr, VsockConnectInfo};

verus! {

/// One accepted connection: the socket `inner`, which the I/O operations
/// drive, and the peer address captured once, when it was accepted.
///
/// The peer address is private and no method changes it, so the
/// `VsockConnectInfo` of a handle is the same for its whole lifetime,
/// whatever was read from or written to `inner`.
pub struct VsockStreamConnectable<S> {
    peer_addr: Option<PeerAddr>,
    pub inner: S,
}

/// A handle built from a socket and a peer address holds exactly those.
pub broadcast proof fn lemma_handle_parts<S>(inner: S, peer: Option<PeerAddr>)
    ensures
        #[trigger] VsockStreamConnectable::handle_spec(inner, peer).peer() == peer,
        VsockStreamConnectable::handle_spec(inner, peer).socket() == inner,
{
}

impl<S> VsockStreamConnectable<S> {
    /// The peer address captured at construction.
    pub closed spec fn peer(&self) -> Option<PeerAddr> {
        self.peer_addr
    }

    /// The socket the handle holds.
    pub closed spec fn socket(&self) -> S {
        self.inner
    }

    /// The handle that wraps socket `inner` accepted from peer `peer`.
    pub closed spec fn handle_spec(inner: S, peer: Option<PeerAddr>) -> Self {
        VsockStreamConnectable { peer_addr: peer, inner }
    }

    /// The connection info that a handle hands out.
    pub open spec fn info_spec(&self) -> VsockConnectInfo {
        VsockConnectInfo { peer_addr: self.peer() }
    }

    pub fn new(inner: S, peer_addr: Option<PeerAddr>) -> (r: Self)
        ensures
            r == Self::handle_spec(inner, peer_addr),
            r.socket() == inner,
            r.peer() == peer_addr,
    {
        VsockStreamConnectable { peer_addr, inner }
    }

    /// The peer snapshot for the serving framework; reads no socket.
    pub fn connect_info(&self) -> (r: VsockConnectInfo)
        ensures
            r == self.info_spec(),
            r.peer_addr == self.peer(),
    {
        VsockConnectInfo { peer_addr: self.peer_addr }
    }

    /// Gives the socket back, with the peer address it was accepted from.
    pub fn into_parts(self) -> (r: (S, Option<PeerAddr>))
        ensures
            r.0 == self.socket(),
            r.1 == self.peer(),
    {
        (self.inner, self.peer_addr)
    }

    /// A handle is its socket and its peer address, and its connection info
    /// depends on the peer address alone: whatever state the socket reaches
    /// through reads, writes, flushes and shutdowns, the handle that holds it
    /// hands out the connection info it had when it was accepted.
    pub proof fn lemma_connect_info_fixed(h: Self, later: S)
        ensures
            h == Self::handle_spec(h.socket(), h.peer()),
            Self::handle_spec(later, h.peer()).info_spec() == h.info_spec(),
            Self::handle_spec(later, h.peer()).socket() == later,
    {
    }
}

} // verus!
