use vstd::prelude::*;

verus! {

/// Address of a peer on the inter-VM transport: a context id and a port.
#[derive(Clone, Copy, Debug, PartialEq, Eq, Structural)]
pub struct PeerAddr {
    pub cid: u32,
    pub port: u32,
}

impl PeerAddr {
    pub fn new(cid: u32, port: u32) -> (r: PeerAddr)
        ensures
            r.cid == cid,
            r.port == port,
    {
        PeerAddr { cid, port }
    }
}

/// What the serving framework learns of one connection: its peer's address,
/// or `None` when the address could not be read at accept time.
#[derive(Clone, Copy, Debug, PartialEq, Eq, Structural)]
pub struct VsockConnectInfo {
    pub peer_addr: Option<PeerAddr>,
}

} // verus!
