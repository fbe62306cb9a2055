//! The protocol phase of one connection.
use vstd::prelude::*;

verus! {

/// Which packets a connection expects next.
#[derive(Debug, Clone, Copy, PartialEq, Eq, Structural)]
pub enum ProtocolState {
    Handshaking,
    Status,
    Login,
    Configuration,
    Play,
}

} // verus!
