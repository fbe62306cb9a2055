use vstd::prelude::*;

verus! {

/// Everything that can go wrong while reading or writing the wire protocol.
#[derive(Debug, Clone, Copy, PartialEq, Eq, Structural)]
pub enum ProtoError {
    Truncated,
    VarIntTooLong,
    VarLongTooLong,
    StringTooLong(i32),
    InvalidUtf8,
    PacketTooLong(i32),
    UnknownPacket(i32),
    InvalidNextState(i32),
    InvalidTag(u8),
    NegativeLength(i32),
    MixedList,
    DepthExceeded,
}

} // verus!
