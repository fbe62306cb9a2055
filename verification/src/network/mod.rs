pub mod buffer;
pub mod connection;
pub mod packet;

pub use buffer::Buffer;
pub use connection::{ConnState, ConnectionCore, ConnectionId, NetworkMetrics, ReadOutcome, WriteOutcome};
pub use packet::{frame_packet, RawPacket};
