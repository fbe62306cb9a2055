pub mod chunks;
pub mod entities;
pub mod error;
pub mod metadata;
pub mod nbt;
pub mod player;
pub mod packets;
pub mod proto;
pub mod registries;
pub mod session;
pub mod state;
pub mod view;

pub use error::ProtoError;
pub use packets::{Handshake, LoginStart, PROTOCOL_VERSION, VERSION_NAME};
pub use proto::{Reader, Writer, MAX_STRING_BYTES};
