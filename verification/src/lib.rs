pub mod clock;
pub mod config;
pub mod console;
pub mod entity;
pub mod inventory;
pub mod java;
pub mod network;
pub mod persist;
pub mod scheduler;
pub mod state;
pub mod text;
pub mod version;
pub mod world;
