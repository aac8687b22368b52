//! Connection, routing and world-state logic of a small multiplayer game
//! server: which packets a client is sent, how incoming packets are answered,
//! which entities are registered, and what each AI processor works on per tick.

pub mod config;
pub mod types;
pub mod packet;
pub mod store;
pub mod session;
pub mod read;
pub mod ai;
pub mod helper;
pub mod laws;
