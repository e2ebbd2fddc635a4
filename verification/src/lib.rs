//! Overlay logic for a Discord voice/notification overlay: configuration,
//! user state, the websocket bridge protocol and the decisions that the
//! windowing side acts on.

pub mod auth;
pub mod colors;
pub mod components;
pub mod config;
pub mod display;
pub mod image;
pub mod keys;
pub mod overlay;
pub mod payloads;
pub mod process;
pub mod rpc;
pub mod sync;
pub mod text;
pub mod user;
pub mod websocket;
