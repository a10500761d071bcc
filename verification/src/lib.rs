//! The core of a daemon that tells local clients about the machine it runs on.
//!
//! The daemon keeps a worker process alive that reads the machine, keeps the latest
//! reading of each module, and serves the readings over a socket to clients that show
//! a shared token. This library holds what the daemon decides: the supervisor of the
//! worker (`backend`), the snapshot store (`store`), the registry of connections
//! (`websocket::peers`) and the engine that answers requests (`websocket::server`).
//! It touches no file, socket or process: whatever shell runs it hands it what
//! happened and does what it hands back.

pub mod api;
pub mod backend;
pub mod cpu;
pub mod disks;
pub mod event;
pub mod gui;
pub mod ids;
pub mod json;
pub mod modules;
pub mod networks;
pub mod resources;
pub mod run;
pub mod seq_lemmas;
pub mod settings;
pub mod shared;
pub mod store;
pub mod text;
pub mod websocket;
pub mod websocket_client;
