//! A peer-to-peer file transfer engine for devices on one local network:
//! the wire framing, the peer directory, the trust store and the decisions
//! of the transfer protocol, each stated by a contract.

pub mod advert;
pub mod ble;
pub mod compression;
pub mod config;
pub mod discovery;
pub mod engine;
pub mod events;
pub mod handshake;
pub mod keyed;
pub mod notification;
pub mod security;
pub mod text;
pub mod transfer;
pub mod transports;
pub mod utils;
