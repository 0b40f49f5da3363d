//! Decision core of a tool that runs an application inside a network
//! namespace whose only way out is a VPN tunnel.
//!
//! Everything here is a function from plain values to plain values: which
//! protocol a provider speaks, which server an alias names, which commands
//! build and dismantle a namespace, and which namespaces are still owned.
//! Running commands, touching files and talking to the user is left to the
//! caller.

pub mod address;
pub mod application;
pub mod auth;
pub mod commands;
pub mod error;
pub mod filter;
pub mod lifecycle;
pub mod locks;
pub mod parse;
pub mod probe;
pub mod request;
pub mod subnet;
pub mod text;
pub mod traces;
pub mod tunnel;
pub mod vpn;
pub mod wireguard;
