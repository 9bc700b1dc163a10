//! Verified core of a backup tool for OpenWrt devices.
//!
//! The crate holds the rules of the tool: the device registry, the backup
//! catalog and its lifecycle, the two device protocols (the ubus RPC API and
//! the LuCI web API), the collection of configuration sections into an
//! archive, and the restore sequence. Everything that touches the network or
//! the disk is described here as a step to perform; performing it is left to
//! the caller, who reports back what happened.

pub mod text;
pub mod clock;
pub mod models;
pub mod registry;
pub mod config;
pub mod archive;
pub mod collect;
pub mod json;
pub mod session;
pub mod restore;
pub mod backup;
pub mod commands;
