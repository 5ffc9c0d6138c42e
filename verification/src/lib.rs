//! Application-layer mDNS repeater: relays multicast DNS datagrams between
//! otherwise-isolated network interfaces of a multi-homed host.
//!
//! The crate holds the relay engine's logic: the interface snapshot computed
//! once at startup, the socket configuration and bind/join policies, and the
//! loop-prevention decisions that keep a repeated packet from being repeated
//! forever. Socket I/O and thread plumbing live outside the library and drive
//! it through the worker step functions.

pub mod addr;
pub mod config;
pub mod relay;
pub mod snapshot;
pub mod sockets;
