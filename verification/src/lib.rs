//! A safe access layer over a host-owned object system that is reached only
//! through raw handles and tables of function pointers.
//!
//! The library decides and the caller acts: nothing here calls the host.
//! Addresses are plain numbers, what the host answered is passed in, and what
//! the host is to be called with is handed out.

pub mod util;
pub mod generator;
pub mod api;
pub mod plugin;
