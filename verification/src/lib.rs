//! A verified core for creating and configuring a Linux tunnel device.
//!
//! The crate performs no system call itself. It encodes the kernel's request
//! structures byte for byte, decides which privileged operation comes next
//! while a device is being brought up, and keeps track of the descriptors
//! that have to be released again. A thin driver around it carries the
//! operations out and reports their outcome.

pub mod error;
pub mod ffi;
pub mod layout;
pub mod lifecycle;
pub mod tun;
pub mod laws;
pub mod mio_wrapper;
pub mod datagram_framed;
