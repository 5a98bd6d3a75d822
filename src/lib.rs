//! The address a server listens on: a TCP hostname, a literal IP address, or
//! the path of a Unix domain socket, with its parsing from configuration text
//! and its rendering back to text.

pub mod address;
pub mod ip;
pub mod laws;

pub use address::{Address, AddressError, Resolution};
pub use ip::{IpAddr, IpFamily};
