//! Device-side core of an EtherNet/IP-style adapter: the CIP object registry,
//! the encapsulation codec and the discovery dispatcher, with machine-checked
//! contracts.

pub mod buf;
pub mod cip;
pub mod eip_stack;
pub mod encap;
pub mod text;
pub mod transport;
pub mod wire;
