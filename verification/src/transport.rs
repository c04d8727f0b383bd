//! What the transports decide; the sockets themselves are not here.

pub mod udp;
