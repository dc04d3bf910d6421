//! Protocol engine for reflashing Riden RD60xx bench power supplies over a
//! serial link: bootloader detection, device identification, model gating,
//! and the chunked firmware transfer, each phase specified and verified.

pub mod chunking;
pub mod codec;
pub mod registry;
pub mod session;
pub mod transport;
