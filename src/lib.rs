//! Packet-processing core of a shred relay accelerator: payload
//! normalization, two-generation duplicate suppression, the decisions of the
//! receivers, the processor and the sniffer, and the shared counters.
pub mod args;
pub mod normalize;
mod hashing;
pub mod text;
pub mod window;
pub mod stats;
pub mod processor;
pub mod receiver;
pub mod sniffer;
pub mod utils;
pub mod zdn_ping;
pub mod async_utils;
pub mod net;
