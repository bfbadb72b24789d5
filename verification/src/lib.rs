//! Point-in-time scan of the wireless networks visible on one interface.
//!
//! The operating system's wireless driver hands back its scan results as a
//! chain of fixed-layout records. This library holds everything that decides
//! or decodes: the bit-flag and byte-buffer decoders ([`codec`]), the bounded
//! walk over the result chain ([`decoder`]), and the order in which the driver
//! is asked for things and the channel is released ([`session`]). Talking to
//! the driver itself is left to the caller, who performs each request the
//! session names and hands the reply back.

pub mod codec;
pub mod decoder;
pub mod error;
pub mod network;
pub mod session;
pub mod wire;

pub use codec::{
    decode_bitrate, decode_encryption, decode_essid, decode_frequency, decode_mode,
    decode_quality,
};
pub use decoder::{decode, decode_node, link_chain, MAX_CHAIN_NODES};
pub use error::ScanError;
pub use network::{ApAddrV4, ApAddrV6, EncryptionClass, WifiScan, WirelessMode, WirelessNetwork};
pub use session::{is_valid_interface_name, DriverReply, DriverRequest, Progress, ScanSession};
pub use wire::{DriverRange, IwParam, IwQuality, IwStats, RawScanNode, WirelessConfig, WirelessKey};
