//! The records that the wireless driver returns, field for field, as plain
//! values. A scan result is a chain of [`RawScanNode`]s, each owning the next,
//! which ends at the first node without a successor.

use libc::c_int;
use vstd::prelude::*;

verus! {

/// Longest interface name, in bytes, that the driver accepts.
pub const IFNAMSIZ: usize = 16;

/// Size of the protocol name of a configuration block: the name and its
/// terminator.
pub const PROTOCOL_NAME_SIZE: usize = 17;

/// Size of the ESSID buffer of a configuration block: 32 bytes of name and
/// two control bytes.
pub const ESSID_BUFFER_SIZE: usize = 34;

/// Size of the encoding key buffer of a configuration block.
pub const IW_ENCODING_TOKEN_MAX: usize = 64;

/// Link quality as the driver measures it.
#[derive(Debug, Clone, Copy, PartialEq, Eq, Structural)]
pub struct IwQuality {
    /// Quality of the link.
    pub quality: u8,
    /// Signal level.
    pub level: u8,
    /// Noise level.
    pub noise: u8,
}

/// The signal-quality snapshot of a scan record.
#[derive(Debug, Clone, Copy, PartialEq, Eq, Structural)]
pub struct IwStats {
    /// Status word of the device.
    pub status: u16,
    /// The measurement itself.
    pub quality: IwQuality,
}

/// A driver parameter with its qualifiers, as used for the network id and the
/// maximum bitrate.
#[derive(Debug, Clone, Copy, PartialEq, Eq, Structural)]
pub struct IwParam {
    /// The value of the parameter itself.
    pub value: i32,
    /// Non-zero where the hardware should not select automatically.
    pub fixed: u8,
    /// Non-zero where the feature is disabled.
    pub disabled: u8,
    /// Further flags, if any.
    pub flags: u16,
}

/// The encoding key of a configuration block.
#[derive(Debug, Clone, Copy)]
pub struct WirelessKey {
    /// The key buffer.
    pub key: [u8; IW_ENCODING_TOKEN_MAX],
    /// Number of bytes of the buffer in use.
    pub size: c_int,
    /// Bit flags, among them the announced WPA version.
    pub flags: c_int,
}

/// The configuration block of a scan record. Each `has_` field is a presence
/// flag: the value it guards was filled in by the driver only where the flag
/// is 1.
#[derive(Debug, Clone, Copy)]
pub struct WirelessConfig {
    /// Wireless protocol name, terminated by a zero byte.
    pub name: [u8; PROTOCOL_NAME_SIZE],
    /// Presence flag of `nwid`.
    pub has_nwid: c_int,
    /// Network id.
    pub nwid: IwParam,
    /// Presence flag of `freq_bits`.
    pub has_freq: c_int,
    /// Frequency, as the bit pattern of a 64-bit IEEE 754 number.
    pub freq_bits: u64,
    /// Flags of the frequency.
    pub freq_flags: c_int,
    /// Presence flag of `key`.
    pub has_key: c_int,
    /// Encoding key.
    pub key: WirelessKey,
    /// Presence flag of `essid`.
    pub has_essid: c_int,
    /// Whether the ESSID is switched on.
    pub essid_on: c_int,
    /// Network name, terminated by a zero byte unless it fills the buffer.
    pub essid: [u8; ESSID_BUFFER_SIZE],
    /// Length that the driver reports for the network name.
    pub essid_len: c_int,
    /// Presence flag of `mode`.
    pub has_mode: c_int,
    /// Operating mode code.
    pub mode: c_int,
}

/// One record of a scan result, owning the rest of the chain.
#[derive(Debug)]
pub struct RawScanNode {
    /// The next record; `None` at the end of the chain.
    pub next: Option<Box<RawScanNode>>,
    /// Presence flag of the access point's address.
    pub has_ap_addr: c_int,
    /// Configuration block.
    pub b: WirelessConfig,
    /// Signal-quality snapshot.
    pub stats: IwStats,
    /// Presence flag of `stats`.
    pub has_stats: c_int,
    /// Maximum-bitrate snapshot.
    pub maxbitrate: IwParam,
    /// Presence flag of `maxbitrate`.
    pub has_maxbitrate: c_int,
}

/// What the driver reports of its capabilities, as far as a scan needs it.
#[derive(Debug, Clone, Copy, PartialEq, Eq, Structural)]
pub struct DriverRange {
    /// Version of the wireless extensions that the driver was compiled for.
    pub we_version_compiled: u8,
}

impl Default for IwQuality {
    /// A measurement of all zeroes.
    fn default() -> (quality: IwQuality)
        ensures
            quality == (IwQuality { quality: 0, level: 0, noise: 0 }),
    {
        IwQuality { quality: 0, level: 0, noise: 0 }
    }
}

impl Default for IwStats {
    /// A snapshot of all zeroes.
    fn default() -> (stats: IwStats)
        ensures
            stats == (IwStats { status: 0, quality: IwQuality { quality: 0, level: 0, noise: 0 } }),
    {
        IwStats { status: 0, quality: IwQuality { quality: 0, level: 0, noise: 0 } }
    }
}

impl Default for IwParam {
    /// A parameter of all zeroes.
    fn default() -> (param: IwParam)
        ensures
            param == (IwParam { value: 0, fixed: 0, disabled: 0, flags: 0 }),
    {
        IwParam { value: 0, fixed: 0, disabled: 0, flags: 0 }
    }
}

impl Default for DriverRange {
    /// A range of all zeroes, as it has to be before the driver fills it in.
    fn default() -> (range: DriverRange)
        ensures
            range == (DriverRange { we_version_compiled: 0 }),
    {
        DriverRange { we_version_compiled: 0 }
    }
}

impl WirelessKey {
    /// Whether the key is all zeroes.
    pub open spec fn is_zeroed(&self) -> bool {
        &&& self.size == 0
        &&& self.flags == 0
        &&& forall|i: int| 0 <= i < IW_ENCODING_TOKEN_MAX ==> self.key@[i] == 0
    }
}

impl Default for WirelessKey {
    /// A key of all zeroes.
    fn default() -> (key: WirelessKey)
        ensures
            key.is_zeroed(),
    {
        WirelessKey { key: [0u8; IW_ENCODING_TOKEN_MAX], size: 0, flags: 0 }
    }
}

impl WirelessConfig {
    /// Whether the block is all zeroes: nothing in it is marked as present.
    pub open spec fn is_zeroed(&self) -> bool {
        &&& forall|i: int| 0 <= i < PROTOCOL_NAME_SIZE ==> self.name@[i] == 0
        &&& self.has_nwid == 0
        &&& self.nwid == (IwParam { value: 0, fixed: 0, disabled: 0, flags: 0 })
        &&& self.has_freq == 0
        &&& self.freq_bits == 0
        &&& self.freq_flags == 0
        &&& self.has_key == 0
        &&& self.key.is_zeroed()
        &&& self.has_essid == 0
        &&& self.essid_on == 0
        &&& forall|i: int| 0 <= i < ESSID_BUFFER_SIZE ==> self.essid@[i] == 0
        &&& self.essid_len == 0
        &&& self.has_mode == 0
        &&& self.mode == 0
    }
}

impl Default for WirelessConfig {
    /// A configuration block of all zeroes.
    fn default() -> (config: WirelessConfig)
        ensures
            config.is_zeroed(),
    {
        WirelessConfig {
            name: [0u8; PROTOCOL_NAME_SIZE],
            has_nwid: 0,
            nwid: IwParam::default(),
            has_freq: 0,
            freq_bits: 0,
            freq_flags: 0,
            has_key: 0,
            key: WirelessKey::default(),
            has_essid: 0,
            essid_on: 0,
            essid: [0u8; ESSID_BUFFER_SIZE],
            essid_len: 0,
            has_mode: 0,
            mode: 0,
        }
    }
}

impl RawScanNode {
    /// Whether the record is all zeroes and the last of its chain.
    pub open spec fn is_zeroed(&self) -> bool {
        &&& self.next is None
        &&& self.has_ap_addr == 0
        &&& self.b.is_zeroed()
        &&& self.stats == (IwStats {
            status: 0,
            quality: IwQuality { quality: 0, level: 0, noise: 0 },
        })
        &&& self.has_stats == 0
        &&& self.maxbitrate == (IwParam { value: 0, fixed: 0, disabled: 0, flags: 0 })
        &&& self.has_maxbitrate == 0
    }
}

impl Default for RawScanNode {
    /// A record of all zeroes with no successor.
    fn default() -> (node: RawScanNode)
        ensures
            node.is_zeroed(),
    {
        RawScanNode {
            next: None,
            has_ap_addr: 0,
            b: WirelessConfig::default(),
            stats: IwStats::default(),
            has_stats: 0,
            maxbitrate: IwParam::default(),
            has_maxbitrate: 0,
        }
    }
}

/// The records of a chain, first to last.
pub open spec fn chain_nodes(head: Option<Box<RawScanNode>>) -> Seq<RawScanNode>
    decreases head,
{
    match head {
        Option::None => Seq::empty(),
        Option::Some(node) => seq![*node] + chain_nodes(node.next),
    }
}

/// Whether a presence flag says that its value was filled in.
pub open spec fn flag_set(flag: c_int) -> bool {
    flag == 1
}

/// Tests a presence flag.
pub fn is_present(flag: c_int) -> (present: bool)
    ensures
        present == flag_set(flag),
{
    flag == 1
}

} // verus!
