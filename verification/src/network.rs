//! The decoded, owned values that a scan produces.

use crate::wire::IwQuality;
use vstd::prelude::*;

verus! {

/// The kind of encryption a network announces.
#[derive(Debug, Clone, Copy, PartialEq, Eq, Structural)]
pub enum EncryptionClass {
    /// Encryption is disabled: the network is open.
    Open,
    /// WPA.
    WPA,
    /// WPA2.
    WPA2,
    /// None of the recognised bits is set.
    Unknown,
}

/// The name of an encryption class.
pub open spec fn encryption_name(class: EncryptionClass) -> Seq<char> {
    match class {
        EncryptionClass::Open => "None"@,
        EncryptionClass::WPA => "WPA"@,
        EncryptionClass::WPA2 => "WPA2"@,
        EncryptionClass::Unknown => "Unknown"@,
    }
}

impl EncryptionClass {
    /// The name of the class, for display.
    pub fn name(&self) -> (name: &'static str)
        ensures
            name@ == encryption_name(*self),
    {
        match self {
            EncryptionClass::Open => "None",
            EncryptionClass::WPA => "WPA",
            EncryptionClass::WPA2 => "WPA2",
            EncryptionClass::Unknown => "Unknown",
        }
    }
}

/// The role in which a wireless device operates.
#[derive(Debug, Clone, Copy, PartialEq, Eq, Structural)]
pub enum WirelessMode {
    /// Let the driver decide.
    Auto,
    /// Single cell network.
    AdHoc,
    /// Multi cell network, roaming.
    Infra,
    /// Synchronisation master or access point.
    Master,
    /// Wireless repeater (forwarder).
    Repeat,
    /// Secondary master or repeater (backup).
    Second,
    /// Passive monitor (listen only).
    Monitor,
}

/// An address in IPv4 form.
#[derive(Debug, Clone, Copy, PartialEq, Eq)]
pub struct ApAddrV4 {
    /// The four octets of the address.
    pub octets: [u8; 4],
}

/// An address in IPv6 form.
#[derive(Debug, Clone, Copy, PartialEq, Eq)]
pub struct ApAddrV6 {
    /// The eight segments of the address.
    pub segments: [u16; 8],
}

/// Details of a single network. The driver may leave out any of them, so
/// each is optional on its own.
#[derive(Debug, Clone, PartialEq, Eq)]
pub struct WirelessNetwork {
    /// Address of the access point, in IPv4 form.
    pub ap_addr4: Option<ApAddrV4>,
    /// Address of the access point, in IPv6 form.
    pub ap_addr6: Option<ApAddrV6>,
    /// Signal quality.
    pub quality: Option<IwQuality>,
    /// Highest bitrate that the network advertises, in bits per second.
    pub maxbitrate: Option<i32>,
    /// Frequency, as the bit pattern of a 64-bit IEEE 754 number.
    pub freq_bits: Option<u64>,
    /// Name of the network.
    pub essid: Option<String>,
    /// Operating mode.
    pub mode: Option<WirelessMode>,
    /// Encryption that the network announces.
    pub encryption: EncryptionClass,
}

/// An optional string as contracts see it: its characters, if it is there.
pub open spec fn text_view(text: Option<String>) -> Option<Seq<char>> {
    match text {
        Option::Some(text) => Option::Some(text@),
        Option::None => Option::None,
    }
}

/// A [`WirelessNetwork`] as contracts see it: the name as a sequence of
/// characters, everything else as it is.
pub struct NetworkModel {
    pub ap_addr4: Option<ApAddrV4>,
    pub ap_addr6: Option<ApAddrV6>,
    pub quality: Option<IwQuality>,
    pub maxbitrate: Option<i32>,
    pub freq_bits: Option<u64>,
    pub essid: Option<Seq<char>>,
    pub mode: Option<WirelessMode>,
    pub encryption: EncryptionClass,
}

impl View for WirelessNetwork {
    type V = NetworkModel;

    open spec fn view(&self) -> NetworkModel {
        NetworkModel {
            ap_addr4: self.ap_addr4,
            ap_addr6: self.ap_addr6,
            quality: self.quality,
            maxbitrate: self.maxbitrate,
            freq_bits: self.freq_bits,
            essid: text_view(self.essid),
            mode: self.mode,
            encryption: self.encryption,
        }
    }
}

/// The outcome of one scan: the networks that were visible on an interface,
/// in the order in which the driver returned them.
#[derive(Debug, Clone, PartialEq, Eq)]
pub struct WifiScan {
    /// Name of the interface that was scanned.
    pub interface: String,
    /// The networks, in the driver's order.
    pub networks: Vec<WirelessNetwork>,
}

/// A [`WifiScan`] as contracts see it.
pub struct ScanModel {
    pub interface: Seq<char>,
    pub networks: Seq<NetworkModel>,
}

impl View for WifiScan {
    type V = ScanModel;

    open spec fn view(&self) -> ScanModel {
        ScanModel {
            interface: self.interface@,
            networks: self.networks@.map_values(|network: WirelessNetwork| network@),
        }
    }
}

} // verus!
