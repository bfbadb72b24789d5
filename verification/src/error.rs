//! The ways in which a scan can fail.

use vstd::prelude::*;

verus! {

/// Why a scan produced no result. Every stage of a scan has a failure of its
/// own, so that a caller can tell a missing interface from a busy driver from
/// a driver that returned garbage. None of them is retried by this library.
#[derive(Debug, Clone, Copy, PartialEq, Eq, Structural)]
pub enum ScanError {
    /// The control channel to the wireless subsystem could not be acquired.
    ChannelOpenError,
    /// The interface did not answer the capability query: it does not exist or
    /// has no wireless extensions.
    RangeUnavailable,
    /// The driver rejected the scan request or could not complete it.
    ScanRequestFailed,
    /// The result chain went on past the largest number of records that a
    /// driver is trusted to return.
    MalformedResultChain,
}

/// What an error says of itself.
pub open spec fn error_message(error: ScanError) -> Seq<char> {
    match error {
        ScanError::ChannelOpenError => "could not open a channel to the wireless subsystem"@,
        ScanError::RangeUnavailable => "the interface did not answer the range query"@,
        ScanError::ScanRequestFailed => "the driver did not complete the scan request"@,
        ScanError::MalformedResultChain => "the driver returned a malformed result chain"@,
    }
}

impl ScanError {
    /// A sentence that says what went wrong.
    pub fn message(&self) -> (message: &'static str)
        ensures
            message@ == error_message(*self),
    {
        match self {
            ScanError::ChannelOpenError => "could not open a channel to the wireless subsystem",
            ScanError::RangeUnavailable => "the interface did not answer the range query",
            ScanError::ScanRequestFailed => "the driver did not complete the scan request",
            ScanError::MalformedResultChain => "the driver returned a malformed result chain",
        }
    }
}

} // verus!
