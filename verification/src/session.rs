//! One scan, as the sequence of things to ask of the driver.
//!
//! A session never talks to the driver. It names the next request, the
//! caller performs it and hands back what the driver said, and the session
//! decides what follows: the next request, or the end of the scan together
//! with the word on whether the channel has to be released. The order is
//! fixed: open the channel, query the range for the protocol version, issue
//! the scan with that version, decode what came back. A stage that fails ends
//! the session at once; nothing is tried twice.

use crate::decoder::{decode, outcome_view, scan_of};
use crate::error::ScanError;
use crate::network::{ScanModel, WifiScan};
use crate::wire::{DriverRange, RawScanNode, IFNAMSIZ};
use vstd::prelude::*;
use vstd::string::StringSliceAdditionalSpecFns;

verus! {

/// What the caller has to ask of the driver. A session is in one of three
/// stages, each named by the request whose reply it waits for.
#[derive(Debug, Clone, Copy, PartialEq, Eq, Structural)]
pub enum DriverRequest {
    /// Open a control channel. No channel is open yet.
    OpenChannel,
    /// Query the range of the session's interface on the open channel.
    QueryRange,
    /// Scan the session's interface on the open channel.
    IssueScan {
        /// Protocol version to pass to the driver.
        protocol_version: u8,
    },
}

/// What the driver said to a request.
#[derive(Debug)]
pub enum DriverReply {
    /// The channel is open.
    ChannelOpened,
    /// The range of the interface.
    RangeInfo(DriverRange),
    /// The scan is done; this is the head of its result chain, `None` for an
    /// empty chain.
    ScanResult(Option<Box<RawScanNode>>),
    /// The request failed.
    Failed,
}

/// A scan in progress.
#[derive(Debug)]
pub struct ScanSession {
    interface: String,
    pending: DriverRequest,
}

/// A [`ScanSession`] as contracts see it.
pub struct SessionModel {
    pub interface: Seq<char>,
    pub pending: DriverRequest,
}

impl View for ScanSession {
    type V = SessionModel;

    closed spec fn view(&self) -> SessionModel {
        SessionModel { interface: self.interface@, pending: self.pending }
    }
}

/// Where a session stands after a reply.
#[derive(Debug)]
pub enum Progress {
    /// The session goes on: perform its next request.
    Pending(ScanSession),
    /// The session is over.
    Finished {
        /// Whether a channel is open and has to be released now, before the
        /// outcome is handed on.
        release_channel: bool,
        /// The result of the scan.
        outcome: Result<WifiScan, ScanError>,
    },
}

/// A [`Progress`] as contracts see it.
pub enum ProgressModel {
    Pending(SessionModel),
    Finished { release_channel: bool, outcome: Result<ScanModel, ScanError> },
}

impl View for Progress {
    type V = ProgressModel;

    open spec fn view(&self) -> ProgressModel {
        match *self {
            Progress::Pending(session) => ProgressModel::Pending(session@),
            Progress::Finished { release_channel, outcome } => ProgressModel::Finished {
                release_channel,
                outcome: outcome_view(outcome),
            },
        }
    }
}

/// Whether `name` can name an interface to the driver: at most
/// [`IFNAMSIZ`] bytes, none of them zero.
pub open spec fn valid_interface_name(name: Seq<char>) -> bool {
    let bytes = vstd::utf8::encode_utf8(name);
    &&& bytes.len() <= IFNAMSIZ
    &&& forall|i: int| 0 <= i < bytes.len() ==> bytes[i] != 0
}

/// Tests whether `name` can name an interface to the driver.
pub fn is_valid_interface_name(name: &str) -> (valid: bool)
    ensures
        valid == valid_interface_name(name@),
{
    let bytes = name.as_bytes();
    if bytes.len() > IFNAMSIZ {
        return false;
    }
    let mut i: usize = 0;
    while i < bytes.len()
        invariant
            i <= bytes@.len(),
            bytes@ == name.spec_bytes(),
            forall|j: int| 0 <= j < i ==> bytes@[j] != 0,
        decreases bytes@.len() - i,
    {
        if bytes[i] == 0 {
            return false;
        }
        i += 1;
    }
    true
}

/// A session that has not heard from the driver yet.
pub open spec fn initial(interface: Seq<char>) -> SessionModel {
    SessionModel { interface, pending: DriverRequest::OpenChannel }
}

/// What a reply does to a session. Each stage goes on with one reply only,
/// the one that answers its request with success; any other reply is the
/// failure of that stage. Once the channel is open, every way to finish
/// releases it.
pub open spec fn step(session: SessionModel, reply: DriverReply) -> ProgressModel {
    match session.pending {
        DriverRequest::OpenChannel => match reply {
            DriverReply::ChannelOpened => ProgressModel::Pending(
                SessionModel { interface: session.interface, pending: DriverRequest::QueryRange },
            ),
            _ => ProgressModel::Finished {
                release_channel: false,
                outcome: Result::Err(ScanError::ChannelOpenError),
            },
        },
        DriverRequest::QueryRange => match reply {
            DriverReply::RangeInfo(range) => ProgressModel::Pending(
                SessionModel {
                    interface: session.interface,
                    pending: DriverRequest::IssueScan {
                        protocol_version: range.we_version_compiled,
                    },
                },
            ),
            _ => ProgressModel::Finished {
                release_channel: true,
                outcome: Result::Err(ScanError::RangeUnavailable),
            },
        },
        DriverRequest::IssueScan { protocol_version } => match reply {
            DriverReply::ScanResult(chain) => ProgressModel::Finished {
                release_channel: true,
                outcome: scan_of(chain, session.interface),
            },
            _ => ProgressModel::Finished {
                release_channel: true,
                outcome: Result::Err(ScanError::ScanRequestFailed),
            },
        },
    }
}

/// Something that happens to the control channel in the course of a session.
pub enum ChannelEvent {
    /// The driver opened the channel.
    Opened,
    /// The session had the channel released.
    Released,
}

/// What one reply does to the channel: it is opened by the reply that lets
/// the session go on from [`DriverRequest::OpenChannel`], and released where
/// the session finishes and says so.
pub open spec fn step_events(session: SessionModel, reply: DriverReply) -> Seq<ChannelEvent> {
    match step(session, reply) {
        ProgressModel::Pending(_) => if session.pending is OpenChannel {
            seq![ChannelEvent::Opened]
        } else {
            Seq::empty()
        },
        ProgressModel::Finished { release_channel, outcome } => if release_channel {
            seq![ChannelEvent::Released]
        } else {
            Seq::empty()
        },
    }
}

/// Where a session stands after the driver's replies, taken one after
/// another. Replies that come after the session has finished are not looked
/// at.
pub open spec fn run(session: SessionModel, replies: Seq<DriverReply>) -> ProgressModel
    decreases replies.len(),
{
    if replies.len() == 0 {
        ProgressModel::Pending(session)
    } else {
        match step(session, replies[0]) {
            ProgressModel::Pending(next) => run(next, replies.drop_first()),
            finished => finished,
        }
    }
}

/// Everything that happens to the channel over a run, in order.
pub open spec fn run_events(session: SessionModel, replies: Seq<DriverReply>) -> Seq<
    ChannelEvent,
>
    decreases replies.len(),
{
    if replies.len() == 0 {
        Seq::empty()
    } else {
        match step(session, replies[0]) {
            ProgressModel::Pending(next) => step_events(session, replies[0]) + run_events(
                next,
                replies.drop_first(),
            ),
            _ => step_events(session, replies[0]),
        }
    }
}

/// A session is over after three replies at the latest, whatever they are.
pub proof fn lemma_session_finishes(interface: Seq<char>, replies: Seq<DriverReply>)
    requires
        replies.len() >= 3,
    ensures
        run(initial(interface), replies) is Finished,
{
    reveal_with_fuel(run, 4);
}

/// A session that has finished has released the channel exactly once if the
/// driver opened it, after it was opened, and not at all if the driver did
/// not: whether the scan succeeded, the range query failed or the scan
/// request failed.
pub proof fn lemma_channel_released_exactly_once(interface: Seq<char>, replies: Seq<DriverReply>)
    requires
        run(initial(interface), replies) is Finished,
    ensures
        replies.len() >= 1,
        replies[0] is ChannelOpened ==> run_events(initial(interface), replies) == seq![
            ChannelEvent::Opened,
            ChannelEvent::Released,
        ],
        !(replies[0] is ChannelOpened) ==> run_events(initial(interface), replies)
            == Seq::<ChannelEvent>::empty(),
{
    reveal_with_fuel(run, 4);
    reveal_with_fuel(run_events, 4);
    let events = run_events(initial(interface), replies);
    if replies[0] is ChannelOpened {
        assert(events =~= seq![ChannelEvent::Opened, ChannelEvent::Released]);
    }
}

/// What a scan of `interface` comes to when the driver answers with
/// `replies`.
pub open spec fn session_outcome(interface: Seq<char>, replies: Seq<DriverReply>) -> Result<
    ScanModel,
    ScanError,
> {
    if !(replies.len() >= 1 && replies[0] is ChannelOpened) {
        Result::Err(ScanError::ChannelOpenError)
    } else if !(replies.len() >= 2 && replies[1] is RangeInfo) {
        Result::Err(ScanError::RangeUnavailable)
    } else if !(replies.len() >= 3 && replies[2] is ScanResult) {
        Result::Err(ScanError::ScanRequestFailed)
    } else {
        scan_of(replies[2]->ScanResult_0, interface)
    }
}

/// The outcome of a finished session is decided by the first stage that
/// failed, and is the decoded chain where none did.
pub proof fn lemma_session_outcome(interface: Seq<char>, replies: Seq<DriverReply>)
    requires
        run(initial(interface), replies) is Finished,
    ensures
        run(initial(interface), replies)->outcome == session_outcome(interface, replies),
{
    reveal_with_fuel(run, 4);
}

impl WifiScan {
    /// Begins a scan of the wireless networks visible on `interface`. The
    /// session that comes back waits for the channel to be opened.
    pub fn scan(interface: String) -> (session: ScanSession)
        requires
            valid_interface_name(interface@),
        ensures
            session@ == initial(interface@),
    {
        ScanSession { interface, pending: DriverRequest::OpenChannel }
    }
}

impl ScanSession {
    /// Name of the interface under scan, to be handed to the driver with
    /// every request that takes one.
    pub fn interface(&self) -> (name: &str)
        ensures
            name@ == self@.interface,
    {
        self.interface.as_str()
    }

    /// The request to perform next.
    pub fn request(&self) -> (request: DriverRequest)
        ensures
            request == self@.pending,
    {
        self.pending
    }

    /// Takes the driver's reply to the pending request and says how the
    /// session goes on.
    pub fn advance(self, reply: DriverReply) -> (progress: Progress)
        ensures
            progress@ == step(self@, reply),
    {
        match self.pending {
            DriverRequest::OpenChannel => match reply {
                DriverReply::ChannelOpened => Progress::Pending(
                    ScanSession { interface: self.interface, pending: DriverRequest::QueryRange },
                ),
                _ => Progress::Finished {
                    release_channel: false,
                    outcome: Err(ScanError::ChannelOpenError),
                },
            },
            DriverRequest::QueryRange => match reply {
                DriverReply::RangeInfo(range) => Progress::Pending(
                    ScanSession {
                        interface: self.interface,
                        pending: DriverRequest::IssueScan {
                            protocol_version: range.we_version_compiled,
                        },
                    },
                ),
                _ => Progress::Finished {
                    release_channel: true,
                    outcome: Err(ScanError::RangeUnavailable),
                },
            },
            DriverRequest::IssueScan { protocol_version: _ } => match reply {
                DriverReply::ScanResult(chain) => {
                    let outcome = decode(&chain, self.interface.as_str());
                    Progress::Finished { release_channel: true, outcome }
                },
                _ => Progress::Finished {
                    release_channel: true,
                    outcome: Err(ScanError::ScanRequestFailed),
                },
            },
        }
    }
}

} // verus!
