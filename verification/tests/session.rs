use dradis::{
    is_valid_interface_name, link_chain, DriverRange, DriverReply, DriverRequest, EncryptionClass,
    Progress, RawScanNode, ScanError, WifiScan,
};

/// A driver that answers from a script and counts what is asked of it.
struct ScriptedDriver {
    open_succeeds: bool,
    range: Option<DriverRange>,
    chain: Option<Vec<RawScanNode>>,
    opened: u32,
    closed: u32,
    range_queries: Vec<String>,
    scans: Vec<(String, u8)>,
}

impl ScriptedDriver {
    fn returning(chain: Vec<RawScanNode>) -> ScriptedDriver {
        ScriptedDriver {
            open_succeeds: true,
            range: Some(DriverRange { we_version_compiled: 22 }),
            chain: Some(chain),
            opened: 0,
            closed: 0,
            range_queries: Vec::new(),
            scans: Vec::new(),
        }
    }

    fn perform(&mut self, request: DriverRequest, interface: &str) -> DriverReply {
        match request {
            DriverRequest::OpenChannel => {
                if self.open_succeeds {
                    self.opened += 1;
                    DriverReply::ChannelOpened
                } else {
                    DriverReply::Failed
                }
            }
            DriverRequest::QueryRange => {
                self.range_queries.push(interface.to_string());
                match self.range {
                    Some(range) => DriverReply::RangeInfo(range),
                    None => DriverReply::Failed,
                }
            }
            DriverRequest::IssueScan { protocol_version } => {
                self.scans.push((interface.to_string(), protocol_version));
                match self.chain.take() {
                    Some(nodes) => DriverReply::ScanResult(link_chain(nodes)),
                    None => DriverReply::Failed,
                }
            }
        }
    }

    fn close(&mut self) {
        self.closed += 1;
    }
}

fn run_scan(driver: &mut ScriptedDriver, interface: &str) -> Result<WifiScan, ScanError> {
    assert!(is_valid_interface_name(interface));
    let mut session = WifiScan::scan(interface.to_string());
    loop {
        let reply = driver.perform(session.request(), session.interface());
        match session.advance(reply) {
            Progress::Pending(next) => session = next,
            Progress::Finished { release_channel, outcome } => {
                if release_channel {
                    driver.close();
                }
                return outcome;
            }
        }
    }
}

fn scan_node(essid: &[u8], has_essid: bool, key_flags: i32) -> RawScanNode {
    let mut node = RawScanNode::default();
    node.b.essid[..essid.len()].copy_from_slice(essid);
    node.b.has_essid = if has_essid { 1 } else { 0 };
    node.b.key.flags = key_flags;
    node
}

#[test]
fn two_node_scan_decodes_end_to_end() {
    let node_a = scan_node(b"Home\0", true, 0x2);
    let node_b = scan_node(b"", false, 0x1);
    let mut driver = ScriptedDriver::returning(vec![node_a, node_b]);
    let scan = run_scan(&mut driver, "wlan0").unwrap();
    assert_eq!(scan.interface, "wlan0");
    assert_eq!(scan.networks.len(), 2);
    assert_eq!(scan.networks[0].essid, Some("Home".to_string()));
    assert_eq!(scan.networks[0].encryption, EncryptionClass::WPA);
    assert_eq!(scan.networks[1].essid, None);
    assert_eq!(scan.networks[1].encryption, EncryptionClass::Open);
}

#[test]
fn successful_session_releases_the_channel_once() {
    let mut driver = ScriptedDriver::returning(vec![scan_node(b"Home\0", true, 0x2)]);
    assert!(run_scan(&mut driver, "wlan0").is_ok());
    assert_eq!(driver.opened, 1);
    assert_eq!(driver.closed, 1);
}

#[test]
fn session_failing_at_range_query_releases_the_channel_once() {
    let mut driver = ScriptedDriver::returning(Vec::new());
    driver.range = None;
    assert_eq!(run_scan(&mut driver, "wlan0"), Err(ScanError::RangeUnavailable));
    assert_eq!(driver.opened, 1);
    assert_eq!(driver.closed, 1);
    assert!(driver.scans.is_empty());
}

#[test]
fn session_failing_at_scan_request_releases_the_channel_once() {
    let mut driver = ScriptedDriver::returning(Vec::new());
    driver.chain = None;
    assert_eq!(run_scan(&mut driver, "wlan0"), Err(ScanError::ScanRequestFailed));
    assert_eq!(driver.opened, 1);
    assert_eq!(driver.closed, 1);
}

#[test]
fn session_failing_to_open_releases_nothing() {
    let mut driver = ScriptedDriver::returning(Vec::new());
    driver.open_succeeds = false;
    assert_eq!(run_scan(&mut driver, "wlan0"), Err(ScanError::ChannelOpenError));
    assert_eq!(driver.opened, 0);
    assert_eq!(driver.closed, 0);
    assert!(driver.range_queries.is_empty());
    assert!(driver.scans.is_empty());
}

#[test]
fn session_with_malformed_chain_still_releases_the_channel_once() {
    let nodes = (0..4097).map(|_| RawScanNode::default()).collect();
    let mut driver = ScriptedDriver::returning(nodes);
    assert_eq!(run_scan(&mut driver, "wlan0"), Err(ScanError::MalformedResultChain));
    assert_eq!(driver.opened, 1);
    assert_eq!(driver.closed, 1);
}

#[test]
fn empty_chain_is_a_successful_scan() {
    let mut driver = ScriptedDriver::returning(Vec::new());
    let scan = run_scan(&mut driver, "wlan0").unwrap();
    assert!(scan.networks.is_empty());
    assert_eq!(driver.closed, 1);
}

#[test]
fn scan_is_issued_with_the_version_the_range_reported() {
    let mut driver = ScriptedDriver::returning(Vec::new());
    driver.range = Some(DriverRange { we_version_compiled: 21 });
    run_scan(&mut driver, "wlp3s0").unwrap();
    assert_eq!(driver.range_queries, vec!["wlp3s0".to_string()]);
    assert_eq!(driver.scans, vec![("wlp3s0".to_string(), 21)]);
}

#[test]
fn session_asks_for_one_thing_after_another() {
    let session = WifiScan::scan("wlan0".to_string());
    assert_eq!(session.request(), DriverRequest::OpenChannel);
    assert_eq!(session.interface(), "wlan0");

    let session = match session.advance(DriverReply::ChannelOpened) {
        Progress::Pending(next) => next,
        Progress::Finished { .. } => panic!("finished after the channel was opened"),
    };
    assert_eq!(session.request(), DriverRequest::QueryRange);

    let range = DriverRange { we_version_compiled: 255 };
    let session = match session.advance(DriverReply::RangeInfo(range)) {
        Progress::Pending(next) => next,
        Progress::Finished { .. } => panic!("finished after the range was reported"),
    };
    assert_eq!(session.request(), DriverRequest::IssueScan { protocol_version: 255 });
    assert_eq!(session.interface(), "wlan0");

    match session.advance(DriverReply::ScanResult(None)) {
        Progress::Finished { release_channel, outcome } => {
            assert!(release_channel);
            assert_eq!(outcome.unwrap().networks.len(), 0);
        }
        Progress::Pending(_) => panic!("pending after the scan returned"),
    }
}

#[test]
fn reply_that_does_not_answer_the_request_fails_the_stage() {
    let opening = WifiScan::scan("wlan0".to_string());
    let range = DriverRange { we_version_compiled: 22 };
    match opening.advance(DriverReply::RangeInfo(range)) {
        Progress::Finished { release_channel, outcome } => {
            assert!(!release_channel);
            assert_eq!(outcome, Err(ScanError::ChannelOpenError));
        }
        Progress::Pending(_) => panic!("went on without a channel"),
    }

    let querying = match WifiScan::scan("wlan0".to_string()).advance(DriverReply::ChannelOpened)
    {
        Progress::Pending(next) => next,
        Progress::Finished { .. } => panic!("finished after the channel was opened"),
    };
    match querying.advance(DriverReply::ScanResult(None)) {
        Progress::Finished { release_channel, outcome } => {
            assert!(release_channel);
            assert_eq!(outcome, Err(ScanError::RangeUnavailable));
        }
        Progress::Pending(_) => panic!("went on without a range"),
    }
}

#[test]
fn every_error_has_a_message_of_its_own() {
    let messages = [
        ScanError::ChannelOpenError.message(),
        ScanError::RangeUnavailable.message(),
        ScanError::ScanRequestFailed.message(),
        ScanError::MalformedResultChain.message(),
    ];
    assert_eq!(messages[0], "could not open a channel to the wireless subsystem");
    assert_eq!(messages[1], "the interface did not answer the range query");
    assert_eq!(messages[2], "the driver did not complete the scan request");
    assert_eq!(messages[3], "the driver returned a malformed result chain");
}

#[test]
fn interface_names_of_up_to_sixteen_bytes_are_valid() {
    assert!(is_valid_interface_name("wlan0"));
    assert!(is_valid_interface_name(""));
    assert!(is_valid_interface_name("abcdefghijklmnop"));
    assert!(is_valid_interface_name("w\u{e9}lan"));
}

#[test]
fn interface_names_that_are_too_long_or_hold_a_zero_are_not_valid() {
    assert!(!is_valid_interface_name("abcdefghijklmnopq"));
    assert!(!is_valid_interface_name("wlan\0"));
    assert!(!is_valid_interface_name("\0"));
    assert!(!is_valid_interface_name("\u{e9}\u{e9}\u{e9}\u{e9}\u{e9}\u{e9}\u{e9}\u{e9}a"));
}
