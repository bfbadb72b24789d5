use dradis::{
    decode, decode_node, link_chain, EncryptionClass, IwParam, IwQuality, IwStats, RawScanNode,
    ScanError, WirelessMode, WirelessNetwork, MAX_CHAIN_NODES,
};

fn numbered_node(number: usize) -> RawScanNode {
    let mut node = RawScanNode::default();
    let name = format!("net-{}", number);
    node.b.essid[..name.len()].copy_from_slice(name.as_bytes());
    node.b.has_essid = 1;
    node.b.key.flags = 0x4;
    node.maxbitrate.value = number as i32;
    node.has_maxbitrate = 1;
    node
}

fn numbered_chain(count: usize) -> Option<Box<RawScanNode>> {
    link_chain((0..count).map(numbered_node).collect())
}

fn assert_numbered(networks: &[WirelessNetwork], count: usize) {
    assert_eq!(networks.len(), count);
    for (number, network) in networks.iter().enumerate() {
        assert_eq!(network.essid, Some(format!("net-{}", number)));
        assert_eq!(network.maxbitrate, Some(number as i32));
        assert_eq!(network.encryption, EncryptionClass::WPA2);
    }
}

#[test]
fn empty_chain_decodes_to_no_networks() {
    let scan = decode(&None, "wlan0").unwrap();
    assert_eq!(scan.interface, "wlan0");
    assert!(scan.networks.is_empty());
}

#[test]
fn chain_of_one_node_decodes_to_one_network() {
    let scan = decode(&numbered_chain(1), "wlan0").unwrap();
    assert_numbered(&scan.networks, 1);
}

#[test]
fn chain_of_fifty_nodes_decodes_to_fifty_networks_in_order() {
    let scan = decode(&numbered_chain(50), "wlan0").unwrap();
    assert_numbered(&scan.networks, 50);
}

#[test]
fn hand_linked_chain_keeps_the_order_of_its_links() {
    let mut first = numbered_node(7);
    let mut second = numbered_node(3);
    let third = numbered_node(5);
    second.next = Some(Box::new(third));
    first.next = Some(Box::new(second));
    let scan = decode(&Some(Box::new(first)), "wlp2s0").unwrap();
    let rates: Vec<Option<i32>> = scan.networks.iter().map(|n| n.maxbitrate).collect();
    assert_eq!(rates, vec![Some(7), Some(3), Some(5)]);
    assert_eq!(scan.interface, "wlp2s0");
}

#[test]
fn chain_at_the_bound_is_decoded() {
    assert_eq!(MAX_CHAIN_NODES, 4096);
    let scan = decode(&numbered_chain(MAX_CHAIN_NODES), "wlan0").unwrap();
    assert_numbered(&scan.networks, 4096);
}

#[test]
fn chain_past_the_bound_is_malformed() {
    let outcome = decode(&numbered_chain(MAX_CHAIN_NODES + 1), "wlan0");
    assert_eq!(outcome, Err(ScanError::MalformedResultChain));
    let outcome = decode(&numbered_chain(10_000), "wlan0");
    assert_eq!(outcome, Err(ScanError::MalformedResultChain));
}

#[test]
fn link_chain_drops_old_successors() {
    let mut stray = numbered_node(1);
    stray.next = Some(Box::new(numbered_node(99)));
    let chain = link_chain(vec![numbered_node(0), stray, numbered_node(2)]);
    let scan = decode(&chain, "wlan0").unwrap();
    assert_numbered(&scan.networks, 3);
}

#[test]
fn link_chain_of_nothing_is_the_empty_chain() {
    assert!(link_chain(Vec::new()).is_none());
}

#[test]
fn zeroed_node_decodes_to_a_network_with_nothing_present() {
    let network = decode_node(&RawScanNode::default());
    assert_eq!(
        network,
        WirelessNetwork {
            ap_addr4: None,
            ap_addr6: None,
            quality: None,
            maxbitrate: None,
            freq_bits: None,
            essid: None,
            mode: None,
            encryption: EncryptionClass::Unknown,
        }
    );
}

#[test]
fn node_with_every_field_present_decodes_every_field() {
    let mut node = RawScanNode::default();
    node.has_ap_addr = 1;
    node.b.essid[..5].copy_from_slice(b"Attic");
    node.b.has_essid = 1;
    node.b.key.flags = 0x2;
    node.b.freq_bits = 5.18f64.to_bits();
    node.b.has_freq = 1;
    node.b.mode = 3;
    node.b.has_mode = 1;
    node.stats = IwStats { status: 1, quality: IwQuality { quality: 61, level: 190, noise: 161 } };
    node.has_stats = 1;
    node.maxbitrate = IwParam { value: 144_400_000, fixed: 0, disabled: 0, flags: 0 };
    node.has_maxbitrate = 1;
    let network = decode_node(&node);
    assert_eq!(
        network,
        WirelessNetwork {
            ap_addr4: None,
            ap_addr6: None,
            quality: Some(IwQuality { quality: 61, level: 190, noise: 161 }),
            maxbitrate: Some(144_400_000),
            freq_bits: Some(5.18f64.to_bits()),
            essid: Some("Attic".to_string()),
            mode: Some(WirelessMode::Master),
            encryption: EncryptionClass::WPA,
        }
    );
}

#[test]
fn values_without_presence_flag_are_absent_whatever_they_hold() {
    let mut node = RawScanNode::default();
    node.b.essid = [0x41; 34];
    node.b.freq_bits = 2.4f64.to_bits();
    node.b.mode = 2;
    node.stats = IwStats { status: 1, quality: IwQuality { quality: 1, level: 2, noise: 3 } };
    node.maxbitrate.value = 11_000_000;
    let network = decode_node(&node);
    assert_eq!(network.essid, None);
    assert_eq!(network.freq_bits, None);
    assert_eq!(network.mode, None);
    assert_eq!(network.quality, None);
    assert_eq!(network.maxbitrate, None);
}

#[test]
fn presence_flag_is_set_only_at_one() {
    let mut node = RawScanNode::default();
    node.b.essid[..2].copy_from_slice(b"AB");
    node.b.has_essid = 2;
    assert_eq!(decode_node(&node).essid, None);
    node.b.has_essid = -1;
    assert_eq!(decode_node(&node).essid, None);
    node.b.has_essid = 1;
    assert_eq!(decode_node(&node).essid, Some("AB".to_string()));
}
