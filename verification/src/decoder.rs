//! Turns the chain of raw records that a scan returned into the list of
//! networks. The chain is read once, front to back, and nothing of it is kept.

use crate::codec::{
    bitrate_of, decode_bitrate, decode_encryption, decode_essid, decode_frequency, decode_mode,
    decode_quality, encryption_of, essid_of, frequency_of, mode_of, quality_of,
};
use crate::error::ScanError;
use crate::network::{NetworkModel, ScanModel, WifiScan, WirelessNetwork};
use crate::wire::{chain_nodes, flag_set, is_present, RawScanNode};
use vstd::prelude::*;

verus! {

/// The largest number of records that a chain may hold. A driver is no
/// trusted peer: a chain that goes on past this many records is taken to be
/// damaged.
pub const MAX_CHAIN_NODES: usize = 4096;

/// The network that a raw record describes. The address of the access point
/// is never decoded.
pub open spec fn network_of(node: RawScanNode) -> NetworkModel {
    NetworkModel {
        ap_addr4: Option::None,
        ap_addr6: Option::None,
        quality: quality_of(node.stats, flag_set(node.has_stats)),
        maxbitrate: bitrate_of(node.maxbitrate, flag_set(node.has_maxbitrate)),
        freq_bits: frequency_of(node.b.freq_bits, flag_set(node.b.has_freq)),
        essid: essid_of(node.b.essid@, flag_set(node.b.has_essid)),
        mode: mode_of(node.b.mode, flag_set(node.b.has_mode)),
        encryption: encryption_of(node.b.key.flags),
    }
}

/// The networks that a chain describes, in the order of its records.
pub open spec fn networks_of(head: Option<Box<RawScanNode>>) -> Seq<NetworkModel> {
    chain_nodes(head).map_values(|node: RawScanNode| network_of(node))
}

/// What decoding a chain gives: the scan, unless the chain is longer than
/// [`MAX_CHAIN_NODES`].
pub open spec fn scan_of(head: Option<Box<RawScanNode>>, interface: Seq<char>) -> Result<
    ScanModel,
    ScanError,
> {
    if chain_nodes(head).len() <= MAX_CHAIN_NODES {
        Result::Ok(ScanModel { interface, networks: networks_of(head) })
    } else {
        Result::Err(ScanError::MalformedResultChain)
    }
}

/// The outcome of a scan as contracts see it.
pub open spec fn outcome_view(outcome: Result<WifiScan, ScanError>) -> Result<
    ScanModel,
    ScanError,
> {
    match outcome {
        Result::Ok(scan) => Result::Ok(scan@),
        Result::Err(error) => Result::Err(error),
    }
}

/// Whether two records agree in everything but their successors.
pub open spec fn same_record(a: RawScanNode, b: RawScanNode) -> bool {
    a == (RawScanNode { next: a.next, ..b })
}

/// Links records into a chain, in their order: the first record becomes the
/// head and the last one the end. What the records held as their successors
/// is dropped; nothing else of them is changed.
pub fn link_chain(nodes: Vec<RawScanNode>) -> (head: Option<Box<RawScanNode>>)
    ensures
        chain_nodes(head).len() == nodes@.len(),
        forall|i: int|
            0 <= i < nodes@.len() ==> same_record(#[trigger] chain_nodes(head)[i], nodes@[i]),
        networks_of(head) == nodes@.map_values(|node: RawScanNode| network_of(node)),
{
    let ghost given = nodes@;
    let mut nodes = nodes;
    let mut head: Option<Box<RawScanNode>> = None;
    while nodes.len() > 0
        invariant
            given.len() == nodes@.len() + chain_nodes(head).len(),
            forall|i: int| 0 <= i < nodes@.len() ==> #[trigger] nodes@[i] == given[i],
            forall|j: int|
                0 <= j < chain_nodes(head).len() ==> same_record(
                    #[trigger] chain_nodes(head)[j],
                    given[nodes@.len() + j],
                ),
        decreases nodes@.len(),
    {
        let ghost linked = chain_nodes(head);
        let mut node = nodes.pop().unwrap();
        node.next = head;
        head = Some(Box::new(node));
        proof {
            assert(chain_nodes(head) =~= seq![node] + linked);
            assert forall|j: int| 0 <= j < chain_nodes(head).len() implies same_record(
                #[trigger] chain_nodes(head)[j],
                given[nodes@.len() + j],
            ) by {
                if j > 0 {
                    assert(chain_nodes(head)[j] == linked[j - 1]);
                }
            }
        }
    }
    proof {
        let wanted = given.map_values(|node: RawScanNode| network_of(node));
        assert forall|i: int| 0 <= i < given.len() implies #[trigger] networks_of(head)[i]
            == wanted[i] by {
            assert(same_record(chain_nodes(head)[i], given[i]));
        }
        assert(networks_of(head) =~= wanted);
    }
    head
}

/// Decodes one raw record, reading only its own fields.
pub fn decode_node(node: &RawScanNode) -> (network: WirelessNetwork)
    ensures
        network@ == network_of(*node),
{
    WirelessNetwork {
        ap_addr4: None,
        ap_addr6: None,
        quality: decode_quality(&node.stats, is_present(node.has_stats)),
        maxbitrate: decode_bitrate(&node.maxbitrate, is_present(node.has_maxbitrate)),
        freq_bits: decode_frequency(node.b.freq_bits, is_present(node.b.has_freq)),
        essid: decode_essid(&node.b.essid, is_present(node.b.has_essid)),
        mode: decode_mode(node.b.mode, is_present(node.b.has_mode)),
        encryption: decode_encryption(node.b.key.flags),
    }
}

/// Walks the chain from `chain_head` to its end and decodes every record,
/// keeping the driver's order. A chain of more than [`MAX_CHAIN_NODES`]
/// records is refused as malformed.
pub fn decode(chain_head: &Option<Box<RawScanNode>>, interface_name: &str) -> (outcome: Result<
    WifiScan,
    ScanError,
>)
    ensures
        outcome_view(outcome) == scan_of(*chain_head, interface_name@),
        outcome is Ok <==> chain_nodes(*chain_head).len() <= MAX_CHAIN_NODES,
        outcome matches Result::Ok(scan) ==> {
            &&& scan.interface@ == interface_name@
            &&& scan.networks@.len() == chain_nodes(*chain_head).len()
            &&& forall|i: int|
                0 <= i < scan.networks@.len() ==> (#[trigger] scan.networks@[i])@ == network_of(
                    chain_nodes(*chain_head)[i],
                )
        },
        outcome matches Result::Err(error) ==> error == ScanError::MalformedResultChain,
{
    let ghost all = chain_nodes(*chain_head);
    let mut networks: Vec<WirelessNetwork> = Vec::new();
    let mut cursor: &Option<Box<RawScanNode>> = chain_head;
    loop
        invariant
            all == chain_nodes(*chain_head),
            networks@.len() <= MAX_CHAIN_NODES,
            networks@.len() + chain_nodes(*cursor).len() == all.len(),
            forall|i: int|
                0 <= i < networks@.len() ==> (#[trigger] networks@[i])@ == network_of(all[i]),
            forall|j: int|
                0 <= j < chain_nodes(*cursor).len() ==> #[trigger] chain_nodes(*cursor)[j]
                    == all[networks@.len() + j],
        decreases chain_nodes(*cursor).len(),
    {
        match cursor {
            None => {
                let scan = WifiScan { interface: interface_name.to_owned(), networks };
                proof {
                    assert(scan@.networks =~= networks_of(*chain_head));
                }
                return Ok(scan);
            },
            Some(node) => {
                if networks.len() >= MAX_CHAIN_NODES {
                    return Err(ScanError::MalformedResultChain);
                }
                proof {
                    let rest = chain_nodes(node.next);
                    assert(chain_nodes(*cursor) == seq![**node] + rest);
                    assert(chain_nodes(*cursor)[0] == **node);
                    assert forall|j: int| 0 <= j < rest.len() implies #[trigger] rest[j]
                        == all[networks@.len() + 1 + j] by {
                        assert(chain_nodes(*cursor)[j + 1] == rest[j]);
                    }
                }
                networks.push(decode_node(node));
                cursor = &node.next;
            },
        }
    }
}

} // verus!
