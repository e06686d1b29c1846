//! Routing seeds: the well-known peers that a fresh node learns about before
//! it asks the network for anything.
//!
//! Each peer is written as a multiaddress that ends in the peer's identifier.
//! An address that cannot be read, or that names no peer, is skipped: a bad
//! entry in the list never keeps the node from starting.

use crate::bytes::{copy_bytes, option_bytes};
use vstd::prelude::*;
use vstd::string::*;

verus! {

/// The binary encoding of the multiaddress written as `text`, or `None` when
/// `text` is not a multiaddress.
///
/// The parsing is done by the `multiaddr` crate; this names its outcome.
pub uninterp spec fn multiaddr_encoding(text: Seq<char>) -> Option<Seq<u8>>;

/// What reading one protocol from the front of an encoded multiaddress
/// yields: the identifier of the peer, if the protocol names one, and the
/// bytes that follow the protocol; or `None` when no protocol can be read.
///
/// The reading is done by the `multiaddr` crate; this names its outcome.
pub uninterp spec fn protocol_reading(input: Seq<u8>) -> Option<(Option<Seq<u8>>, Seq<u8>)>;

/// The error of the `multiaddr` crate. Nothing is known of it here; it is
/// only told apart from success.
#[verifier::external_type_specification]
#[verifier::external_body]
pub struct ExMultiaddrError(libp2p::multiaddr::Error);

/// Parses `text` with `Multiaddr::from_str` and hands out the encoding that
/// `Multiaddr::to_vec` returns. The contract claims only that the outcome is
/// the one named by [`multiaddr_encoding`].
#[verifier::external_body]
fn encode_address(text: &str) -> (r: Result<Vec<u8>, libp2p::multiaddr::Error>)
    ensures
        match r {
            Ok(bytes) => multiaddr_encoding(text@) == Some(bytes@),
            Err(_) => multiaddr_encoding(text@) is None,
        },
{
    let address: libp2p::Multiaddr = text.parse()?;
    Ok(address.to_vec())
}

/// Reads one protocol from the front of `input` with `Protocol::from_bytes`.
/// For a `P2p` protocol the peer's identifier is handed out as the bytes that
/// `PeerId::to_bytes` returns. The contract claims that the outcome is the
/// one named by [`protocol_reading`], and that what is left is shorter than
/// `input`: a protocol starts with its code, which takes at least one byte.
#[verifier::external_body]
fn read_protocol(input: &Vec<u8>) -> (r: Result<
    (Option<Vec<u8>>, Vec<u8>),
    libp2p::multiaddr::Error,
>)
    ensures
        match r {
            Ok(parts) => protocol_reading(input@) == Some((option_bytes(parts.0), parts.1@))
                && parts.1@.len() < input@.len(),
            Err(_) => protocol_reading(input@) is None,
        },
{
    let (protocol, rest) = libp2p::multiaddr::Protocol::from_bytes(input.as_slice())?;
    let peer = match protocol {
        libp2p::multiaddr::Protocol::P2p(peer) => Some(peer.to_bytes()),
        _ => None,
    };
    Ok((peer, rest.to_vec()))
}

/// The views of a list of protocols: for each protocol, the identifier of
/// the peer it names, if it names one.
pub open spec fn view_protocols(protocols: Seq<Option<Vec<u8>>>) -> Seq<Option<Seq<u8>>> {
    protocols.map_values(|p: Option<Vec<u8>>| option_bytes(p))
}

/// The protocols of an encoded multiaddress, read one by one from the front
/// for as long as the encoding can be read.
pub open spec fn readable_protocols(encoded: Seq<u8>) -> Seq<Option<Seq<u8>>>
    decreases encoded.len(),
{
    if encoded.len() == 0 {
        Seq::empty()
    } else {
        match protocol_reading(encoded) {
            None => Seq::empty(),
            Some((peer, rest)) => {
                if rest.len() < encoded.len() {
                    seq![peer] + readable_protocols(rest)
                } else {
                    Seq::empty()
                }
            },
        }
    }
}

/// The identifier of the first peer that `protocols` name, if any.
pub open spec fn first_named(protocols: Seq<Option<Seq<u8>>>) -> Option<Seq<u8>>
    decreases protocols.len(),
{
    if protocols.len() == 0 {
        None
    } else if protocols[0] is Some {
        protocols[0]
    } else {
        first_named(protocols.drop_first())
    }
}

/// The identifier of the first peer named in an encoded multiaddress. There
/// is none when the encoding ends, or stops being readable, before a peer is
/// named.
pub open spec fn first_peer(encoded: Seq<u8>) -> Option<Seq<u8>> {
    first_named(readable_protocols(encoded))
}

/// Reads the protocols of an encoded multiaddress.
pub fn read_protocols(encoded: &Vec<u8>) -> (protocols: Vec<Option<Vec<u8>>>)
    ensures
        view_protocols(protocols@) == readable_protocols(encoded@),
{
    let mut protocols: Vec<Option<Vec<u8>>> = Vec::new();
    let mut rest = copy_bytes(encoded);
    assert(view_protocols(protocols@) + readable_protocols(rest@) =~= readable_protocols(
        encoded@,
    ));
    loop
        invariant
            view_protocols(protocols@) + readable_protocols(rest@) == readable_protocols(
                encoded@,
            ),
        ensures
            view_protocols(protocols@) == readable_protocols(encoded@),
        decreases rest@.len(),
    {
        if rest.len() == 0 {
            assert(view_protocols(protocols@) + Seq::<Option<Seq<u8>>>::empty()
                =~= view_protocols(protocols@));
            break;
        }
        match read_protocol(&rest) {
            Err(_) => {
                assert(view_protocols(protocols@) + Seq::<Option<Seq<u8>>>::empty()
                    =~= view_protocols(protocols@));
                break;
            },
            Ok(parts) => {
                let (peer, next) = parts;
                let ghost before = view_protocols(protocols@);
                protocols.push(peer);
                assert(view_protocols(protocols@) =~= before.push(option_bytes(peer)));
                assert(before.push(option_bytes(peer)) + readable_protocols(next@) =~= before
                    + (seq![option_bytes(peer)] + readable_protocols(next@)));
                rest = next;
            },
        }
    }
    protocols
}

/// Finds the identifier of the first peer that `protocols` name.
pub fn find_peer(protocols: &Vec<Option<Vec<u8>>>) -> (peer: Option<Vec<u8>>)
    ensures
        option_bytes(peer) == first_named(view_protocols(protocols@)),
{
    let mut i: usize = 0;
    assert(view_protocols(protocols@).skip(0) =~= view_protocols(protocols@));
    while i < protocols.len()
        invariant
            i <= protocols.len(),
            first_named(view_protocols(protocols@).skip(i as int)) == first_named(
                view_protocols(protocols@),
            ),
        decreases protocols.len() - i,
    {
        let ghost here = view_protocols(protocols@).skip(i as int);
        assert(here[0] == option_bytes(protocols@[i as int]));
        assert(here.drop_first() =~= view_protocols(protocols@).skip(i as int + 1));
        match &protocols[i] {
            Some(peer) => {
                return Some(copy_bytes(peer));
            },
            None => {},
        }
        i += 1;
    }
    None
}

/// Finds the identifier of the peer that an encoded multiaddress names.
pub fn extract_peer_id_from_multiaddr(encoded: &Vec<u8>) -> (peer: Option<Vec<u8>>)
    ensures
        option_bytes(peer) == first_peer(encoded@),
{
    let protocols = read_protocols(encoded);
    find_peer(&protocols)
}

/// The first named peer is named: it stands at some place of the list, and
/// no place before it names a peer. Where no peer is found, none is named.
pub proof fn lemma_first_named(protocols: Seq<Option<Seq<u8>>>)
    ensures
        match first_named(protocols) {
            Some(peer) => exists|i: int|
                0 <= i < protocols.len() && #[trigger] protocols[i] == Some(peer) && forall|j: int|
                    0 <= j < i ==> (#[trigger] protocols[j]) is None,
            None => forall|i: int| 0 <= i < protocols.len() ==> (#[trigger] protocols[i]) is None,
        },
    decreases protocols.len(),
{
    if protocols.len() > 0 {
        if protocols[0] is Some {
            assert(protocols[0] == Some(protocols[0]->0));
        } else {
            let rest = protocols.drop_first();
            lemma_first_named(rest);
            match first_named(rest) {
                Some(peer) => {
                    let i = choose|i: int|
                        0 <= i < rest.len() && #[trigger] rest[i] == Some(peer) && forall|j: int|
                            0 <= j < i ==> (#[trigger] rest[j]) is None;
                    assert(protocols[i + 1] == rest[i]);
                    assert forall|j: int| 0 <= j < i + 1 implies (#[trigger] protocols[j]) is None by {
                        if j > 0 {
                            assert(protocols[j] == rest[j - 1]);
                        }
                    }
                },
                None => {
                    assert forall|i: int| 0 <= i < protocols.len() implies
                        (#[trigger] protocols[i]) is None by {
                        if i > 0 {
                            assert(protocols[i] == rest[i - 1]);
                        }
                    }
                },
            }
        }
    }
}

/// A peer to seed the routing table with.
#[derive(Debug, PartialEq, Eq)]
pub struct BootstrapEntry {
    /// The address as it is written in the list.
    pub text: String,
    /// The address in its binary encoding.
    pub address: Vec<u8>,
    /// The identifier of the peer at that address.
    pub peer: Vec<u8>,
}

/// The mathematical content of a [`BootstrapEntry`].
pub struct BootstrapEntryView {
    pub text: Seq<char>,
    pub address: Seq<u8>,
    pub peer: Seq<u8>,
}

impl View for BootstrapEntry {
    type V = BootstrapEntryView;

    open spec fn view(&self) -> BootstrapEntryView {
        BootstrapEntryView { text: self.text@, address: self.address@, peer: self.peer@ }
    }
}

/// Why an address was left out of the routing seeds.
#[derive(Debug, Clone, Copy, PartialEq, Eq, Structural)]
pub enum SkipReason {
    /// The text is not a multiaddress.
    Malformed,
    /// The address names no peer.
    NoPeerId,
}

/// An address that was left out, and why.
#[derive(Debug, PartialEq, Eq)]
pub struct SkippedAddress {
    pub text: String,
    pub reason: SkipReason,
}

/// The mathematical content of a [`SkippedAddress`].
pub struct SkippedAddressView {
    pub text: Seq<char>,
    pub reason: SkipReason,
}

impl View for SkippedAddress {
    type V = SkippedAddressView;

    open spec fn view(&self) -> SkippedAddressView {
        SkippedAddressView { text: self.text@, reason: self.reason }
    }
}

/// What becomes of an address whose encoding and protocols are known: an
/// entry for the first peer it names, or a skip when it names none.
pub open spec fn entry_of(
    text: Seq<char>,
    address: Seq<u8>,
    protocols: Seq<Option<Seq<u8>>>,
) -> Result<BootstrapEntryView, SkippedAddressView> {
    match first_named(protocols) {
        None => Err(SkippedAddressView { text, reason: SkipReason::NoPeerId }),
        Some(peer) => Ok(BootstrapEntryView { text, address, peer }),
    }
}

/// What becomes of one address of the list.
pub open spec fn seed_of(text: Seq<char>) -> Result<BootstrapEntryView, SkippedAddressView> {
    match multiaddr_encoding(text) {
        None => Err(SkippedAddressView { text, reason: SkipReason::Malformed }),
        Some(address) => entry_of(text, address, readable_protocols(address)),
    }
}

/// The view of what became of an address.
pub open spec fn view_seed(r: Result<BootstrapEntry, SkippedAddress>) -> Result<
    BootstrapEntryView,
    SkippedAddressView,
> {
    match r {
        Ok(entry) => Ok(entry@),
        Err(skip) => Err(skip@),
    }
}

/// The entries that `addresses` give, in the order of the list.
pub open spec fn accepted(addresses: Seq<Seq<char>>) -> Seq<BootstrapEntryView>
    decreases addresses.len(),
{
    if addresses.len() == 0 {
        Seq::empty()
    } else {
        match seed_of(addresses.last()) {
            Ok(entry) => accepted(addresses.drop_last()).push(entry),
            Err(_) => accepted(addresses.drop_last()),
        }
    }
}

/// The addresses of `addresses` that are left out, in the order of the list.
pub open spec fn skipped(addresses: Seq<Seq<char>>) -> Seq<SkippedAddressView>
    decreases addresses.len(),
{
    if addresses.len() == 0 {
        Seq::empty()
    } else {
        match seed_of(addresses.last()) {
            Ok(_) => skipped(addresses.drop_last()),
            Err(skip) => skipped(addresses.drop_last()).push(skip),
        }
    }
}

/// The texts of a list of addresses.
pub open spec fn texts(addresses: Seq<String>) -> Seq<Seq<char>> {
    addresses.map_values(|a: String| a@)
}

/// The views of a list of entries.
pub open spec fn view_entries(entries: Seq<BootstrapEntry>) -> Seq<BootstrapEntryView> {
    entries.map_values(|e: BootstrapEntry| e@)
}

/// The views of a list of skipped addresses.
pub open spec fn view_skipped(skips: Seq<SkippedAddress>) -> Seq<SkippedAddressView> {
    skips.map_values(|s: SkippedAddress| s@)
}

/// Makes the entry for the address `text`, given its encoding and its
/// protocols.
pub fn entry_for(text: &str, address: Vec<u8>, protocols: &Vec<Option<Vec<u8>>>) -> (r: Result<
    BootstrapEntry,
    SkippedAddress,
>)
    ensures
        view_seed(r) == entry_of(text@, address@, view_protocols(protocols@)),
{
    match find_peer(protocols) {
        None => Err(SkippedAddress { text: String::from_str(text), reason: SkipReason::NoPeerId }),
        Some(peer) => Ok(BootstrapEntry { text: String::from_str(text), address, peer }),
    }
}

/// Reads one address of the list.
pub fn seed_entry(text: &str) -> (r: Result<BootstrapEntry, SkippedAddress>)
    ensures
        view_seed(r) == seed_of(text@),
{
    match encode_address(text) {
        Err(_) => Err(SkippedAddress { text: String::from_str(text), reason: SkipReason::Malformed }),
        Ok(address) => {
            let protocols = read_protocols(&address);
            entry_for(text, address, &protocols)
        },
    }
}

/// The well-known peers, written as multiaddresses: four that are found by
/// name and two that are found by number.
pub open spec fn well_known_peers() -> Seq<Seq<char>> {
    seq![
        "/dnsaddr/bootstrap.libp2p.io/p2p/QmNnooDu7bfjPFoTZYxMNLWUQJyrVwtbZg5gBMjTezGAJN"@,
        "/dnsaddr/bootstrap.libp2p.io/p2p/QmQCU2EcMqAqQPR2i9bChDtGNJchTbq5TbXJJ16u19uLTa"@,
        "/dnsaddr/bootstrap.libp2p.io/p2p/QmbLHAnMoJPWSCR5Zhtx6BHJX9KiKNN6tpvbUcqanj75Nb"@,
        "/dnsaddr/bootstrap.libp2p.io/p2p/QmcZf59bWwK5XFi76CZX8cbJ4BhTzzA3gU1ZjYZcYW3dwt"@,
        "/ip4/104.131.131.82/tcp/4001/p2p/QmaCpDMGvV2BGHeYERUEnRQAwe3N8SzbUtfsmvsqQLuvuJ"@,
        "/ip4/104.236.179.241/tcp/4001/p2p/QmSoLPppuBtQSGwKDZT2M73ULpjvfd3aZ6ha4oFGL1KrGM"@,
    ]
}

/// The list of well-known peers. It is the same on every run.
pub fn bootstrap_nodes() -> (list: Vec<String>)
    ensures
        texts(list@) == well_known_peers(),
{
    let mut list: Vec<String> = Vec::new();
    list.push(
        String::from_str(
            "/dnsaddr/bootstrap.libp2p.io/p2p/QmNnooDu7bfjPFoTZYxMNLWUQJyrVwtbZg5gBMjTezGAJN",
        ),
    );
    list.push(
        String::from_str(
            "/dnsaddr/bootstrap.libp2p.io/p2p/QmQCU2EcMqAqQPR2i9bChDtGNJchTbq5TbXJJ16u19uLTa",
        ),
    );
    list.push(
        String::from_str(
            "/dnsaddr/bootstrap.libp2p.io/p2p/QmbLHAnMoJPWSCR5Zhtx6BHJX9KiKNN6tpvbUcqanj75Nb",
        ),
    );
    list.push(
        String::from_str(
            "/dnsaddr/bootstrap.libp2p.io/p2p/QmcZf59bWwK5XFi76CZX8cbJ4BhTzzA3gU1ZjYZcYW3dwt",
        ),
    );
    list.push(
        String::from_str(
            "/ip4/104.131.131.82/tcp/4001/p2p/QmaCpDMGvV2BGHeYERUEnRQAwe3N8SzbUtfsmvsqQLuvuJ",
        ),
    );
    list.push(
        String::from_str(
            "/ip4/104.236.179.241/tcp/4001/p2p/QmSoLPppuBtQSGwKDZT2M73ULpjvfd3aZ6ha4oFGL1KrGM",
        ),
    );
    assert(texts(list@) =~= well_known_peers());
    list
}

/// Adds to `table` an entry for each of `addresses` that names a peer, in the
/// order of the list, and returns the addresses that were left out.
pub fn add_seeds(table: &mut Vec<BootstrapEntry>, addresses: &Vec<String>) -> (left_out: Vec<
    SkippedAddress,
>)
    ensures
        view_entries(final(table)@) == view_entries(old(table)@) + accepted(texts(addresses@)),
        view_skipped(left_out@) == skipped(texts(addresses@)),
{
    let mut left_out: Vec<SkippedAddress> = Vec::new();
    let mut i: usize = 0;
    assert(texts(addresses@).take(0) =~= Seq::empty());
    assert(view_entries(table@) =~= view_entries(old(table)@) + accepted(Seq::empty()));
    assert(view_skipped(left_out@) =~= skipped(Seq::empty()));
    while i < addresses.len()
        invariant
            i <= addresses.len(),
            view_entries(table@) == view_entries(old(table)@) + accepted(
                texts(addresses@).take(i as int),
            ),
            view_skipped(left_out@) == skipped(texts(addresses@).take(i as int)),
        decreases addresses.len() - i,
    {
        let ghost before = texts(addresses@).take(i as int);
        let ghost next = texts(addresses@).take(i as int + 1);
        let ghost entries_before = view_entries(table@);
        let ghost skipped_before = view_skipped(left_out@);
        proof {
            assert(next.drop_last() =~= before);
            assert(next.last() == addresses@[i as int]@);
        }
        match seed_entry(addresses[i].as_str()) {
            Ok(entry) => {
                table.push(entry);
                assert(view_entries(table@) =~= entries_before.push(entry@));
                assert(view_entries(table@) =~= view_entries(old(table)@) + accepted(next));
            },
            Err(skip) => {
                left_out.push(skip);
                assert(view_skipped(left_out@) =~= skipped_before.push(skip@));
            },
        }
        i += 1;
    }
    assert(texts(addresses@).take(addresses.len() as int) =~= texts(addresses@));
    left_out
}

/// Adds the well-known peers to `table` and returns the addresses of the
/// list that were left out.
pub fn add_bootstrap_nodes(table: &mut Vec<BootstrapEntry>) -> (left_out: Vec<SkippedAddress>)
    ensures
        view_entries(final(table)@) == view_entries(old(table)@) + accepted(well_known_peers()),
        view_skipped(left_out@) == skipped(well_known_peers()),
{
    let list = bootstrap_nodes();
    add_seeds(table, &list)
}

/// Every address of a list is either accepted or left out: the entries and
/// the skips together are as many as the addresses, and every entry is what
/// became of one of the addresses.
pub proof fn lemma_every_address_is_accounted_for(addresses: Seq<Seq<char>>)
    ensures
        accepted(addresses).len() + skipped(addresses).len() == addresses.len(),
        forall|i: int|
            0 <= i < accepted(addresses).len() ==> exists|j: int|
                0 <= j < addresses.len() && seed_of(addresses[j]) == Ok::<
                    BootstrapEntryView,
                    SkippedAddressView,
                >(#[trigger] accepted(addresses)[i]),
    decreases addresses.len(),
{
    if addresses.len() > 0 {
        let shorter = addresses.drop_last();
        lemma_every_address_is_accounted_for(shorter);
        assert forall|i: int| 0 <= i < accepted(addresses).len() implies exists|j: int|
            0 <= j < addresses.len() && seed_of(addresses[j]) == Ok::<
                BootstrapEntryView,
                SkippedAddressView,
            >(#[trigger] accepted(addresses)[i]) by {
            if i < accepted(shorter).len() {
                let j = choose|j: int|
                    0 <= j < shorter.len() && seed_of(shorter[j]) == Ok::<
                        BootstrapEntryView,
                        SkippedAddressView,
                    >(accepted(shorter)[i]);
                assert(addresses[j] == shorter[j]);
                assert(accepted(addresses)[i] == accepted(shorter)[i]);
            } else {
                let j = addresses.len() - 1;
                assert(seed_of(addresses[j]) == Ok::<BootstrapEntryView, SkippedAddressView>(
                    accepted(addresses)[i],
                ));
            }
        }
    }
}

} // verus!
