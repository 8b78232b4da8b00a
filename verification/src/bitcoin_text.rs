//! Addresses, outpoints and fee rates read from the command line, through the
//! bitcoin crate.
use vstd::prelude::*;

use crate::config::Network;
use crate::error::AppError;
use crate::text::concat4;

use bdk_wallet::bitcoin::address::NetworkUnchecked;
use bdk_wallet::bitcoin::Network as BitcoinNetwork;
use bdk_wallet::bitcoin::{Address, FeeRate, OutPoint};

verus! {

/// A reference to a transaction output: the transaction's id (its 32 bytes in
/// the order the bitcoin crate keeps them) and the output's index.
#[derive(Debug, Clone, Copy, PartialEq, Eq)]
pub struct UtxoRef {
    pub txid: [u8; 32],
    pub vout: u32,
}

/// The plain value of a transaction output reference.
pub open spec fn utxo_ref_value(u: UtxoRef) -> (Seq<u8>, u32) {
    (u.txid@, u.vout)
}

/// What reading a text as an outpoint (`<txid>:<vout>`) yields: the id bytes
/// and output index, or the message of the parse error.
pub uninterp spec fn outpoint_read(text: Seq<char>) -> Result<(Seq<u8>, u32), Seq<char>>;

/// Whether a text does not read as an outpoint, with the error's message.
pub open spec fn outpoint_error(text: Seq<char>) -> Option<Seq<char>> {
    match outpoint_read(text) {
        Ok(_) => None,
        Err(e) => Some(e),
    }
}

/// Calls `<OutPoint as FromStr>::from_str` and hands back the outpoint's id bytes
/// (`Txid::to_byte_array`) and index, or the error's message. The contract
/// claims that the outcome depends on the text alone.
#[verifier::external_body]
fn outpoint_from_str(text: &str) -> (r: Result<UtxoRef, String>)
    ensures
        match r {
            Ok(u) => outpoint_read(text@) == Ok::<(Seq<u8>, u32), Seq<char>>(utxo_ref_value(u)),
            Err(e) => outpoint_read(text@) == Err::<(Seq<u8>, u32), Seq<char>>(e@),
        },
{
    match text.parse::<OutPoint>() {
        Ok(o) => Ok(UtxoRef { txid: bdk_wallet::bitcoin::hashes::Hash::to_byte_array(o.txid), vout: o.vout }),
        Err(e) => Err(e.to_string()),
    }
}

/// A fee rate of `sat_vb` satoshis per virtual byte, in satoshis per 1000
/// weight units (a virtual byte is four weight units), unless that overflows.
pub open spec fn sat_per_kwu(sat_vb: u64) -> Option<u64> {
    if sat_vb * 250 <= u64::MAX {
        Some((sat_vb * 250) as u64)
    } else {
        None
    }
}

/// Calls `FeeRate::from_sat_per_vb` and hands back the rate in satoshis per
/// 1000 weight units (`FeeRate::to_sat_per_kwu`). The contract claims what the
/// source shows: the rate is `sat_vb * 250`, or none where that overflows.
#[verifier::external_body]
fn fee_rate_from_sat_per_vb(sat_vb: u64) -> (r: Option<u64>)
    ensures
        r == sat_per_kwu(sat_vb),
{
    match FeeRate::from_sat_per_vb(sat_vb) {
        Some(f) => Some(f.to_sat_per_kwu()),
        None => None,
    }
}

/// Reads a fee rate given in satoshis per virtual byte, as satoshis per 1000
/// weight units.
pub fn fee_rate_sat_per_kwu(sat_vb: u64) -> (r: Result<u64, AppError>)
    ensures
        match sat_per_kwu(sat_vb) {
            Some(k) => r == Ok::<u64, AppError>(k),
            None => r matches Err(AppError::Config(m)) && m@ == "fee rate overflowed"@,
        },
{
    match fee_rate_from_sat_per_vb(sat_vb) {
        Some(k) => Ok(k),
        None => Err(AppError::Config(String::from_str("fee rate overflowed"))),
    }
}

/// Whether every text of a list reads as an outpoint.
pub open spec fn all_outpoints(texts: Seq<String>) -> bool {
    forall|i: int| 0 <= i < texts.len() ==> outpoint_error(#[trigger] texts[i]@) is None
}

/// The message for a `--utxo` value that is not an outpoint.
pub open spec fn bad_utxo_message(text: Seq<char>, error: Seq<char>) -> Seq<char> {
    "invalid --utxo '"@ + text + "': "@ + error
}

/// Whether `e` is the error for the `i`-th text of a list, which does not read
/// as an outpoint.
pub open spec fn bad_utxo_at(texts: Seq<String>, i: int, e: AppError) -> bool {
    match (outpoint_error(texts[i]@), e) {
        (Some(msg), AppError::Config(m)) => m@ == bad_utxo_message(texts[i]@, msg),
        _ => false,
    }
}

/// Reads the outpoints of manually selected UTXOs (`<txid>:<vout>` each), in
/// order, each as the bitcoin crate reads it; the first value that does not read as one fails the whole list.
pub fn parse_outpoints(texts: &Vec<String>) -> (r: Result<Vec<UtxoRef>, AppError>)
    ensures
        all_outpoints(texts@) <==> r is Ok,
        match r {
            Ok(v) => v.len() == texts.len() && forall|i: int|
                0 <= i < v.len() ==> outpoint_read(texts@[i]@) == Ok::<(Seq<u8>, u32), Seq<char>>(
                    utxo_ref_value(#[trigger] v@[i]),
                ),
            Err(e) => exists|i: int|
                0 <= i < texts.len() && all_outpoints(texts@.subrange(0, i)) && #[trigger] bad_utxo_at(
                    texts@,
                    i,
                    e,
                ),
        },
{
    let mut out: Vec<UtxoRef> = Vec::new();
    let mut i: usize = 0;
    while i < texts.len()
        invariant
            i <= texts.len(),
            out.len() == i,
            all_outpoints(texts@.subrange(0, i as int)),
            forall|k: int|
                0 <= k < i ==> outpoint_read(texts@[k]@) == Ok::<(Seq<u8>, u32), Seq<char>>(
                    utxo_ref_value(#[trigger] out@[k]),
                ),
        decreases texts.len() - i,
    {
        match outpoint_from_str(texts[i].as_str()) {
            Ok(o) => {
                out.push(o);
                assert(texts@.subrange(0, i + 1) =~= texts@.subrange(0, i as int).push(texts@[i as int]));
            },
            Err(e) => {
                let msg = concat4("invalid --utxo '", texts[i].as_str(), "': ", e.as_str());
                let err = AppError::Config(msg);
                assert(bad_utxo_at(texts@, i as int, err));
                assert(!all_outpoints(texts@));
                return Err(err);
            },
        }
        i = i + 1;
    }
    assert(texts@.subrange(0, i as int) =~= texts@);
    Ok(out)
}

} // verus!

verus! {

/// What reading a text as a Bitcoin address of a network yields: the output
/// script that pays it (its `script_pubkey` bytes), or the message of the error
/// for a text that is no address or is an address of another network.
pub uninterp spec fn address_read(text: Seq<char>, network: Network) -> Result<Seq<u8>, Seq<char>>;

/// Calls `<Address<NetworkUnchecked> as FromStr>::from_str` on the text and
/// `Address::require_network` on the address it reads, and hands back the
/// checked address's `script_pubkey` bytes, or the message of whichever error
/// came. The two calls stand in one item because the address between them
/// cannot be declared to Verus. The contract claims that the outcome depends on
/// the text and the network alone.
#[verifier::external_body]
fn address_script(text: &str, network: Network) -> (r: Result<Vec<u8>, String>)
    ensures
        match r {
            Ok(s) => address_read(text@, network) == Ok::<Seq<u8>, Seq<char>>(s@),
            Err(e) => address_read(text@, network) == Err::<Seq<u8>, Seq<char>>(e@),
        },
{
    let net = match network {
        Network::Bitcoin => BitcoinNetwork::Bitcoin,
        Network::Testnet => BitcoinNetwork::Testnet,
        Network::Testnet4 => BitcoinNetwork::Testnet4,
        Network::Signet => BitcoinNetwork::Signet,
        Network::Regtest => BitcoinNetwork::Regtest,
    };
    match text.parse::<Address<NetworkUnchecked>>() {
        Ok(a) => match a.require_network(net) {
            Ok(c) => Ok(c.script_pubkey().to_bytes()),
            Err(e) => Err(e.to_string()),
        },
        Err(e) => Err(e.to_string()),
    }
}

/// Reads the address a command pays to, which must belong to the wallet's
/// network, as the output script that pays it.
pub fn read_address(text: &str, network: Network) -> (r: Result<Vec<u8>, AppError>)
    ensures
        match address_read(text@, network) {
            Ok(s) => r matches Ok(v) && v@ == s,
            Err(e) => r matches Err(AppError::Address(m)) && m@ == e,
        },
{
    match address_script(text, network) {
        Ok(s) => Ok(s),
        Err(e) => Err(AppError::Address(e)),
    }
}

} // verus!
