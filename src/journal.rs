//! Decoding of the proof computation's journal and assembly of the response.
use vstd::prelude::*;
use crate::hexcodec::{hex_digits, hex_of, hex_encode};
use crate::types::GenerateProofResponse;

verus! {

/// Length of the ABI encoding of a chain-state commitment: three 32-byte words
/// (identifier, block digest, configuration digest).
pub const COMMITMENT_LEN: usize = 96;

/// The commitment that journal bytes `j` begin with, if they are long enough to hold one.
pub open spec fn journal_commitment(j: Seq<u8>) -> Option<Seq<u8>> {
    if j.len() >= 96 {
        Some(j.subrange(0, 96))
    } else {
        None
    }
}

/// Decimal text of `n`, without leading zeros.
pub open spec fn decimal_of(n: nat) -> Seq<char>
    decreases n,
{
    if n < 10 {
        seq![hex_digits()[n as int]]
    } else {
        decimal_of(n / 10) + seq![hex_digits()[(n % 10) as int]]
    }
}

/// Relies on `u64`'s `to_string`: decimal digits, most significant first, no leading zeros.
#[verifier::external_body]
fn decimal(n: u64) -> (r: String)
    ensures
        r@ == decimal_of(n as nat),
{
    n.to_string()
}

/// The commitment bytes of a journal; `None` when the journal is too short for the schema.
pub fn decode_journal(journal: &[u8]) -> (r: Option<Vec<u8>>)
    ensures
        match r {
            Some(c) => journal_commitment(journal@) == Some(c@),
            None => journal_commitment(journal@) is None,
        },
{
    if journal.len() < COMMITMENT_LEN {
        None
    } else {
        let c = vstd::slice::slice_to_vec(vstd::slice::slice_subrange(journal, 0, COMMITMENT_LEN));
        Some(c)
    }
}

/// The identifier of a proof for `period` produced at `timestamp`.
pub open spec fn proof_id_of(period: u64, timestamp: u64) -> Seq<char> {
    "boundless_"@ + decimal_of(period as nat) + "_"@ + decimal_of(timestamp as nat)
}

/// The message of a successful response.
pub open spec fn message_of(user: Seq<u8>, contract: Seq<u8>, period: u64) -> Seq<char> {
    "Boundless ZK proof generated for user 0x"@ + hex_of(user) + " payment to 0x"@ + hex_of(contract)
        + " for month "@ + decimal_of(period as nat)
}

pub fn proof_id(period: u64, timestamp: u64) -> (r: String)
    ensures
        r@ == proof_id_of(period, timestamp),
{
    let mut s = String::from_str("boundless_");
    s.append(decimal(period).as_str());
    s.append("_");
    s.append(decimal(timestamp).as_str());
    s
}

/// Builds the response for a fulfilled request; `None` when the journal does not
/// hold a commitment.
pub fn build_response(
    journal: &[u8],
    seal: &[u8],
    user: &[u8; 20],
    contract: &[u8; 20],
    period: u64,
    timestamp: u64,
) -> (r: Option<GenerateProofResponse>)
    ensures
        match r {
            Some(resp) => {
                &&& journal_commitment(journal@) is Some
                &&& resp.success
                &&& resp.journal@ == hex_of(journal@)
                &&& resp.seal@ == hex_of(seal@)
                &&& resp.commitment@ == hex_of(journal_commitment(journal@)->0)
                &&& resp.proof_id@ == proof_id_of(period, timestamp)
                &&& resp.message@ == message_of(user@, contract@, period)
                &&& resp.timestamp == timestamp
            },
            None => journal_commitment(journal@) is None,
        },
{
    let commitment = match decode_journal(journal) {
        Some(c) => c,
        None => return None,
    };
    let mut message = String::from_str("Boundless ZK proof generated for user 0x");
    message.append(hex_encode(user.as_slice()).as_str());
    message.append(" payment to 0x");
    message.append(hex_encode(contract.as_slice()).as_str());
    message.append(" for month ");
    message.append(decimal(period).as_str());
    Some(GenerateProofResponse {
        success: true,
        message,
        proof_id: proof_id(period, timestamp),
        journal: hex_encode(journal),
        seal: hex_encode(seal),
        commitment: hex_encode(commitment.as_slice()),
        timestamp,
    })
}

} // verus!
