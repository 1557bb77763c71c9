//! The stages of one proof request, from the chain-state snapshot to the decoded
//! result, with the failure of each stage. The caller performs each stage's work
//! and reports its outcome; the pipeline says what comes next.
use vstd::prelude::*;
use crate::encoding::ClaimArgs;
use crate::hexcodec::{address_decoded, hex_decoded, without_hex_prefixes, parse_address, parse_signature};
use crate::hexcodec::hex_of;
use crate::journal::{build_response, decode_journal, journal_commitment, message_of, proof_id_of};
use crate::types::{GenerateProofRequest, GenerateProofResponse};

verus! {

/// Why a proof request failed.
#[derive(Debug, Clone, Copy, PartialEq, Eq, Structural)]
pub enum PipelineError {
    /// The request is malformed; nothing was sent to the chain.
    InputValidation,
    /// The chain's RPC endpoint could not be reached.
    Connectivity,
    /// The chain id is not supported.
    ChainSpec,
    /// The contract call reverted.
    CallReverted,
    /// The contract call's return value has the wrong type.
    Decode,
    /// The chain-state input was taken while a call was still outstanding.
    IncompleteWitness,
    /// The contract reports no payment for the claim; nothing was submitted.
    PaymentNotFound,
    /// The marketplace refused the request.
    Submission,
    /// The deadline passed before a fulfillment came.
    RequestExpired,
    /// The marketplace reported a fault.
    Fulfillment,
    /// The journal does not match the program's output schema.
    JournalDecode,
}

/// Where a proof request stands.
#[derive(Debug, Clone, Copy, PartialEq, Eq, Structural)]
pub enum Stage {
    BuildSnapshot,
    Preflight,
    Commit,
    Submit,
    AwaitFulfillment,
    DecodeResult,
    Done,
    Failed(PipelineError),
}

/// The outcome of a stage's work, as the caller reports it.
#[derive(Debug, Clone, Copy, PartialEq, Eq, Structural)]
pub enum StageEvent {
    SnapshotBuilt,
    /// The contract call ran; `paid` is what it returned.
    Preflighted { paid: bool },
    Committed,
    Submitted,
    Fulfilled,
    JournalDecoded,
    /// The stage's work failed with this error.
    StageFailed(PipelineError),
    /// The wait for fulfillment passed its deadline.
    Expired,
}

/// What the marketplace reports of a submitted request.
#[derive(Debug, Clone, Copy, PartialEq, Eq, Structural)]
pub enum MarketStatus {
    Pending,
    Fulfilled,
    Expired,
    Failed,
}

/// The pipeline event that a marketplace status amounts to; `None` while the request is pending.
pub fn event_for_status(st: MarketStatus) -> (r: Option<StageEvent>)
    ensures
        r == match st {
            MarketStatus::Pending => None,
            MarketStatus::Fulfilled => Some(StageEvent::Fulfilled),
            MarketStatus::Expired => Some(StageEvent::Expired),
            MarketStatus::Failed => Some(StageEvent::StageFailed(PipelineError::Fulfillment)),
        },
{
    match st {
        MarketStatus::Pending => None,
        MarketStatus::Fulfilled => Some(StageEvent::Fulfilled),
        MarketStatus::Expired => Some(StageEvent::Expired),
        MarketStatus::Failed => Some(StageEvent::StageFailed(PipelineError::Fulfillment)),
    }
}

/// The stage after `s` on event `e`. An event of another stage leaves `s` as it is;
/// `Done` and `Failed` are final.
pub open spec fn next_stage(s: Stage, e: StageEvent) -> Stage {
    match s {
        Stage::Done | Stage::Failed(_) => s,
        _ => match e {
            StageEvent::StageFailed(err) => Stage::Failed(err),
            StageEvent::SnapshotBuilt => if s == Stage::BuildSnapshot { Stage::Preflight } else { s },
            StageEvent::Preflighted { paid } => if s == Stage::Preflight {
                if paid { Stage::Commit } else { Stage::Failed(PipelineError::PaymentNotFound) }
            } else {
                s
            },
            StageEvent::Committed => if s == Stage::Commit { Stage::Submit } else { s },
            StageEvent::Submitted => if s == Stage::Submit { Stage::AwaitFulfillment } else { s },
            StageEvent::Fulfilled => if s == Stage::AwaitFulfillment { Stage::DecodeResult } else { s },
            StageEvent::Expired => if s == Stage::AwaitFulfillment {
                Stage::Failed(PipelineError::RequestExpired)
            } else {
                s
            },
            StageEvent::JournalDecoded => if s == Stage::DecodeResult { Stage::Done } else { s },
        },
    }
}

/// The stage reached from `s` after the events `es`, in order.
pub open spec fn run(s: Stage, es: Seq<StageEvent>) -> Stage
    decreases es.len(),
{
    if es.len() == 0 {
        s
    } else {
        run(next_stage(s, es[0]), es.skip(1))
    }
}

/// The stage after `s` on event `e`.
pub fn advance(s: Stage, e: StageEvent) -> (r: Stage)
    ensures
        r == next_stage(s, e),
{
    match s {
        Stage::Done | Stage::Failed(_) => s,
        _ => match e {
            StageEvent::StageFailed(err) => Stage::Failed(err),
            StageEvent::SnapshotBuilt => if s == Stage::BuildSnapshot { Stage::Preflight } else { s },
            StageEvent::Preflighted { paid } => if s == Stage::Preflight {
                if paid { Stage::Commit } else { Stage::Failed(PipelineError::PaymentNotFound) }
            } else {
                s
            },
            StageEvent::Committed => if s == Stage::Commit { Stage::Submit } else { s },
            StageEvent::Submitted => if s == Stage::Submit { Stage::AwaitFulfillment } else { s },
            StageEvent::Fulfilled => if s == Stage::AwaitFulfillment { Stage::DecodeResult } else { s },
            StageEvent::Expired => if s == Stage::AwaitFulfillment {
                Stage::Failed(PipelineError::RequestExpired)
            } else {
                s
            },
            StageEvent::JournalDecoded => if s == Stage::DecodeResult { Stage::Done } else { s },
        },
    }
}

/// A failed request stays failed whatever comes after.
pub proof fn lemma_failure_is_final(err: PipelineError, es: Seq<StageEvent>)
    ensures
        run(Stage::Failed(err), es) == Stage::Failed(err),
    decreases es.len(),
{
    if es.len() > 0 {
        lemma_failure_is_final(err, es.skip(1));
    }
}

/// When the chain cannot be reached, the request fails with a connectivity error
/// and never comes to the submission stage, whatever follows.
pub proof fn lemma_unreachable_chain_never_submits(es: Seq<StageEvent>)
    requires
        es.len() > 0,
        es[0] == StageEvent::StageFailed(PipelineError::Connectivity),
    ensures
        run(Stage::BuildSnapshot, es) == Stage::Failed(PipelineError::Connectivity),
        forall|k: int| 0 <= k <= es.len() ==> #[trigger] run(Stage::BuildSnapshot, es.take(k)) != Stage::Submit,
{
    lemma_failure_is_final(PipelineError::Connectivity, es.skip(1));
    assert forall|k: int| 0 <= k <= es.len() implies #[trigger] run(Stage::BuildSnapshot, es.take(k)) != Stage::Submit by {
        if k > 0 {
            assert(es.take(k).skip(1) =~= es.skip(1).take(k - 1));
            lemma_failure_is_final(PipelineError::Connectivity, es.skip(1).take(k - 1));
        }
    }
}

/// A wait that passes its deadline fails the request with an expiry, and no result
/// (journal or seal) is produced afterwards.
pub proof fn lemma_expiry_yields_no_result(es: Seq<StageEvent>)
    ensures
        next_stage(Stage::AwaitFulfillment, StageEvent::Expired) == Stage::Failed(PipelineError::RequestExpired),
        run(Stage::AwaitFulfillment, seq![StageEvent::Expired] + es) == Stage::Failed(PipelineError::RequestExpired),
{
    let all = seq![StageEvent::Expired] + es;
    assert(all.skip(1) =~= es);
    lemma_failure_is_final(PipelineError::RequestExpired, es);
}

/// The claim arguments that a request denotes, if its fields are well-formed.
pub open spec fn claim_of(req: GenerateProofRequest) -> Option<(Seq<u8>, u64, Seq<u8>, Seq<u8>)> {
    match (address_decoded(req.payment_receiver@), address_decoded(req.user_address@),
        hex_decoded(without_hex_prefixes(req.signature@))) {
        (Some(c), Some(u), Some(s)) => Some((c, req.month, u, s)),
        _ => None,
    }
}

/// The claim arguments of a request, from its own fields; an input-validation error
/// when an address or the signature is not well-formed hex.
pub fn prepare_claim(req: &GenerateProofRequest) -> (r: Result<ClaimArgs, PipelineError>)
    ensures
        match r {
            Ok(a) => claim_of(*req) == Some(a@),
            Err(e) => claim_of(*req) is None && e == PipelineError::InputValidation,
        },
{
    let contract = match parse_address(req.payment_receiver.as_str()) {
        Some(a) => a,
        None => return Err(PipelineError::InputValidation),
    };
    let user = match parse_address(req.user_address.as_str()) {
        Some(a) => a,
        None => return Err(PipelineError::InputValidation),
    };
    let signature = match parse_signature(req.signature.as_str()) {
        Some(s) => s,
        None => return Err(PipelineError::InputValidation),
    };
    Ok(ClaimArgs { contract, period: req.month, user, signature })
}

/// The response for a fulfilled request on claim `claim`, made at `timestamp`, when
/// the journal holds the commitment `expected` of the chain state that was queried;
/// a journal-decode error when it holds none or another.
pub fn response_for(
    claim: &ClaimArgs,
    journal: &[u8],
    seal: &[u8],
    expected: &[u8],
    timestamp: u64,
) -> (r: Result<GenerateProofResponse, PipelineError>)
    ensures
        match r {
            Ok(resp) => {
                &&& journal_commitment(journal@) == Some(expected@)
                &&& resp.success
                &&& resp.journal@ == hex_of(journal@)
                &&& resp.seal@ == hex_of(seal@)
                &&& resp.commitment@ == hex_of(expected@)
                &&& resp.proof_id@ == proof_id_of(claim.period, timestamp)
                &&& resp.message@ == message_of(claim.user@, claim.contract@, claim.period)
                &&& resp.timestamp == timestamp
            },
            Err(e) => journal_commitment(journal@) != Some(expected@) && e == PipelineError::JournalDecode,
        },
{
    match decode_journal(journal) {
        Some(c) => {
            if !bytes_equal(c.as_slice(), expected) {
                return Err(PipelineError::JournalDecode);
            }
        },
        None => return Err(PipelineError::JournalDecode),
    }
    match build_response(journal, seal, &claim.user, &claim.contract, claim.period, timestamp) {
        Some(resp) => Ok(resp),
        None => Err(PipelineError::JournalDecode),
    }
}

fn bytes_equal(a: &[u8], b: &[u8]) -> (r: bool)
    ensures
        r == (a@ == b@),
{
    if a.len() != b.len() {
        return false;
    }
    let mut i: usize = 0;
    while i < a.len()
        invariant
            a@.len() == b@.len(),
            i <= a@.len(),
            forall|k: int| 0 <= k < i ==> a@[k] == b@[k],
        decreases a@.len() - i,
    {
        if a[i] != b[i] {
            return false;
        }
        i = i + 1;
    }
    assert(a@ =~= b@);
    true
}

/// Which block the chain-state snapshot is taken at.
#[derive(Debug, Clone, Copy, PartialEq, Eq, Structural)]
pub enum BlockSelector {
    Latest,
    Parent,
    Number(u64),
}

/// The block that `sel` names when the chain's head is `head`; `None` for the
/// parent of the genesis block or for a block past the head.
pub open spec fn resolved_block(sel: BlockSelector, head: u64) -> Option<u64> {
    match sel {
        BlockSelector::Latest => Some(head),
        BlockSelector::Parent => if head > 0 { Some((head - 1) as u64) } else { None },
        BlockSelector::Number(n) => if n <= head { Some(n) } else { None },
    }
}

/// Fixes the block of the snapshot once, against one reading `head` of the chain's head.
pub fn resolve_block(sel: BlockSelector, head: u64) -> (r: Option<u64>)
    ensures
        r == resolved_block(sel, head),
{
    match sel {
        BlockSelector::Latest => Some(head),
        BlockSelector::Parent => if head > 0 { Some(head - 1) } else { None },
        BlockSelector::Number(n) => if n <= head { Some(n) } else { None },
    }
}

} // verus!
