//! The argument blob read by the proof program: the chain-state input verbatim,
//! then the contract address, the billing period, the user address and the
//! signature, each in the program's binary layout (a `u64` in 8 little-endian
//! bytes; a byte string as its length in that form, then its bytes).
use vstd::prelude::*;
use vstd::bytes::*;

verus! {

/// The arguments of one payment check, as the proof program reads them.
pub struct ClaimArgs {
    pub contract: [u8; 20],
    pub period: u64,
    pub user: [u8; 20],
    pub signature: Vec<u8>,
}

/// Mathematical view of `ClaimArgs`: contract, period, user, signature.
pub type ClaimView = (Seq<u8>, u64, Seq<u8>, Seq<u8>);

impl ClaimArgs {
    pub open spec fn view(&self) -> ClaimView {
        (self.contract@, self.period, self.user@, self.signature@)
    }
}

/// A byte string prefixed with its length.
pub open spec fn framed(b: Seq<u8>) -> Seq<u8> {
    spec_u64_to_le_bytes(b.len() as u64) + b
}

/// The encoding of the claim arguments, in the order the program reads them.
pub open spec fn encoded_args(a: ClaimView) -> Seq<u8> {
    framed(a.0) + spec_u64_to_le_bytes(a.1) + framed(a.2) + framed(a.3)
}

/// The whole argument blob: the chain-state input unchanged, then the claim arguments.
pub open spec fn proof_input(evm_input: Seq<u8>, a: ClaimView) -> Seq<u8> {
    evm_input + encoded_args(a)
}

/// Byte offsets of the fields in an encoding of claim arguments.
pub const CONTRACT_AT: usize = 8;
pub const PERIOD_AT: usize = 28;
pub const USER_LEN_AT: usize = 36;
pub const USER_AT: usize = 44;
pub const SIG_LEN_AT: usize = 64;
pub const SIG_AT: usize = 72;

/// The claim arguments that bytes `t` encode, if `t` is exactly such an encoding.
pub open spec fn decoded_args(t: Seq<u8>) -> Option<ClaimView> {
    if t.len() >= 72
        && spec_u64_from_le_bytes(t.subrange(0, 8)) == 20
        && spec_u64_from_le_bytes(t.subrange(36, 44)) == 20
        && spec_u64_from_le_bytes(t.subrange(64, 72)) == t.len() - 72 {
        Some((t.subrange(8, 28), spec_u64_from_le_bytes(t.subrange(28, 36)), t.subrange(44, 64), t.skip(72)))
    } else {
        None
    }
}

fn append_bytes(out: &mut Vec<u8>, b: &[u8])
    ensures
        final(out)@ == old(out)@ + b@,
{
    let mut i: usize = 0;
    while i < b.len()
        invariant
            i <= b@.len(),
            out@ == old(out)@ + b@.subrange(0, i as int),
        decreases b@.len() - i,
    {
        out.push(b[i]);
        i = i + 1;
        assert(out@ =~= old(out)@ + b@.subrange(0, i as int));
    }
    assert(b@.subrange(0, i as int) =~= b@);
}

fn append_u64(out: &mut Vec<u8>, v: u64)
    ensures
        final(out)@ == old(out)@ + spec_u64_to_le_bytes(v),
{
    let b = u64_to_le_bytes(v);
    append_bytes(out, b.as_slice());
}

fn append_framed(out: &mut Vec<u8>, b: &[u8])
    ensures
        final(out)@ == old(out)@ + framed(b@),
{
    append_u64(out, b.len() as u64);
    append_bytes(out, b);
    assert(out@ =~= old(out)@ + framed(b@));
}

/// Builds the argument blob: `evm_input` unchanged, then the claim arguments.
pub fn encode_proof_input(evm_input: &[u8], args: &ClaimArgs) -> (r: Vec<u8>)
    ensures
        r@ == proof_input(evm_input@, args@),
{
    let mut out: Vec<u8> = Vec::new();
    append_bytes(&mut out, evm_input);
    append_framed(&mut out, args.contract.as_slice());
    append_u64(&mut out, args.period);
    append_framed(&mut out, args.user.as_slice());
    append_framed(&mut out, args.signature.as_slice());
    assert(out@ =~= proof_input(evm_input@, args@));
    out
}

fn read_u64(t: &[u8], at: usize) -> (r: u64)
    requires
        at + 8 <= t@.len(),
    ensures
        r == spec_u64_from_le_bytes(t@.subrange(at as int, at + 8)),
{
    let _len = t.len();
    u64_from_le_bytes(vstd::slice::slice_subrange(t, at, at + 8))
}

fn read_address(t: &[u8], at: usize) -> (r: [u8; 20])
    requires
        at + 20 <= t@.len(),
    ensures
        r@ == t@.subrange(at as int, at + 20),
{
    let len = t.len();
    let mut a: [u8; 20] = [0u8; 20];
    let mut i: usize = 0;
    while i < 20
        invariant
            i <= 20,
            len == t@.len(),
            at + 20 <= t@.len(),
            forall|k: int| 0 <= k < i ==> a@[k] == t@[at + k],
        decreases 20 - i,
    {
        a[i] = t[at + i];
        i = i + 1;
    }
    assert(a@ =~= t@.subrange(at as int, at + 20));
    a
}

/// Reads the claim arguments that stand in `blob` from offset `start` to its end;
/// `None` when `start` is past the end.
pub fn decode_claim_args(blob: &[u8], start: usize) -> (r: Option<ClaimArgs>)
    ensures
        start > blob@.len() ==> r is None,
        start <= blob@.len() ==> match r {
            Some(a) => decoded_args(blob@.skip(start as int)) == Some(a@),
            None => decoded_args(blob@.skip(start as int)) is None,
        },
{
    if start > blob.len() {
        return None;
    }
    let ghost t = blob@.skip(start as int);
    let n = blob.len() - start;
    if n < SIG_AT {
        return None;
    }
    assert(t.subrange(0, 8) =~= blob@.subrange(start as int, start + 8));
    assert(t.subrange(36, 44) =~= blob@.subrange(start + 36, start + 44));
    assert(t.subrange(64, 72) =~= blob@.subrange(start + 64, start + 72));
    assert(t.subrange(28, 36) =~= blob@.subrange(start + 28, start + 36));
    assert(t.subrange(8, 28) =~= blob@.subrange(start + 8, start + 28));
    assert(t.subrange(44, 64) =~= blob@.subrange(start + 44, start + 64));
    if read_u64(blob, start) != 20 || read_u64(blob, start + USER_LEN_AT) != 20 {
        return None;
    }
    let sig_len = read_u64(blob, start + SIG_LEN_AT);
    if sig_len as u128 != (n - SIG_AT) as u128 {
        return None;
    }
    let contract = read_address(blob, start + CONTRACT_AT);
    let period = read_u64(blob, start + PERIOD_AT);
    let user = read_address(blob, start + USER_AT);
    let signature = vstd::slice::slice_to_vec(vstd::slice::slice_subrange(blob, start + SIG_AT, blob.len()));
    assert(signature@ =~= t.skip(72));
    Some(ClaimArgs { contract, period, user, signature })
}

/// Decoding the claim arguments of an encoding gives back the arguments, for
/// 20-byte addresses and a signature whose length fits in a `u64`.
pub proof fn lemma_claim_args_round_trip(a: ClaimView)
    requires
        a.0.len() == 20,
        a.2.len() == 20,
        a.3.len() <= u64::MAX,
    ensures
        decoded_args(encoded_args(a)) == Some(a),
{
    lemma_auto_spec_u64_to_from_le_bytes();
    let t = encoded_args(a);
    assert(t.subrange(0, 8) =~= spec_u64_to_le_bytes(20));
    assert(t.subrange(8, 28) =~= a.0);
    assert(t.subrange(28, 36) =~= spec_u64_to_le_bytes(a.1));
    assert(t.subrange(36, 44) =~= spec_u64_to_le_bytes(20));
    assert(t.subrange(44, 64) =~= a.2);
    assert(t.subrange(64, 72) =~= spec_u64_to_le_bytes(a.3.len() as u64));
    assert(t.skip(72) =~= a.3);
}

/// The argument blob starts with the chain-state input verbatim, and the claim
/// arguments read from its end give back exactly the arguments encoded.
pub proof fn lemma_proof_input_round_trip(evm_input: Seq<u8>, a: ClaimView)
    requires
        a.0.len() == 20,
        a.2.len() == 20,
        a.3.len() <= u64::MAX,
    ensures
        proof_input(evm_input, a).subrange(0, evm_input.len() as int) == evm_input,
        decoded_args(proof_input(evm_input, a).skip(evm_input.len() as int)) == Some(a),
{
    lemma_claim_args_round_trip(a);
    assert(proof_input(evm_input, a).subrange(0, evm_input.len() as int) =~= evm_input);
    assert(proof_input(evm_input, a).skip(evm_input.len() as int) =~= encoded_args(a));
}

} // verus!
