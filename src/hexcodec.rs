//! Hexadecimal text: encoding of byte strings, decoding of signatures and addresses.
use vstd::prelude::*;

verus! {

/// The sixteen lowercase hexadecimal digits, by value.
pub open spec fn hex_digits() -> Seq<char> {
    seq!['0', '1', '2', '3', '4', '5', '6', '7', '8', '9', 'a', 'b', 'c', 'd', 'e', 'f']
}

pub open spec fn is_hex_digit(c: char) -> bool {
    ('0' <= c && c <= '9') || ('a' <= c && c <= 'f') || ('A' <= c && c <= 'F')
}

/// The value of a hexadecimal digit of either case.
pub open spec fn hex_value(c: char) -> int {
    if '0' <= c && c <= '9' {
        c as int - '0' as int
    } else if 'a' <= c && c <= 'f' {
        c as int - 'a' as int + 10
    } else {
        c as int - 'A' as int + 10
    }
}

/// Lowercase hex text of `b`: two digits per byte, high nibble first.
pub open spec fn hex_of(b: Seq<u8>) -> Seq<char> {
    Seq::new(
        2 * b.len(),
        |j: int|
            if j % 2 == 0 {
                hex_digits()[b[j / 2] as int / 16]
            } else {
                hex_digits()[b[j / 2] as int % 16]
            },
    )
}

/// The bytes that hex text `s` denotes: defined when `s` has even length and only hex digits.
pub open spec fn hex_decoded(s: Seq<char>) -> Option<Seq<u8>> {
    if s.len() % 2 == 0 && forall|i: int| 0 <= i < s.len() ==> is_hex_digit(#[trigger] s[i]) {
        Some(
            Seq::new(
                s.len() / 2,
                |i: int| (hex_value(s[2 * i]) * 16 + hex_value(s[2 * i + 1])) as u8,
            ),
        )
    } else {
        None
    }
}

pub open spec fn has_hex_prefix(s: Seq<char>) -> bool {
    s.len() >= 2 && s[0] == '0' && s[1] == 'x'
}

/// `s` with every leading `0x` removed.
pub open spec fn without_hex_prefixes(s: Seq<char>) -> Seq<char>
    decreases s.len(),
{
    if has_hex_prefix(s) {
        without_hex_prefixes(s.skip(2))
    } else {
        s
    }
}

/// `s` with one leading `0x` or `0X` removed.
pub open spec fn without_address_prefix(s: Seq<char>) -> Seq<char> {
    if s.len() >= 2 && s[0] == '0' && (s[1] == 'x' || s[1] == 'X') {
        s.skip(2)
    } else {
        s
    }
}

/// The 20 bytes that an address in hex text denotes, with an optional `0x` or `0X`.
pub open spec fn address_decoded(s: Seq<char>) -> Option<Seq<u8>> {
    let t = without_address_prefix(s);
    if t.len() == 40 {
        hex_decoded(t)
    } else {
        None
    }
}

/// Relies on hex::encode: two lowercase digits for each byte, high nibble first.
#[verifier::external_body]
pub(crate) fn hex_encode(b: &[u8]) -> (r: String)
    ensures
        r@ == hex_of(b@),
{
    hex::encode(b)
}

/// Relies on hex::decode: `Ok` exactly on even-length text of hex digits of either
/// case, each pair giving one byte.
#[verifier::external_body]
fn hex_decode(s: &str) -> (r: Option<Vec<u8>>)
    ensures
        match r {
            Some(v) => hex_decoded(s@) == Some(v@),
            None => hex_decoded(s@) is None,
        },
{
    hex::decode(s).ok()
}

/// Relies on the `FromStr` of alloy_primitives::Address: strips one `0x` or `0X`,
/// then asks for exactly 40 hex digits of either case.
#[verifier::external_body]
fn address_from_str(s: &str) -> (r: Option<[u8; 20]>)
    ensures
        match r {
            Some(a) => address_decoded(s@) == Some(a@),
            None => address_decoded(s@) is None,
        },
{
    s.parse::<alloy_primitives::Address>().ok().map(|a| a.0.0)
}

/// Removes every leading `0x` from `s`.
pub fn strip_hex_prefixes(s: &str) -> (r: &str)
    ensures
        r@ == without_hex_prefixes(s@),
{
    let n = s.unicode_len();
    let mut i: usize = 0;
    assert(s@.skip(0) =~= s@);
    while n - i >= 2 && s.get_char(i) == '0' && s.get_char(i + 1) == 'x'
        invariant
            n == s@.len(),
            i <= n,
            i % 2 == 0,
            without_hex_prefixes(s@) == without_hex_prefixes(s@.skip(i as int)),
        decreases n - i,
    {
        assert(s@.skip(i as int).skip(2) =~= s@.skip(i + 2));
        i = i + 2;
    }
    let r = s.substring_char(i, n);
    assert(r@ =~= s@.skip(i as int));
    r
}

/// The bytes of a signature written in hex, after any leading `0x`.
pub fn parse_signature(s: &str) -> (r: Option<Vec<u8>>)
    ensures
        match r {
            Some(v) => hex_decoded(without_hex_prefixes(s@)) == Some(v@),
            None => hex_decoded(without_hex_prefixes(s@)) is None,
        },
{
    hex_decode(strip_hex_prefixes(s))
}

/// The 20 bytes of an address written in hex.
pub fn parse_address(s: &str) -> (r: Option<[u8; 20]>)
    ensures
        match r {
            Some(a) => address_decoded(s@) == Some(a@),
            None => address_decoded(s@) is None,
        },
{
    address_from_str(s)
}

} // verus!
