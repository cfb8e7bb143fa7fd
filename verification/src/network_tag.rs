//! The network tag: one trailing byte that tells a test-network account from
//! a production one, and the rule for buffers that lack a readable tag.

use snarkvm_utilities::{FromBytes, ToBytes};
use vstd::prelude::*;

verus! {

/// The byte that stands for a network tag on the wire.
pub open spec fn tag_byte(is_testnet: bool) -> u8 {
    if is_testnet {
        1u8
    } else {
        0u8
    }
}

/// What the head of `input` decodes to as a tag: `0` is production, `1` is
/// the test network, and nothing else (an empty buffer included) is a tag.
pub open spec fn tag_decoding(input: Seq<u8>) -> Option<bool> {
    if input.len() == 0 {
        None
    } else if input[0] == 0u8 {
        Some(false)
    } else if input[0] == 1u8 {
        Some(true)
    } else {
        None
    }
}

/// The tag an account gets from an attempt to decode one: the decoded tag, or
/// the test network where there was none to decode.
pub open spec fn tag_or_testnet(decoded: Option<bool>) -> bool {
    match decoded {
        Some(is_testnet) => is_testnet,
        None => true,
    }
}

/// The tag that the bytes after the two keys give an account.
pub open spec fn trailing_tag(rest: Seq<u8>) -> bool {
    tag_or_testnet(tag_decoding(rest))
}

/// How many bytes an attempt to decode a tag takes from `rest`: the one byte
/// it looks at, whether or not that byte is a tag.
pub open spec fn tag_consumed(rest: Seq<u8>) -> nat {
    if rest.len() == 0 {
        0
    } else {
        1
    }
}

/// Calls `<bool as ToBytes>::write_le` of `snarkvm_utilities` with `out` as the
/// writer. Trusted: it appends exactly one byte, `1` for `true` and `0` for
/// `false`, and leaves what `out` held before in place.
#[verifier::external_body]
pub(crate) fn write_tag(is_testnet: bool, out: &mut Vec<u8>)
    ensures
        final(out)@ == old(out)@.push(tag_byte(is_testnet)),
{
    let _ = is_testnet.write_le(&mut *out);
}

/// Calls `<bool as FromBytes>::read_le` of `snarkvm_utilities` with `input` as
/// the reader. Trusted: it succeeds exactly when `input` starts with the byte
/// `0` or `1`, giving `false` or `true`; an empty buffer or any other first
/// byte is an error, which comes back as `None`.
#[verifier::external_body]
pub(crate) fn read_tag(input: &[u8]) -> (decoded: Option<bool>)
    ensures
        decoded == tag_decoding(input@),
{
    bool::read_le(input).ok()
}

/// Settles an account's tag from an attempt to decode one. A failed attempt
/// is not an error: buffers written before the tag existed carry none, and
/// such accounts belong to the test network.
pub fn resolve_tag(decoded: Option<bool>) -> (is_testnet: bool)
    ensures
        is_testnet == tag_or_testnet(decoded),
{
    match decoded {
        Some(is_testnet) => is_testnet,
        None => true,
    }
}

} // verus!
