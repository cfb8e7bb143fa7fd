//! Laws of the account's construction and encoding, for every scheme.

use crate::account::{Account, AccountReadError};
use crate::components::AccountComponents;
use crate::network_tag::{tag_byte, tag_consumed, trailing_tag};
use vstd::prelude::*;

verus! {

/// An assembled account carries the tag recorded in its private key, holds
/// the generated key itself, and holds the public key derived from it.
pub proof fn lemma_assembled_account_is_bound<C: AccountComponents>(
    commitment_parameters: C::CommitmentParameters,
    generated: Result<C::PrivateKey, C::Error>,
)
    ensures
        Account::<C>::assembled(commitment_parameters, generated) matches Ok(account) ==> {
            &&& account.is_testnet == C::network_tag(account.private_key)
            &&& generated == Ok::<_, C::Error>(account.private_key)
            &&& account.derived_under(commitment_parameters)
        },
{
}

/// A failed key generation is the failure of construction, whatever
/// derivation would have made of any key.
pub proof fn lemma_failed_generation_fails_construction<C: AccountComponents>(
    commitment_parameters: C::CommitmentParameters,
    failure: C::Error,
)
    ensures
        Account::<C>::assembled(commitment_parameters, Err(failure)) == Err::<Account<C>, _>(
            failure,
        ),
{
}

/// Two encoded keys followed by any bytes decode to those keys, and the bytes
/// that follow decide the tag and nothing else.
pub proof fn lemma_decoding_after_keys<C: AccountComponents>(
    public_key: C::PublicKey,
    private_key: C::PrivateKey,
    rest: Seq<u8>,
)
    ensures
        Account::<C>::decoding(
            C::public_key_encoding(public_key) + C::private_key_encoding(private_key) + rest,
        ) == Ok::<(Account<C>, nat), AccountReadError>(
            (
                (Account::<C> { public_key, private_key, is_testnet: trailing_tag(rest) }),
                C::public_key_encoding(public_key).len() + C::private_key_encoding(
                    private_key,
                ).len() + tag_consumed(rest),
            ),
        ),
{
    let public_bytes = C::public_key_encoding(public_key);
    let private_bytes = C::private_key_encoding(private_key);
    let input = public_bytes + private_bytes + rest;
    assert(input =~= public_bytes + (private_bytes + rest));
    C::public_key_round_trip(public_key, private_bytes + rest);
    assert(input.skip(public_bytes.len() as int) =~= private_bytes + rest);
    C::private_key_round_trip(private_key, rest);
    assert(input.skip((public_bytes.len() + private_bytes.len()) as int) =~= rest);
}

/// Decoding inverts encoding: the bytes of an account decode to that account,
/// keys and tag, and take up the whole buffer; so encoding what was decoded
/// from them gives the same bytes again.
pub proof fn lemma_decoding_inverts_encoding<C: AccountComponents>(account: Account<C>)
    ensures
        Account::<C>::decoding(account.encoding()) == Ok::<(Account<C>, nat), AccountReadError>(
            (account, account.encoding().len()),
        ),
        Account::<C>::decoding(account.encoding()) matches Ok((found, _)) && found.encoding()
            == account.encoding(),
{
    let tag = seq![tag_byte(account.is_testnet)];
    lemma_decoding_after_keys::<C>(account.public_key, account.private_key, tag);
    assert(trailing_tag(tag) == account.is_testnet);
    assert(tag_consumed(tag) == 1);
}

/// Two encoded keys with nothing after them decode to a test-network account.
pub proof fn lemma_missing_tag_means_testnet<C: AccountComponents>(
    public_key: C::PublicKey,
    private_key: C::PrivateKey,
)
    ensures
        Account::<C>::decoding(
            C::public_key_encoding(public_key) + C::private_key_encoding(private_key),
        ) matches Ok((account, _)) && account == (Account::<C> {
            public_key,
            private_key,
            is_testnet: true,
        }),
{
    let keys = C::public_key_encoding(public_key) + C::private_key_encoding(private_key);
    lemma_decoding_after_keys::<C>(public_key, private_key, Seq::<u8>::empty());
    assert(keys + Seq::<u8>::empty() =~= keys);
}

/// Two encoded keys followed by one byte that is no tag decode, without
/// failure, to a test-network account.
pub proof fn lemma_unreadable_tag_means_testnet<C: AccountComponents>(
    public_key: C::PublicKey,
    private_key: C::PrivateKey,
    trailing: u8,
)
    requires
        trailing != 0 && trailing != 1,
    ensures
        Account::<C>::decoding(
            C::public_key_encoding(public_key) + C::private_key_encoding(private_key)
                + seq![trailing],
        ) matches Ok((account, _)) && account == (Account::<C> {
            public_key,
            private_key,
            is_testnet: true,
        }),
{
    lemma_decoding_after_keys::<C>(public_key, private_key, seq![trailing]);
}

/// Two encoded keys followed by a tag byte decode to an account with that
/// tag: production for the byte `0`, the test network for the byte `1`.
pub proof fn lemma_explicit_tag_is_kept<C: AccountComponents>(
    public_key: C::PublicKey,
    private_key: C::PrivateKey,
    is_testnet: bool,
)
    ensures
        Account::<C>::decoding(
            C::public_key_encoding(public_key) + C::private_key_encoding(private_key)
                + seq![tag_byte(is_testnet)],
        ) matches Ok((account, _)) && account == (Account::<C> {
            public_key,
            private_key,
            is_testnet,
        }),
{
    lemma_decoding_after_keys::<C>(public_key, private_key, seq![tag_byte(is_testnet)]);
}

/// Whatever `clone` makes of an account encodes to the same bytes as the
/// account itself.
pub proof fn lemma_clone_encodes_identically<C: AccountComponents>(
    account: Account<C>,
    copy: Account<C>,
)
    requires
        cloned(account, copy),
    ensures
        copy.encoding() == account.encoding(),
{
}

} // verus!
