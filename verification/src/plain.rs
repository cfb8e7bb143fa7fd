//! A transparent scheme: keys are plain words, and nothing about them is
//! secret. It shows that the laws asked of a scheme can be met, and gives
//! accounts something to run on where no cryptography is wanted.

use crate::components::AccountComponents;
use crate::network_tag::{read_tag, tag_byte, tag_decoding, write_tag};
use vstd::bytes::{
    lemma_auto_spec_u64_to_from_le_bytes, spec_u64_from_le_bytes, spec_u64_to_le_bytes,
    u64_from_le_bytes, u64_to_le_bytes,
};
use vstd::prelude::*;
use vstd::slice::slice_subrange;

verus! {

/// The transparent scheme.
pub struct PlainComponents;

/// Signature parameters: the network of a key made without a request for one.
#[derive(Debug, Clone, Copy, PartialEq, Eq, Structural)]
pub struct PlainSignature {
    pub default_testnet: bool,
}

/// Commitment parameters: the mask that a seed is combined with.
#[derive(Debug, Clone, Copy, PartialEq, Eq, Structural)]
pub struct PlainCommitment {
    pub mask: u64,
}

/// A private key: a seed, and the network it was generated for.
#[derive(Debug, Clone, Copy, PartialEq, Eq, Structural)]
pub struct PlainPrivateKey {
    pub seed: u64,
    pub is_testnet: bool,
}

/// A public key: the seed under the mask.
#[derive(Debug, Clone, Copy, PartialEq, Eq, Structural)]
pub struct PlainPublicKey {
    pub commitment: u64,
}

/// A finite supply of random words, drawn from the back.
#[derive(Debug)]
pub struct PlainRandomness {
    pub words: Vec<u64>,
}

/// Why the transparent scheme gives no key.
#[derive(Debug, Clone, Copy, PartialEq, Eq, Structural)]
pub enum PlainError {
    /// Generation found no word left to draw.
    OutOfRandomness,
    /// Derivation met the zero seed, which has no public key.
    ZeroSeed,
}

/// Width of an encoded word.
pub const WORD_BYTES: usize = 8;

/// The word that metadata contributes to a seed: its first eight bytes, low
/// byte first.
pub open spec fn metadata_word(metadata: [u8; 32]) -> u64 {
    spec_u64_from_le_bytes(metadata@.subrange(0, 8))
}

/// The network of a generated key: the requested one, or the parameters'
/// default where none was requested.
pub open spec fn resolved_network(parameters: PlainSignature, requested: Option<bool>) -> bool {
    match requested {
        Some(is_testnet) => is_testnet,
        None => parameters.default_testnet,
    }
}

impl AccountComponents for PlainComponents {
    type SignatureParameters = PlainSignature;

    type CommitmentParameters = PlainCommitment;

    type PrivateKey = PlainPrivateKey;

    type PublicKey = PlainPublicKey;

    type Randomness = PlainRandomness;

    type Error = PlainError;

    open spec fn generation(
        signature_parameters: PlainSignature,
        metadata: [u8; 32],
        requested: Option<bool>,
        before: PlainRandomness,
        after: PlainRandomness,
        outcome: Result<PlainPrivateKey, PlainError>,
    ) -> bool {
        if before.words@.len() == 0 {
            &&& after.words@ == before.words@
            &&& outcome == Err::<PlainPrivateKey, _>(PlainError::OutOfRandomness)
        } else {
            &&& after.words@ == before.words@.drop_last()
            &&& outcome == Ok::<_, PlainError>(
                (PlainPrivateKey {
                    seed: before.words@.last() ^ metadata_word(metadata),
                    is_testnet: resolved_network(signature_parameters, requested),
                }),
            )
        }
    }

    open spec fn network_tag(private_key: PlainPrivateKey) -> bool {
        private_key.is_testnet
    }

    open spec fn derivation(
        commitment_parameters: PlainCommitment,
        private_key: PlainPrivateKey,
    ) -> Result<PlainPublicKey, PlainError> {
        if private_key.seed == 0 {
            Err(PlainError::ZeroSeed)
        } else {
            Ok((PlainPublicKey { commitment: private_key.seed ^ commitment_parameters.mask }))
        }
    }

    open spec fn public_key_encoding(public_key: PlainPublicKey) -> Seq<u8> {
        spec_u64_to_le_bytes(public_key.commitment)
    }

    open spec fn private_key_encoding(private_key: PlainPrivateKey) -> Seq<u8> {
        spec_u64_to_le_bytes(private_key.seed).push(tag_byte(private_key.is_testnet))
    }

    open spec fn public_key_decoding(input: Seq<u8>) -> Option<(PlainPublicKey, nat)> {
        if input.len() < 8 {
            None
        } else {
            Some(
                (
                    (PlainPublicKey { commitment: spec_u64_from_le_bytes(input.subrange(0, 8)) }),
                    8nat,
                ),
            )
        }
    }

    open spec fn private_key_decoding(input: Seq<u8>) -> Option<(PlainPrivateKey, nat)> {
        if input.len() < 8 {
            None
        } else {
            match tag_decoding(input.skip(8)) {
                None => None,
                Some(is_testnet) => Some(
                    (
                        (PlainPrivateKey {
                            seed: spec_u64_from_le_bytes(input.subrange(0, 8)),
                            is_testnet,
                        }),
                        9nat,
                    ),
                ),
            }
        }
    }

    proof fn public_key_round_trip(public_key: PlainPublicKey, rest: Seq<u8>) {
        lemma_auto_spec_u64_to_from_le_bytes();
        let encoding = spec_u64_to_le_bytes(public_key.commitment);
        assert((encoding + rest).subrange(0, 8) =~= encoding);
    }

    proof fn private_key_round_trip(private_key: PlainPrivateKey, rest: Seq<u8>) {
        lemma_auto_spec_u64_to_from_le_bytes();
        let word = spec_u64_to_le_bytes(private_key.seed);
        let input = word.push(tag_byte(private_key.is_testnet)) + rest;
        assert(input.subrange(0, 8) =~= word);
        assert(input.skip(8)[0] == tag_byte(private_key.is_testnet));
    }

    /// Draws one word, and makes a key of it and the metadata. Fails where no
    /// word is left.
    fn generate_private_key(
        signature_parameters: &PlainSignature,
        metadata: &[u8; 32],
        is_testnet: Option<bool>,
        rng: &mut PlainRandomness,
    ) -> (outcome: Result<PlainPrivateKey, PlainError>) {
        match rng.words.pop() {
            None => Err(PlainError::OutOfRandomness),
            Some(word) => {
                let mixed = u64_from_le_bytes(slice_subrange(metadata.as_slice(), 0, WORD_BYTES));
                let is_testnet = match is_testnet {
                    Some(requested) => requested,
                    None => signature_parameters.default_testnet,
                };
                Ok(PlainPrivateKey { seed: word ^ mixed, is_testnet })
            },
        }
    }

    /// Masks the seed. Fails on the zero seed.
    fn derive_public_key(
        commitment_parameters: &PlainCommitment,
        private_key: &PlainPrivateKey,
    ) -> (outcome: Result<PlainPublicKey, PlainError>) {
        if private_key.seed == 0 {
            Err(PlainError::ZeroSeed)
        } else {
            Ok(PlainPublicKey { commitment: private_key.seed ^ commitment_parameters.mask })
        }
    }

    fn private_key_is_testnet(private_key: &PlainPrivateKey) -> (is_testnet: bool) {
        private_key.is_testnet
    }

    fn write_public_key(public_key: &PlainPublicKey, out: &mut Vec<u8>) {
        let mut word = u64_to_le_bytes(public_key.commitment);
        out.append(&mut word);
    }

    fn write_private_key(private_key: &PlainPrivateKey, out: &mut Vec<u8>) {
        let mut word = u64_to_le_bytes(private_key.seed);
        out.append(&mut word);
        write_tag(private_key.is_testnet, out);
        assert(out@ =~= old(out)@ + Self::private_key_encoding(*private_key));
    }

    fn read_public_key(input: &[u8]) -> (decoded: Option<(PlainPublicKey, usize)>) {
        if input.len() < WORD_BYTES {
            None
        } else {
            let commitment = u64_from_le_bytes(slice_subrange(input, 0, WORD_BYTES));
            Some((PlainPublicKey { commitment }, WORD_BYTES))
        }
    }

    fn read_private_key(input: &[u8]) -> (decoded: Option<(PlainPrivateKey, usize)>) {
        if input.len() < WORD_BYTES {
            None
        } else {
            match read_tag(slice_subrange(input, WORD_BYTES, input.len())) {
                None => None,
                Some(is_testnet) => {
                    let seed = u64_from_le_bytes(slice_subrange(input, 0, WORD_BYTES));
                    Some((PlainPrivateKey { seed, is_testnet }, WORD_BYTES + 1))
                },
            }
        }
    }

    fn clone_public_key(public_key: &PlainPublicKey) -> (copy: PlainPublicKey) {
        *public_key
    }

    fn clone_private_key(private_key: &PlainPrivateKey) -> (copy: PlainPrivateKey) {
        *private_key
    }
}

} // verus!
