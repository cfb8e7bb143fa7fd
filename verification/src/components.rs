//! What an account needs from the schemes underneath it.

use vstd::prelude::*;

verus! {

/// The capabilities of a signature scheme and a commitment scheme that
/// accounts are built on: key generation, public-key derivation and the
/// canonical encoding of both keys.
///
/// The spec functions are the model that contracts speak of, the proof
/// functions are laws that an implementation owes, and each executable method
/// is tied to the model by its `ensures`.
pub trait AccountComponents: Sized {
    /// Parameters of the signature scheme, from which private keys are made.
    type SignatureParameters;

    /// Parameters of the commitment scheme, under which public keys are derived.
    type CommitmentParameters;

    /// The secret key. It records the network it was generated for.
    type PrivateKey;

    /// The identifying key derived from a private key.
    type PublicKey;

    /// The source of randomness that key generation draws from.
    type Randomness;

    /// The single failure type of generation and derivation.
    type Error;

    /// The outcomes that generation admits for a request: the source of
    /// randomness before and after, and the key or failure that came out.
    spec fn generation(
        signature_parameters: Self::SignatureParameters,
        metadata: [u8; 32],
        requested: Option<bool>,
        before: Self::Randomness,
        after: Self::Randomness,
        outcome: Result<Self::PrivateKey, Self::Error>,
    ) -> bool;

    /// The network tag recorded inside a private key when it was generated.
    spec fn network_tag(private_key: Self::PrivateKey) -> bool;

    /// The public key of a private key under given commitment parameters, or
    /// the failure to derive one.
    spec fn derivation(
        commitment_parameters: Self::CommitmentParameters,
        private_key: Self::PrivateKey,
    ) -> Result<Self::PublicKey, Self::Error>;

    /// The canonical bytes of a public key.
    spec fn public_key_encoding(public_key: Self::PublicKey) -> Seq<u8>;

    /// The canonical bytes of a private key.
    spec fn private_key_encoding(private_key: Self::PrivateKey) -> Seq<u8>;

    /// The public key at the head of `input` and the number of bytes it takes
    /// up, or `None` where the head of `input` is no public key.
    spec fn public_key_decoding(input: Seq<u8>) -> Option<(Self::PublicKey, nat)>;

    /// The private key at the head of `input` and the number of bytes it takes
    /// up, or `None` where the head of `input` is no private key.
    spec fn private_key_decoding(input: Seq<u8>) -> Option<(Self::PrivateKey, nat)>;

    /// A public key's encoding delimits itself: decoding finds the key again,
    /// and takes exactly its bytes, whatever follows them.
    proof fn public_key_round_trip(public_key: Self::PublicKey, rest: Seq<u8>)
        ensures
            Self::public_key_decoding(Self::public_key_encoding(public_key) + rest) == Some(
                (public_key, Self::public_key_encoding(public_key).len()),
            ),
    ;

    /// A private key's encoding delimits itself: decoding finds the key again,
    /// and takes exactly its bytes, whatever follows them.
    proof fn private_key_round_trip(private_key: Self::PrivateKey, rest: Seq<u8>)
        ensures
            Self::private_key_decoding(Self::private_key_encoding(private_key) + rest) == Some(
                (private_key, Self::private_key_encoding(private_key).len()),
            ),
    ;

    /// Generates a private key. An absent `is_testnet` is resolved by the
    /// scheme, and the resolved tag is recorded in the key.
    fn generate_private_key(
        signature_parameters: &Self::SignatureParameters,
        metadata: &[u8; 32],
        is_testnet: Option<bool>,
        rng: &mut Self::Randomness,
    ) -> (outcome: Result<Self::PrivateKey, Self::Error>)
        ensures
            Self::generation(
                *signature_parameters,
                *metadata,
                is_testnet,
                *old(rng),
                *final(rng),
                outcome,
            ),
    ;

    /// Derives the public key of `private_key`.
    fn derive_public_key(
        commitment_parameters: &Self::CommitmentParameters,
        private_key: &Self::PrivateKey,
    ) -> (outcome: Result<Self::PublicKey, Self::Error>)
        ensures
            outcome == Self::derivation(*commitment_parameters, *private_key),
    ;

    /// Reads the network tag recorded in `private_key`.
    fn private_key_is_testnet(private_key: &Self::PrivateKey) -> (is_testnet: bool)
        ensures
            is_testnet == Self::network_tag(*private_key),
    ;

    /// Appends the canonical bytes of `public_key` to `out`.
    fn write_public_key(public_key: &Self::PublicKey, out: &mut Vec<u8>)
        ensures
            final(out)@ == old(out)@ + Self::public_key_encoding(*public_key),
    ;

    /// Appends the canonical bytes of `private_key` to `out`.
    fn write_private_key(private_key: &Self::PrivateKey, out: &mut Vec<u8>)
        ensures
            final(out)@ == old(out)@ + Self::private_key_encoding(*private_key),
    ;

    /// Decodes the public key at the head of `input`, and says how many bytes
    /// it took.
    fn read_public_key(input: &[u8]) -> (decoded: Option<(Self::PublicKey, usize)>)
        ensures
            match decoded {
                Some((public_key, taken)) => taken <= input@.len() && Self::public_key_decoding(
                    input@,
                ) == Some((public_key, taken as nat)),
                None => Self::public_key_decoding(input@) is None,
            },
    ;

    /// Decodes the private key at the head of `input`, and says how many bytes
    /// it took.
    fn read_private_key(input: &[u8]) -> (decoded: Option<(Self::PrivateKey, usize)>)
        ensures
            match decoded {
                Some((private_key, taken)) => taken <= input@.len() && Self::private_key_decoding(
                    input@,
                ) == Some((private_key, taken as nat)),
                None => Self::private_key_decoding(input@) is None,
            },
    ;

    /// Copies a public key.
    fn clone_public_key(public_key: &Self::PublicKey) -> (copy: Self::PublicKey)
        ensures
            copy == *public_key,
    ;

    /// Copies a private key.
    fn clone_private_key(private_key: &Self::PrivateKey) -> (copy: Self::PrivateKey)
        ensures
            copy == *private_key,
    ;
}

} // verus!
