//! The account: its construction, its canonical encoding and the laws that
//! hold between them.

use crate::components::AccountComponents;
use crate::network_tag::{
    read_tag, resolve_tag, tag_byte, tag_consumed, trailing_tag, write_tag,
};
use vstd::prelude::*;
use vstd::slice::slice_subrange;

verus! {

/// A key pair with the network it belongs to.
pub struct Account<C: AccountComponents> {
    pub public_key: C::PublicKey,
    pub private_key: C::PrivateKey,
    pub is_testnet: bool,
}

/// Why a buffer does not decode to an account.
#[derive(Debug, Clone, Copy, PartialEq, Eq, Structural)]
pub enum AccountReadError {
    /// The buffer does not start with a public key.
    PublicKey,
    /// No private key follows the public key.
    PrivateKey,
}

impl<C: AccountComponents> Account<C> {
    /// The account's tag is the one recorded in its private key.
    pub open spec fn tag_consistent(self) -> bool {
        self.is_testnet == C::network_tag(self.private_key)
    }

    /// The account's public key is the one derived from its private key under
    /// `commitment_parameters`.
    pub open spec fn derived_under(self, commitment_parameters: C::CommitmentParameters) -> bool {
        C::derivation(commitment_parameters, self.private_key) == Ok::<C::PublicKey, C::Error>(
            self.public_key,
        )
    }

    /// The account that an outcome of key generation leads to: a failure of
    /// generation or of derivation as it is, and else the generated key, the
    /// public key derived from it, and the tag recorded in it.
    pub open spec fn assembled(
        commitment_parameters: C::CommitmentParameters,
        generated: Result<C::PrivateKey, C::Error>,
    ) -> Result<Self, C::Error> {
        match generated {
            Err(failure) => Err(failure),
            Ok(private_key) => match C::derivation(commitment_parameters, private_key) {
                Err(failure) => Err(failure),
                Ok(public_key) => Ok(
                    (Account { public_key, private_key, is_testnet: C::network_tag(private_key) }),
                ),
            },
        }
    }

    /// The canonical bytes of an account: the public key, the private key,
    /// then one byte for the tag, with nothing before, between or after them.
    pub open spec fn encoding(self) -> Seq<u8> {
        C::public_key_encoding(self.public_key) + C::private_key_encoding(self.private_key)
            + seq![tag_byte(self.is_testnet)]
    }

    /// The account at the head of `input` and the number of bytes it takes
    /// up. Both keys must decode; the tag is whatever the bytes after them
    /// give, the test network included where they give none.
    pub open spec fn decoding(input: Seq<u8>) -> Result<(Self, nat), AccountReadError> {
        match C::public_key_decoding(input) {
            None => Err(AccountReadError::PublicKey),
            Some((public_key, public_len)) => match C::private_key_decoding(
                input.skip(public_len as int),
            ) {
                None => Err(AccountReadError::PrivateKey),
                Some((private_key, private_len)) => {
                    let rest = input.skip((public_len + private_len) as int);
                    Ok(
                        (
                            Account { public_key, private_key, is_testnet: trailing_tag(rest) },
                            public_len + private_len + tag_consumed(rest),
                        ),
                    )
                },
            },
        }
    }

    /// Creates an account: generates a private key, derives its public key,
    /// and takes the tag that generation recorded in the private key, not the
    /// one that was asked for. Randomness is drawn by key generation alone.
    pub fn new(
        signature_parameters: &C::SignatureParameters,
        commitment_parameters: &C::CommitmentParameters,
        metadata: &[u8; 32],
        is_testnet: Option<bool>,
        rng: &mut C::Randomness,
    ) -> (created: Result<Self, C::Error>)
        ensures
            exists|generated: Result<C::PrivateKey, C::Error>|
                #![auto]
                C::generation(
                    *signature_parameters,
                    *metadata,
                    is_testnet,
                    *old(rng),
                    *final(rng),
                    generated,
                ) && created == Self::assembled(*commitment_parameters, generated),
            created matches Ok(account) ==> account.tag_consistent() && account.derived_under(
                *commitment_parameters,
            ),
    {
        let generated = C::generate_private_key(signature_parameters, metadata, is_testnet, rng);
        Self::from_generated(commitment_parameters, generated)
    }

    /// Finishes construction from the outcome of key generation. A failed
    /// generation is the failure of construction, and nothing is derived from
    /// it; a failed derivation likewise; there is no account in between.
    pub fn from_generated(
        commitment_parameters: &C::CommitmentParameters,
        generated: Result<C::PrivateKey, C::Error>,
    ) -> (created: Result<Self, C::Error>)
        ensures
            created == Self::assembled(*commitment_parameters, generated),
            generated matches Err(failure) ==> created == Err::<Self, _>(failure),
    {
        match generated {
            Err(failure) => Err(failure),
            Ok(private_key) => match C::derive_public_key(commitment_parameters, &private_key) {
                Err(failure) => Err(failure),
                Ok(public_key) => {
                    let is_testnet = C::private_key_is_testnet(&private_key);
                    Ok(Account { public_key, private_key, is_testnet })
                },
            },
        }
    }

    /// Appends the account's canonical bytes to `out`.
    pub fn write(&self, out: &mut Vec<u8>)
        ensures
            final(out)@ == old(out)@ + self.encoding(),
    {
        C::write_public_key(&self.public_key, out);
        C::write_private_key(&self.private_key, out);
        write_tag(self.is_testnet, out);
        assert(out@ =~= old(out)@ + self.encoding());
    }

    /// Decodes the account at the head of `input`, and says how many bytes it
    /// took. Fails only where a key does not decode: a missing or unreadable
    /// tag makes a test-network account.
    pub fn read_prefix(input: &[u8]) -> (decoded: Result<(Self, usize), AccountReadError>)
        ensures
            match decoded {
                Ok((account, taken)) => {
                    &&& taken <= input@.len()
                    &&& Self::decoding(input@) == Ok::<(Self, nat), AccountReadError>(
                        (account, taken as nat),
                    )
                },
                Err(failure) => Self::decoding(input@) == Err::<(Self, nat), _>(failure),
            },
    {
        let (public_key, public_len) = match C::read_public_key(input) {
            Some(found) => found,
            None => { return Err(AccountReadError::PublicKey); },
        };
        let after_public = slice_subrange(input, public_len, input.len());
        let (private_key, private_len) = match C::read_private_key(after_public) {
            Some(found) => found,
            None => { return Err(AccountReadError::PrivateKey); },
        };
        let keys_len: usize = public_len + private_len;
        let rest = slice_subrange(input, keys_len, input.len());
        let is_testnet = resolve_tag(read_tag(rest));
        let taken: usize = if rest.len() == 0 {
            keys_len
        } else {
            keys_len + 1
        };
        Ok((Account { public_key, private_key, is_testnet }, taken))
    }

    /// Decodes the account at the head of `input`.
    pub fn read(input: &[u8]) -> (decoded: Result<Self, AccountReadError>)
        ensures
            match decoded {
                Ok(account) => Self::decoding(input@) matches Ok((found, _)) && found == account,
                Err(failure) => Self::decoding(input@) == Err::<(Self, nat), _>(failure),
            },
    {
        match Self::read_prefix(input) {
            Ok((account, _)) => Ok(account),
            Err(failure) => Err(failure),
        }
    }
}

impl<C: AccountComponents> Clone for Account<C> {
    /// Copies the account field by field.
    fn clone(&self) -> (copy: Self)
        ensures
            copy == *self,
    {
        Account {
            public_key: C::clone_public_key(&self.public_key),
            private_key: C::clone_private_key(&self.private_key),
            is_testnet: self.is_testnet,
        }
    }
}

} // verus!
