use snarkos_account::account::{Account, AccountReadError};
use snarkos_account::components::AccountComponents;
use snarkos_account::network_tag::resolve_tag;
use snarkos_account::plain::{
    PlainCommitment, PlainComponents, PlainError, PlainPrivateKey, PlainPublicKey,
    PlainRandomness, PlainSignature,
};

type PlainAccount = Account<PlainComponents>;

fn signing() -> PlainSignature {
    PlainSignature { default_testnet: true }
}

fn committing() -> PlainCommitment {
    PlainCommitment { mask: 0xffff_0000 }
}

/// Metadata whose first eight bytes read as the word `0x0f`.
fn metadata() -> [u8; 32] {
    let mut metadata = [0u8; 32];
    metadata[0] = 0x0f;
    metadata[8] = 0xee;
    metadata[31] = 0xdd;
    metadata
}

fn randomness(words: &[u64]) -> PlainRandomness {
    PlainRandomness { words: words.to_vec() }
}

fn sample(is_testnet: bool) -> PlainAccount {
    Account {
        public_key: PlainPublicKey { commitment: 0x0102_0304_0506_0708 },
        private_key: PlainPrivateKey { seed: 0x1112_1314_1516_1718, is_testnet },
        is_testnet,
    }
}

fn encode(account: &PlainAccount) -> Vec<u8> {
    let mut out = Vec::new();
    account.write(&mut out);
    out
}

/// The two keys of `sample(false)`, encoded.
const KEYS: [u8; 17] = [
    0x08, 0x07, 0x06, 0x05, 0x04, 0x03, 0x02, 0x01, 0x18, 0x17, 0x16, 0x15, 0x14, 0x13, 0x12,
    0x11, 0x00,
];

fn keys_then(rest: &[u8]) -> Vec<u8> {
    let mut bytes = KEYS.to_vec();
    bytes.extend_from_slice(rest);
    bytes
}

#[test]
fn new_copies_the_tag_of_the_private_key() {
    for requested in [Some(true), Some(false), None] {
        for default_testnet in [true, false] {
            let mut rng = randomness(&[7]);
            let account = PlainAccount::new(
                &PlainSignature { default_testnet },
                &committing(),
                &metadata(),
                requested,
                &mut rng,
            )
            .unwrap();
            assert_eq!(account.is_testnet, account.private_key.is_testnet);
            assert_eq!(
                account.is_testnet,
                PlainComponents::private_key_is_testnet(&account.private_key)
            );
        }
    }
}

#[test]
fn new_takes_the_resolved_tag_not_the_request() {
    let mut rng = randomness(&[1, 2, 3]);
    let production = PlainSignature { default_testnet: false };
    let account = PlainAccount::new(&production, &committing(), &metadata(), None, &mut rng);
    assert!(!account.unwrap().is_testnet);
    let account = PlainAccount::new(&signing(), &committing(), &metadata(), None, &mut rng);
    assert!(account.unwrap().is_testnet);
    let account = PlainAccount::new(&signing(), &committing(), &metadata(), Some(false), &mut rng);
    assert!(!account.unwrap().is_testnet);
    assert!(rng.words.is_empty());
}

#[test]
fn new_derives_the_public_key_from_the_generated_key() {
    let mut rng = randomness(&[5, 0x1122_3344_5566_7788]);
    let account =
        PlainAccount::new(&signing(), &committing(), &metadata(), Some(true), &mut rng).unwrap();
    assert_eq!(
        account.private_key,
        PlainPrivateKey { seed: 0x1122_3344_5566_7787, is_testnet: true }
    );
    assert_eq!(account.public_key, PlainPublicKey { commitment: 0x1122_3344_aa99_7787 });
    assert_eq!(
        PlainComponents::derive_public_key(&committing(), &account.private_key),
        Ok(account.public_key)
    );
    assert_eq!(rng.words, vec![5]);
}

#[test]
fn new_hands_the_metadata_to_generation() {
    let mut other = [0u8; 32];
    for (i, byte) in other.iter_mut().enumerate().take(8) {
        *byte = i as u8 + 1;
    }
    let mut rng = randomness(&[0x42]);
    let account = PlainAccount::new(&signing(), &committing(), &other, None, &mut rng).unwrap();
    assert_eq!(account.private_key.seed, 0x0807_0605_0403_0243);
    assert_eq!(account.public_key.commitment, 0x0807_0605_fbfc_0243);
}

#[test]
fn new_fails_when_generation_fails() {
    let mut rng = randomness(&[]);
    let created = PlainAccount::new(&signing(), &committing(), &metadata(), Some(true), &mut rng);
    assert_eq!(created.err(), Some(PlainError::OutOfRandomness));
    assert!(rng.words.is_empty());
}

#[test]
fn new_fails_when_derivation_fails() {
    let mut rng = randomness(&[0x0f]);
    let created = PlainAccount::new(&signing(), &committing(), &metadata(), None, &mut rng);
    assert_eq!(created.err(), Some(PlainError::ZeroSeed));
}

#[test]
fn from_generated_passes_a_failed_generation_on() {
    let created = PlainAccount::from_generated(&committing(), Err(PlainError::OutOfRandomness));
    assert_eq!(created.err(), Some(PlainError::OutOfRandomness));
    let created = PlainAccount::from_generated(&committing(), Err(PlainError::ZeroSeed));
    assert_eq!(created.err(), Some(PlainError::ZeroSeed));
}

#[test]
fn from_generated_binds_key_pair_and_tag() {
    for is_testnet in [true, false] {
        let private_key = PlainPrivateKey { seed: 0x1112_1314_1516_1718, is_testnet };
        let account = PlainAccount::from_generated(&committing(), Ok(private_key)).unwrap();
        assert_eq!(account.private_key, private_key);
        assert_eq!(account.public_key, PlainPublicKey { commitment: 0x1112_1314_eae9_1718 });
        assert_eq!(account.is_testnet, is_testnet);
    }
}

#[test]
fn from_generated_fails_when_derivation_fails() {
    let private_key = PlainPrivateKey { seed: 0, is_testnet: true };
    let created = PlainAccount::from_generated(&committing(), Ok(private_key));
    assert_eq!(created.err(), Some(PlainError::ZeroSeed));
}

#[test]
fn write_lays_out_public_key_private_key_tag() {
    assert_eq!(encode(&sample(false)), keys_then(&[0]));
    assert_eq!(
        encode(&sample(true)),
        vec![
            0x08, 0x07, 0x06, 0x05, 0x04, 0x03, 0x02, 0x01, 0x18, 0x17, 0x16, 0x15, 0x14, 0x13,
            0x12, 0x11, 0x01, 0x01
        ]
    );
}

#[test]
fn write_tag_byte_is_the_tag_of_the_account() {
    let mut account = sample(false);
    account.is_testnet = true;
    assert_eq!(encode(&account), keys_then(&[1]));
}

#[test]
fn write_appends_to_what_is_there() {
    let mut out = vec![0xee, 0xff];
    sample(false).write(&mut out);
    let mut expected = vec![0xee, 0xff];
    expected.extend_from_slice(&keys_then(&[0]));
    assert_eq!(out, expected);
}

#[test]
fn read_inverts_write() {
    for is_testnet in [true, false] {
        let mut rng = randomness(&[0x0123_4567_89ab_cdef]);
        let account =
            PlainAccount::new(&signing(), &committing(), &metadata(), Some(is_testnet), &mut rng)
                .unwrap();
        let bytes = encode(&account);
        let (decoded, taken) = PlainAccount::read_prefix(&bytes).unwrap();
        assert_eq!(decoded.public_key, account.public_key);
        assert_eq!(decoded.private_key, account.private_key);
        assert_eq!(decoded.is_testnet, account.is_testnet);
        assert_eq!(taken, bytes.len());
        assert_eq!(encode(&decoded), bytes);
    }
}

#[test]
fn read_without_tag_defaults_to_testnet() {
    let (account, taken) = PlainAccount::read_prefix(&KEYS).unwrap();
    assert!(account.is_testnet);
    assert_eq!(account.public_key, PlainPublicKey { commitment: 0x0102_0304_0506_0708 });
    assert_eq!(
        account.private_key,
        PlainPrivateKey { seed: 0x1112_1314_1516_1718, is_testnet: false }
    );
    assert_eq!(taken, 17);
}

#[test]
fn read_with_corrupt_tag_defaults_to_testnet() {
    for corrupt in [2u8, 3, 0x7f, 0x80, 0xff] {
        let (account, taken) = PlainAccount::read_prefix(&keys_then(&[corrupt])).unwrap();
        assert!(account.is_testnet);
        assert_eq!(account.public_key, PlainPublicKey { commitment: 0x0102_0304_0506_0708 });
        assert_eq!(taken, 18);
    }
}

#[test]
fn read_with_false_tag_is_production() {
    let account = PlainAccount::read(&keys_then(&[0])).ok().unwrap();
    assert!(!account.is_testnet);
}

#[test]
fn read_with_true_tag_is_testnet() {
    let account = PlainAccount::read(&keys_then(&[1])).ok().unwrap();
    assert!(account.is_testnet);
}

#[test]
fn read_after_corrupt_tag_writes_a_true_tag() {
    let account = PlainAccount::read(&keys_then(&[9])).ok().unwrap();
    assert_eq!(encode(&account), keys_then(&[1]));
}

#[test]
fn read_prefix_leaves_what_follows_the_tag() {
    let (account, taken) = PlainAccount::read_prefix(&keys_then(&[0, 1, 2, 3])).unwrap();
    assert!(!account.is_testnet);
    assert_eq!(taken, 18);
}

#[test]
fn read_fails_on_a_malformed_public_key() {
    assert_eq!(PlainAccount::read(&[]).err(), Some(AccountReadError::PublicKey));
    assert_eq!(PlainAccount::read(&KEYS[..7]).err(), Some(AccountReadError::PublicKey));
}

#[test]
fn read_fails_on_a_malformed_private_key() {
    assert_eq!(PlainAccount::read(&KEYS[..8]).err(), Some(AccountReadError::PrivateKey));
    assert_eq!(PlainAccount::read(&KEYS[..16]).err(), Some(AccountReadError::PrivateKey));
    let mut bytes = keys_then(&[0]);
    bytes[16] = 2;
    assert_eq!(PlainAccount::read_prefix(&bytes).err(), Some(AccountReadError::PrivateKey));
}

#[test]
fn clone_encodes_to_the_same_bytes() {
    for is_testnet in [true, false] {
        let account = sample(is_testnet);
        let copy = account.clone();
        assert_eq!(encode(&copy), encode(&account));
        assert_eq!(copy.public_key, account.public_key);
        assert_eq!(copy.private_key, account.private_key);
        assert_eq!(copy.is_testnet, account.is_testnet);
    }
}

#[test]
fn resolve_tag_defaults_to_testnet() {
    assert!(resolve_tag(None));
    assert!(resolve_tag(Some(true)));
    assert!(!resolve_tag(Some(false)));
}

#[test]
fn plain_keys_round_trip_on_their_own() {
    let mut out = Vec::new();
    let private_key = PlainPrivateKey { seed: 0xfeed_f00d, is_testnet: true };
    PlainComponents::write_private_key(&private_key, &mut out);
    assert_eq!(out, vec![0x0d, 0xf0, 0xed, 0xfe, 0, 0, 0, 0, 1]);
    out.push(0x55);
    assert_eq!(PlainComponents::read_private_key(&out), Some((private_key, 9)));
    let mut out = Vec::new();
    let public_key = PlainPublicKey { commitment: u64::MAX - 1 };
    PlainComponents::write_public_key(&public_key, &mut out);
    assert_eq!(out, vec![0xfe, 0xff, 0xff, 0xff, 0xff, 0xff, 0xff, 0xff]);
    assert_eq!(PlainComponents::read_public_key(&out), Some((public_key, 8)));
    assert_eq!(PlainComponents::clone_private_key(&private_key), private_key);
    assert_eq!(PlainComponents::clone_public_key(&public_key), public_key);
}
