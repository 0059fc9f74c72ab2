use anvil_rpc::account::{BasicAccount, Hash256, U256Value, empty_code_hash, empty_trie_root};

#[test]
fn default_account_fields() {
    let a = BasicAccount::default();
    assert_eq!(a.nonce, U256Value { w0: 0, w1: 0, w2: 0, w3: 0 });
    assert_eq!(a.balance, U256Value { w0: 0, w1: 0, w2: 0, w3: 0 });
    assert_eq!(a.code_hash, empty_code_hash());
    assert_eq!(a.storage_root, empty_trie_root());
}

#[test]
fn two_defaults_are_equal() {
    assert_eq!(BasicAccount::default(), BasicAccount::default());
}

#[test]
fn code_hash_matches_keccak_of_empty_code() {
    let digest = alloy_primitives::keccak256(&[] as &[u8]);
    let a = BasicAccount::default();
    assert_eq!(a.code_hash.to_be_bytes().as_slice(), digest.as_slice());
    assert_eq!(
        a.code_hash.to_be_bytes().as_slice(),
        alloy_primitives::KECCAK256_EMPTY.as_slice()
    );
}

#[test]
fn storage_root_matches_keccak_of_empty_trie_encoding() {
    // an empty trie encodes as the single byte 0x80
    let digest = alloy_primitives::keccak256(&[0x80u8] as &[u8]);
    let a = BasicAccount::default();
    assert_eq!(a.storage_root.to_be_bytes().as_slice(), digest.as_slice());
}

#[test]
fn structural_equality_is_independent_of_construction_order() {
    let root = Hash256 { w0: 1, w1: 2, w2: 3, w3: 4 };
    let code = Hash256 { w0: 5, w1: 6, w2: 7, w3: 8 };
    let first = BasicAccount {
        nonce: U256Value { w0: 0, w1: 0, w2: 0, w3: 9 },
        balance: U256Value { w0: 0, w1: 0, w2: 0, w3: 100 },
        storage_root: root,
        code_hash: code,
    };
    let second = BasicAccount {
        code_hash: code,
        storage_root: root,
        balance: U256Value { w0: 0, w1: 0, w2: 0, w3: 100 },
        nonce: U256Value { w0: 0, w1: 0, w2: 0, w3: 9 },
    };
    assert_eq!(first, second);
    assert_eq!(second, first);
}

#[test]
fn accounts_differing_in_one_field_are_unequal() {
    let a = BasicAccount::default();
    let mut b = BasicAccount::default();
    b.balance = U256Value { w0: 0, w1: 0, w2: 0, w3: 1 };
    assert_ne!(a, b);
}

#[test]
fn hash_bytes_come_out_big_endian() {
    let h = Hash256 { w0: 0x0001020304050607, w1: 0x08090a0b0c0d0e0f, w2: 0, w3: 0xff00000000000042 };
    let bytes = h.to_be_bytes();
    assert_eq!(bytes.len(), 32);
    assert_eq!(&bytes[0..8], &[0x00, 0x01, 0x02, 0x03, 0x04, 0x05, 0x06, 0x07]);
    assert_eq!(&bytes[8..16], &[0x08, 0x09, 0x0a, 0x0b, 0x0c, 0x0d, 0x0e, 0x0f]);
    assert_eq!(bytes[16], 0);
    assert_eq!(bytes[24], 0xff);
    assert_eq!(bytes[31], 0x42);
}

#[test]
fn empty_code_hash_has_canonical_bytes() {
    let bytes = empty_code_hash().to_be_bytes();
    assert_eq!(bytes[0], 0xc5);
    assert_eq!(bytes[1], 0xd2);
    assert_eq!(bytes[31], 0x70);
}

#[test]
fn quantity_bytes_come_out_big_endian() {
    let v = U256Value { w0: 0, w1: 0, w2: 0, w3: 0x0102030405060708 };
    let bytes = v.to_be_bytes();
    assert_eq!(bytes.len(), 32);
    assert!(bytes[..24].iter().all(|b| *b == 0));
    assert_eq!(&bytes[24..], &[1, 2, 3, 4, 5, 6, 7, 8]);
}

#[test]
fn default_account_quantities_encode_as_zero() {
    let a = BasicAccount::default();
    assert!(a.nonce.to_be_bytes().iter().all(|b| *b == 0));
    assert!(a.balance.to_be_bytes().iter().all(|b| *b == 0));
}

#[test]
fn zero_word_is_all_zero_limbs() {
    assert_eq!(U256Value::zero(), U256Value { w0: 0, w1: 0, w2: 0, w3: 0 });
}
