//! The canonical account-state value used to populate state-proof
//! responses: a pure, immutable record with structural equality, whose
//! default instance is the protocol-defined empty account bit for bit.

use vstd::prelude::*;

verus! {

/// A 256-bit unsigned integer, held as four 64-bit limbs, most
/// significant first: the value is
/// `w0 * 2^192 + w1 * 2^128 + w2 * 2^64 + w3`.
#[derive(Clone, Copy, Debug, PartialEq, Eq, Structural)]
pub struct U256Value {
    pub w0: u64,
    pub w1: u64,
    pub w2: u64,
    pub w3: u64,
}

impl U256Value {
    /// The mathematical value of the four limbs.
    pub open spec fn as_nat(self) -> nat {
        (((self.w0 as nat) * 0x1000000000000000000000000000000000000000000000000)
            + ((self.w1 as nat) * 0x100000000000000000000000000000000)
            + ((self.w2 as nat) * 0x10000000000000000)
            + (self.w3 as nat)) as nat
    }

    /// The zero value.
    pub fn zero() -> (r: U256Value)
        ensures
            r.as_nat() == 0,
            r == (U256Value { w0: 0, w1: 0, w2: 0, w3: 0 }),
    {
        U256Value { w0: 0, w1: 0, w2: 0, w3: 0 }
    }

    /// The limb that holds byte `i` of the big-endian byte order.
    pub open spec fn spec_limb(self, i: int) -> u64 {
        if i < 8 {
            self.w0
        } else if i < 16 {
            self.w1
        } else if i < 24 {
            self.w2
        } else {
            self.w3
        }
    }

    /// Byte `i` of the value in big-endian order.
    pub open spec fn spec_byte(self, i: int) -> u8 {
        ((self.spec_limb(i) >> ((((7 - (i % 8)) * 8)) as u64)) & 0xff) as u8
    }

    /// The 32 bytes of the value in big-endian order, as response
    /// envelopes carry quantities.
    pub fn to_be_bytes(&self) -> (r: Vec<u8>)
        ensures
            r@.len() == 32,
            forall|i: int| 0 <= i < 32 ==> r@[i] == self.spec_byte(i),
    {
        let mut out: Vec<u8> = Vec::new();
        let mut i: usize = 0;
        while i < 32
            invariant
                i <= 32,
                out@.len() == i as int,
                forall|k: int| 0 <= k < i ==> out@[k] == self.spec_byte(k),
            decreases 32 - i,
        {
            let limb: u64 = if i < 8 {
                self.w0
            } else if i < 16 {
                self.w1
            } else if i < 24 {
                self.w2
            } else {
                self.w3
            };
            let sh: u64 = ((7 - (i % 8)) * 8) as u64;
            let b64: u64 = (limb >> sh) & 0xff;
            assert((limb >> sh) & 0xff < 256) by (bit_vector);
            out.push(b64 as u8);
            i += 1;
        }
        out
    }
}

/// The mathematical value is zero exactly when every limb is zero: the
/// limb representation of zero is unique.
pub proof fn lemma_zero_value_unique(v: U256Value)
    ensures
        v.as_nat() == 0 <==> v == (U256Value { w0: 0, w1: 0, w2: 0, w3: 0 }),
{
}

/// A 256-bit hash, held as four 64-bit limbs in big-endian order: `w0`
/// holds bytes 0 to 7 of the digest, `w3` bytes 24 to 31.
#[derive(Clone, Copy, Debug, PartialEq, Eq, Structural)]
pub struct Hash256 {
    pub w0: u64,
    pub w1: u64,
    pub w2: u64,
    pub w3: u64,
}

impl Hash256 {
    /// The limb that holds byte `i` of the big-endian byte order.
    pub open spec fn spec_limb(self, i: int) -> u64 {
        if i < 8 {
            self.w0
        } else if i < 16 {
            self.w1
        } else if i < 24 {
            self.w2
        } else {
            self.w3
        }
    }

    /// Byte `i` of the hash in big-endian order.
    pub open spec fn spec_byte(self, i: int) -> u8 {
        ((self.spec_limb(i) >> ((((7 - (i % 8)) * 8)) as u64)) & 0xff) as u8
    }

    /// The 32 bytes of the hash in big-endian order, as response
    /// envelopes carry them.
    pub fn to_be_bytes(&self) -> (r: Vec<u8>)
        ensures
            r@.len() == 32,
            forall|i: int| 0 <= i < 32 ==> r@[i] == self.spec_byte(i),
    {
        let mut out: Vec<u8> = Vec::new();
        let mut i: usize = 0;
        while i < 32
            invariant
                i <= 32,
                out@.len() == i as int,
                forall|k: int| 0 <= k < i ==> out@[k] == self.spec_byte(k),
            decreases 32 - i,
        {
            let limb: u64 = if i < 8 {
                self.w0
            } else if i < 16 {
                self.w1
            } else if i < 24 {
                self.w2
            } else {
                self.w3
            };
            let sh: u64 = ((7 - (i % 8)) * 8) as u64;
            let b64: u64 = (limb >> sh) & 0xff;
            assert((limb >> sh) & 0xff < 256) by (bit_vector);
            out.push(b64 as u8);
            i += 1;
        }
        out
    }
}

/// A 64-bit limb is determined by its eight big-endian bytes.
proof fn lemma_limb_from_bytes(x: u64, y: u64)
    requires
        ((x >> 56) & 0xff) as u8 == ((y >> 56) & 0xff) as u8,
        ((x >> 48) & 0xff) as u8 == ((y >> 48) & 0xff) as u8,
        ((x >> 40) & 0xff) as u8 == ((y >> 40) & 0xff) as u8,
        ((x >> 32) & 0xff) as u8 == ((y >> 32) & 0xff) as u8,
        ((x >> 24) & 0xff) as u8 == ((y >> 24) & 0xff) as u8,
        ((x >> 16) & 0xff) as u8 == ((y >> 16) & 0xff) as u8,
        ((x >> 8) & 0xff) as u8 == ((y >> 8) & 0xff) as u8,
        ((x >> 0) & 0xff) as u8 == ((y >> 0) & 0xff) as u8,
    ensures
        x == y,
{
    assert((x >> 56) & 0xff < 256 && (x >> 48) & 0xff < 256 && (x >> 40) & 0xff < 256 && (x >> 32)
        & 0xff < 256 && (x >> 24) & 0xff < 256 && (x >> 16) & 0xff < 256 && (x >> 8) & 0xff < 256
        && (x >> 0) & 0xff < 256) by (bit_vector);
    assert((y >> 56) & 0xff < 256 && (y >> 48) & 0xff < 256 && (y >> 40) & 0xff < 256 && (y >> 32)
        & 0xff < 256 && (y >> 24) & 0xff < 256 && (y >> 16) & 0xff < 256 && (y >> 8) & 0xff < 256
        && (y >> 0) & 0xff < 256) by (bit_vector);
    assert(x == y) by (bit_vector)
        requires
            (x >> 56) & 0xff == (y >> 56) & 0xff,
            (x >> 48) & 0xff == (y >> 48) & 0xff,
            (x >> 40) & 0xff == (y >> 40) & 0xff,
            (x >> 32) & 0xff == (y >> 32) & 0xff,
            (x >> 24) & 0xff == (y >> 24) & 0xff,
            (x >> 16) & 0xff == (y >> 16) & 0xff,
            (x >> 8) & 0xff == (y >> 8) & 0xff,
            (x >> 0) & 0xff == (y >> 0) & 0xff,
    ;
}

/// A hash is determined by its big-endian byte order: two hashes whose
/// 32 bytes agree are the same hash, so agreement bit for bit is
/// agreement of the values.
pub proof fn lemma_bytes_determine_hash(a: Hash256, b: Hash256)
    requires
        forall|i: int| 0 <= i < 32 ==> a.spec_byte(i) == b.spec_byte(i),
    ensures
        a == b,
{
    assert(((a.w0 >> 56) & 0xff) as u8 == ((b.w0 >> 56) & 0xff) as u8) by {
        assert(a.spec_byte(0) == b.spec_byte(0));
    }
    assert(((a.w0 >> 48) & 0xff) as u8 == ((b.w0 >> 48) & 0xff) as u8) by {
        assert(a.spec_byte(1) == b.spec_byte(1));
    }
    assert(((a.w0 >> 40) & 0xff) as u8 == ((b.w0 >> 40) & 0xff) as u8) by {
        assert(a.spec_byte(2) == b.spec_byte(2));
    }
    assert(((a.w0 >> 32) & 0xff) as u8 == ((b.w0 >> 32) & 0xff) as u8) by {
        assert(a.spec_byte(3) == b.spec_byte(3));
    }
    assert(((a.w0 >> 24) & 0xff) as u8 == ((b.w0 >> 24) & 0xff) as u8) by {
        assert(a.spec_byte(4) == b.spec_byte(4));
    }
    assert(((a.w0 >> 16) & 0xff) as u8 == ((b.w0 >> 16) & 0xff) as u8) by {
        assert(a.spec_byte(5) == b.spec_byte(5));
    }
    assert(((a.w0 >> 8) & 0xff) as u8 == ((b.w0 >> 8) & 0xff) as u8) by {
        assert(a.spec_byte(6) == b.spec_byte(6));
    }
    assert(((a.w0 >> 0) & 0xff) as u8 == ((b.w0 >> 0) & 0xff) as u8) by {
        assert(a.spec_byte(7) == b.spec_byte(7));
    }
    lemma_limb_from_bytes(a.w0, b.w0);
    assert(((a.w1 >> 56) & 0xff) as u8 == ((b.w1 >> 56) & 0xff) as u8) by {
        assert(a.spec_byte(8) == b.spec_byte(8));
    }
    assert(((a.w1 >> 48) & 0xff) as u8 == ((b.w1 >> 48) & 0xff) as u8) by {
        assert(a.spec_byte(9) == b.spec_byte(9));
    }
    assert(((a.w1 >> 40) & 0xff) as u8 == ((b.w1 >> 40) & 0xff) as u8) by {
        assert(a.spec_byte(10) == b.spec_byte(10));
    }
    assert(((a.w1 >> 32) & 0xff) as u8 == ((b.w1 >> 32) & 0xff) as u8) by {
        assert(a.spec_byte(11) == b.spec_byte(11));
    }
    assert(((a.w1 >> 24) & 0xff) as u8 == ((b.w1 >> 24) & 0xff) as u8) by {
        assert(a.spec_byte(12) == b.spec_byte(12));
    }
    assert(((a.w1 >> 16) & 0xff) as u8 == ((b.w1 >> 16) & 0xff) as u8) by {
        assert(a.spec_byte(13) == b.spec_byte(13));
    }
    assert(((a.w1 >> 8) & 0xff) as u8 == ((b.w1 >> 8) & 0xff) as u8) by {
        assert(a.spec_byte(14) == b.spec_byte(14));
    }
    assert(((a.w1 >> 0) & 0xff) as u8 == ((b.w1 >> 0) & 0xff) as u8) by {
        assert(a.spec_byte(15) == b.spec_byte(15));
    }
    lemma_limb_from_bytes(a.w1, b.w1);
    assert(((a.w2 >> 56) & 0xff) as u8 == ((b.w2 >> 56) & 0xff) as u8) by {
        assert(a.spec_byte(16) == b.spec_byte(16));
    }
    assert(((a.w2 >> 48) & 0xff) as u8 == ((b.w2 >> 48) & 0xff) as u8) by {
        assert(a.spec_byte(17) == b.spec_byte(17));
    }
    assert(((a.w2 >> 40) & 0xff) as u8 == ((b.w2 >> 40) & 0xff) as u8) by {
        assert(a.spec_byte(18) == b.spec_byte(18));
    }
    assert(((a.w2 >> 32) & 0xff) as u8 == ((b.w2 >> 32) & 0xff) as u8) by {
        assert(a.spec_byte(19) == b.spec_byte(19));
    }
    assert(((a.w2 >> 24) & 0xff) as u8 == ((b.w2 >> 24) & 0xff) as u8) by {
        assert(a.spec_byte(20) == b.spec_byte(20));
    }
    assert(((a.w2 >> 16) & 0xff) as u8 == ((b.w2 >> 16) & 0xff) as u8) by {
        assert(a.spec_byte(21) == b.spec_byte(21));
    }
    assert(((a.w2 >> 8) & 0xff) as u8 == ((b.w2 >> 8) & 0xff) as u8) by {
        assert(a.spec_byte(22) == b.spec_byte(22));
    }
    assert(((a.w2 >> 0) & 0xff) as u8 == ((b.w2 >> 0) & 0xff) as u8) by {
        assert(a.spec_byte(23) == b.spec_byte(23));
    }
    lemma_limb_from_bytes(a.w2, b.w2);
    assert(((a.w3 >> 56) & 0xff) as u8 == ((b.w3 >> 56) & 0xff) as u8) by {
        assert(a.spec_byte(24) == b.spec_byte(24));
    }
    assert(((a.w3 >> 48) & 0xff) as u8 == ((b.w3 >> 48) & 0xff) as u8) by {
        assert(a.spec_byte(25) == b.spec_byte(25));
    }
    assert(((a.w3 >> 40) & 0xff) as u8 == ((b.w3 >> 40) & 0xff) as u8) by {
        assert(a.spec_byte(26) == b.spec_byte(26));
    }
    assert(((a.w3 >> 32) & 0xff) as u8 == ((b.w3 >> 32) & 0xff) as u8) by {
        assert(a.spec_byte(27) == b.spec_byte(27));
    }
    assert(((a.w3 >> 24) & 0xff) as u8 == ((b.w3 >> 24) & 0xff) as u8) by {
        assert(a.spec_byte(28) == b.spec_byte(28));
    }
    assert(((a.w3 >> 16) & 0xff) as u8 == ((b.w3 >> 16) & 0xff) as u8) by {
        assert(a.spec_byte(29) == b.spec_byte(29));
    }
    assert(((a.w3 >> 8) & 0xff) as u8 == ((b.w3 >> 8) & 0xff) as u8) by {
        assert(a.spec_byte(30) == b.spec_byte(30));
    }
    assert(((a.w3 >> 0) & 0xff) as u8 == ((b.w3 >> 0) & 0xff) as u8) by {
        assert(a.spec_byte(31) == b.spec_byte(31));
    }
    lemma_limb_from_bytes(a.w3, b.w3);
}

/// The Keccak-256 digest of the empty byte string: the code hash of an
/// account that holds no code.
pub open spec fn spec_empty_code_hash() -> Hash256 {
    Hash256 {
        w0: 0xc5d2460186f7233c,
        w1: 0x927e7db2dcc703c0,
        w2: 0xe500b653ca82273b,
        w3: 0x7bfad8045d85a470,
    }
}

/// The Keccak-256 digest of the encoding of an empty trie: the storage
/// root of an account with no storage.
pub open spec fn spec_empty_trie_root() -> Hash256 {
    Hash256 {
        w0: 0x56e81f171bcc55a6,
        w1: 0xff8345e692c0f86e,
        w2: 0x5b48e01b996cadc0,
        w3: 0x01622fb5e363b421,
    }
}

/// The code hash of an account that holds no code.
pub fn empty_code_hash() -> (r: Hash256)
    ensures
        r == spec_empty_code_hash(),
{
    Hash256 {
        w0: 0xc5d2460186f7233c,
        w1: 0x927e7db2dcc703c0,
        w2: 0xe500b653ca82273b,
        w3: 0x7bfad8045d85a470,
    }
}

/// The storage root of an account with no storage.
pub fn empty_trie_root() -> (r: Hash256)
    ensures
        r == spec_empty_trie_root(),
{
    Hash256 {
        w0: 0x56e81f171bcc55a6,
        w1: 0xff8345e692c0f86e,
        w2: 0x5b48e01b996cadc0,
        w3: 0x01622fb5e363b421,
    }
}

/// Basic account type: the value that answers a state-proof query.
/// Immutable once constructed; equality is structural and nothing else.
#[derive(Clone, Copy, Debug, PartialEq, Eq, Structural)]
pub struct BasicAccount {
    /// Nonce of the account.
    pub nonce: U256Value,
    /// Balance of the account.
    pub balance: U256Value,
    /// Storage root of the account.
    pub storage_root: Hash256,
    /// Code hash of the account.
    pub code_hash: Hash256,
}

/// The protocol-defined empty account: zero nonce and balance, the
/// empty-code hash, and the empty-trie root.
pub open spec fn spec_default_account() -> BasicAccount {
    BasicAccount {
        nonce: U256Value { w0: 0, w1: 0, w2: 0, w3: 0 },
        balance: U256Value { w0: 0, w1: 0, w2: 0, w3: 0 },
        storage_root: spec_empty_trie_root(),
        code_hash: spec_empty_code_hash(),
    }
}

impl Default for BasicAccount {
    /// The account returned for an address that is absent from backend
    /// state.
    fn default() -> (r: Self)
        ensures
            r == spec_default_account(),
    {
        BasicAccount {
            balance: U256Value::zero(),
            nonce: U256Value::zero(),
            code_hash: empty_code_hash(),
            storage_root: empty_trie_root(),
        }
    }
}

/// The default account is the empty account: zero nonce, zero balance,
/// the canonical empty-code hash and empty-trie root; and any two
/// default instances are equal.
pub proof fn lemma_default_is_empty_account()
    ensures
        spec_default_account().nonce.as_nat() == 0,
        spec_default_account().balance.as_nat() == 0,
        spec_default_account().code_hash == spec_empty_code_hash(),
        spec_default_account().storage_root == spec_empty_trie_root(),
{
}

/// Equality of accounts is structural: two accounts are equal exactly
/// when all four fields agree, however and in whatever order the two
/// values were constructed.
pub proof fn lemma_structural_equality(a: BasicAccount, b: BasicAccount)
    ensures
        (a == b) <==> (a.nonce == b.nonce && a.balance == b.balance && a.storage_root
            == b.storage_root && a.code_hash == b.code_hash),
{
}

} // verus!
