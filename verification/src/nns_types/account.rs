//! Account identifiers of the ledger: the digest of an owner and a
//! subaccount, written with a check sum in front.
use vstd::prelude::*;
use crate::hex_text::{bytes_to_hex, decode_payload, encode_payload, hex_to_bytes, is_hex_text};
use crate::nns_types::utils::Subaccount;
use crate::principal::Principal;

verus! {

/// The number of bytes in the digest of an account.
pub const ACCOUNT_HASH_LENGTH: usize = 28;

/// The number of bytes in an account identifier with its check sum.
pub const ACCOUNT_LENGTH: usize = 32;

/// The SHA-224 digest of a byte string.
pub uninterp spec fn sha224(data: Seq<u8>) -> Seq<u8>;

/// The CRC-32 check sum of a byte string.
pub uninterp spec fn crc32(data: Seq<u8>) -> u32;

/// `openssl::sha::sha224`: the digest depends on the data alone, and has 28
/// bytes.
#[verifier::external_body]
fn sha224_digest(data: &Vec<u8>) -> (digest: Vec<u8>)
    ensures
        digest@ == sha224(data@),
        digest@.len() == ACCOUNT_HASH_LENGTH,
{
    openssl::sha::sha224(data.as_slice()).to_vec()
}

/// `crc32fast::hash`: the check sum depends on the data alone.
#[verifier::external_body]
fn crc32_hash(data: &Vec<u8>) -> (sum: u32)
    ensures
        sum == crc32(data@),
{
    crc32fast::hash(data.as_slice())
}

/// The four bytes of a number, the most significant first.
pub open spec fn be_bytes32(n: u32) -> Seq<u8> {
    seq![
        (n as int / 0x100_0000) as u8,
        (n as int / 0x1_0000 % 256) as u8,
        (n as int / 0x100 % 256) as u8,
        (n as int % 256) as u8,
    ]
}

/// The bytes of the words `account-id`, after their length.
pub open spec fn account_domain() -> Seq<u8> {
    seq![10u8, 97u8, 99u8, 99u8, 111u8, 117u8, 110u8, 116u8, 45u8, 105u8, 100u8]
}

/// Thirty-two zero bytes: the subaccount of an account that names none.
pub open spec fn zero_subaccount() -> Seq<u8> {
    Seq::new(32, |i: int| 0u8)
}

/// What is hashed to an account: the domain, the owner, and the subaccount,
/// or zeros where there is none.
pub open spec fn account_preimage(owner: Seq<u8>, subaccount: Option<Seq<u8>>) -> Seq<u8> {
    account_domain() + owner + match subaccount {
        Some(s) => s,
        None => zero_subaccount(),
    }
}

/// An account identifier as it is written: the check sum of the digest, and
/// the digest.
pub open spec fn account_bytes(hash: Seq<u8>) -> Seq<u8> {
    be_bytes32(crc32(hash)) + hash
}

/// Whether 32 bytes are an account identifier: their first four are the
/// check sum of the rest.
pub open spec fn is_account_bytes(bytes: Seq<u8>) -> bool {
    bytes.len() == ACCOUNT_LENGTH && bytes.subrange(0, 4) == be_bytes32(
        crc32(bytes.subrange(4, 32)),
    )
}

/// Why a text is no account identifier.
#[derive(Clone, Copy, Debug, PartialEq, Eq, Structural)]
pub enum AccountError {
    /// The text is not hexadecimal.
    NotHexadecimal,
    /// The text does not stand for 32 bytes.
    WrongLength,
    /// The check sum does not fit the digest.
    ChecksumMismatch,
}

/// An account of the ledger.
#[derive(Debug)]
pub struct AccountIdentifier {
    hash: Vec<u8>,
}

impl View for AccountIdentifier {
    type V = Seq<u8>;

    closed spec fn view(&self) -> Seq<u8> {
        self.hash@
    }
}

/// The four bytes of a number, the most significant first.
pub fn to_be_bytes32(n: u32) -> (r: Vec<u8>)
    ensures
        r@ == be_bytes32(n),
{
    let mut r: Vec<u8> = Vec::new();
    r.push((n / 0x100_0000) as u8);
    r.push((n / 0x1_0000 % 256) as u8);
    r.push((n / 0x100 % 256) as u8);
    r.push((n % 256) as u8);
    assert(r@ =~= be_bytes32(n));
    r
}

/// The part of `bytes` from `from` up to `to`.
pub fn slice_of(bytes: &Vec<u8>, from: usize, to: usize) -> (r: Vec<u8>)
    requires
        from <= to <= bytes@.len(),
    ensures
        r@ == bytes@.subrange(from as int, to as int),
{
    let mut r: Vec<u8> = Vec::new();
    let mut i: usize = from;
    while i < to
        invariant
            from <= i <= to <= bytes@.len(),
            r@ == bytes@.subrange(from as int, i as int),
        decreases to - i,
    {
        r.push(bytes[i]);
        assert(r@ =~= bytes@.subrange(from as int, i + 1));
        i += 1;
    }
    r
}

/// Whether two byte strings hold the same bytes.
pub fn same_bytes(a: &Vec<u8>, b: &Vec<u8>) -> (r: bool)
    ensures
        r == (a@ == b@),
{
    if a.len() != b.len() {
        return false;
    }
    let mut i: usize = 0;
    while i < a.len()
        invariant
            a@.len() == b@.len(),
            0 <= i <= a@.len(),
            forall|k: int| 0 <= k < i ==> a@[k] == b@[k],
        decreases a.len() - i,
    {
        if a[i] != b[i] {
            return false;
        }
        i += 1;
    }
    assert(a@ =~= b@);
    true
}

impl AccountIdentifier {
    /// The digest of an account has 28 bytes.
    #[verifier::type_invariant]
    pub closed spec fn well_formed(&self) -> bool {
        self.hash@.len() == ACCOUNT_HASH_LENGTH
    }

    /// The account of `owner` under `subaccount`, or the owner's main
    /// account where there is none: the SHA-224 digest of the domain, the
    /// owner and the subaccount.
    pub fn new(owner: &Principal, subaccount: Option<Subaccount>) -> (a: AccountIdentifier)
        ensures
            a@ == sha224(
                account_preimage(
                    owner@,
                    match subaccount {
                        Some(s) => Some(s.0@),
                        None => None,
                    },
                ),
            ),
            a@.len() == ACCOUNT_HASH_LENGTH,
    {
        let mut data: Vec<u8> = vec![10u8, 97u8, 99u8, 99u8, 111u8, 117u8, 110u8, 116u8, 45u8, 105u8, 100u8];
        assert(data@ =~= account_domain());
        let mut owner_bytes = owner.as_slice().clone();
        data.append(&mut owner_bytes);
        let ghost target = match subaccount {
            Some(s) => s.0@,
            None => zero_subaccount(),
        };
        let mut tail: Vec<u8> = Vec::new();
        let mut i: usize = 0;
        while i < 32
            invariant
                0 <= i <= 32,
                target.len() == 32,
                target == (match subaccount {
                    Some(s) => s.0@,
                    None => zero_subaccount(),
                }),
                tail@.len() == i,
                forall|k: int| 0 <= k < i ==> #[trigger] tail@[k] == target[k],
            decreases 32 - i,
        {
            let byte: u8 = match subaccount {
                Some(s) => s.0[i],
                None => 0,
            };
            tail.push(byte);
            i += 1;
        }
        assert(tail@ =~= target);
        data.append(&mut tail);
        assert(data@ =~= account_preimage(
            owner@,
            match subaccount {
                Some(s) => Some(s.0@),
                None => None,
            },
        ));
        AccountIdentifier { hash: sha224_digest(&data) }
    }

    /// The digest of the account.
    pub fn hash(&self) -> (r: &Vec<u8>)
        ensures
            r@ == self@,
            r@.len() == ACCOUNT_HASH_LENGTH,
    {
        proof {
            use_type_invariant(self);
        }
        &self.hash
    }

    /// The check sum of the account: the CRC-32 of its digest, the most
    /// significant byte first.
    pub fn generate_checksum(&self) -> (r: Vec<u8>)
        ensures
            r@ == be_bytes32(crc32(self@)),
    {
        to_be_bytes32(crc32_hash(&self.hash))
    }

    /// The account as it is written: check sum, then digest.
    pub fn to_vec(&self) -> (r: Vec<u8>)
        ensures
            r@ == account_bytes(self@),
            is_account_bytes(r@),
    {
        proof {
            use_type_invariant(self);
        }
        let mut r = self.generate_checksum();
        let mut digest = self.hash.clone();
        r.append(&mut digest);
        assert(r@ =~= account_bytes(self@));
        assert(r@.subrange(0, 4) =~= be_bytes32(crc32(self@)));
        assert(r@.subrange(4, 32) =~= self@);
        r
    }

    /// The account as text: 64 hexadecimal digits.
    pub fn to_hex(&self) -> (r: String)
        ensures
            r@ == bytes_to_hex(account_bytes(self@)),
    {
        encode_payload(&self.to_vec())
    }

    /// The account that 32 bytes stand for, where their check sum fits.
    pub fn from_slice(bytes: &Vec<u8>) -> (r: Result<AccountIdentifier, AccountError>)
        ensures
            bytes@.len() != ACCOUNT_LENGTH ==> r == Err::<AccountIdentifier, AccountError>(
                AccountError::WrongLength,
            ),
            bytes@.len() == ACCOUNT_LENGTH && !is_account_bytes(bytes@) ==> r == Err::<
                AccountIdentifier,
                AccountError,
            >(AccountError::ChecksumMismatch),
            is_account_bytes(bytes@) ==> r is Ok && r->Ok_0@ == bytes@.subrange(4, 32),
    {
        if bytes.len() != ACCOUNT_LENGTH {
            return Err(AccountError::WrongLength);
        }
        let found = slice_of(bytes, 0, 4);
        let hash = slice_of(bytes, 4, 32);
        let expected = to_be_bytes32(crc32_hash(&hash));
        if same_bytes(&found, &expected) {
            Ok(AccountIdentifier { hash })
        } else {
            Err(AccountError::ChecksumMismatch)
        }
    }

    /// The account that a text stands for: 64 hexadecimal digits whose
    /// first eight are the check sum of the rest.
    pub fn from_hex(text: &str) -> (r: Result<AccountIdentifier, AccountError>)
        ensures
            !is_hex_text(text@) ==> r == Err::<AccountIdentifier, AccountError>(
                AccountError::NotHexadecimal,
            ),
            is_hex_text(text@) && text@.len() != 2 * ACCOUNT_LENGTH ==> r == Err::<
                AccountIdentifier,
                AccountError,
            >(AccountError::WrongLength),
            is_hex_text(text@) && text@.len() == 2 * ACCOUNT_LENGTH && !is_account_bytes(
                hex_to_bytes(text@),
            ) ==> r == Err::<AccountIdentifier, AccountError>(AccountError::ChecksumMismatch),
            is_hex_text(text@) && is_account_bytes(hex_to_bytes(text@)) ==> r is Ok && r->Ok_0@
                == hex_to_bytes(text@).subrange(4, 32),
    {
        match decode_payload(text) {
            Some(bytes) => AccountIdentifier::from_slice(&bytes),
            None => Err(AccountError::NotHexadecimal),
        }
    }
}

/// An account that is written and read again is the same account.
pub proof fn lemma_account_round_trip(hash: Seq<u8>)
    requires
        hash.len() == ACCOUNT_HASH_LENGTH,
    ensures
        is_account_bytes(account_bytes(hash)),
        account_bytes(hash).subrange(4, 32) == hash,
        is_hex_text(bytes_to_hex(account_bytes(hash))),
        hex_to_bytes(bytes_to_hex(account_bytes(hash))) == account_bytes(hash),
{
    let b = account_bytes(hash);
    assert(b.subrange(0, 4) =~= be_bytes32(crc32(hash)));
    assert(b.subrange(4, 32) =~= hash);
    crate::hex_text::lemma_hex_round_trip(b);
}

} // verus!
