//! Content hashes of serialized transactions and their printed form.
//!
//! A transaction is tracked on chain by the SHA-256 digest of its bytes, printed as
//! 64 upper-case hexadecimal digits.

use sha2::Digest;
use vstd::prelude::*;

verus! {

/// Number of bytes in a digest.
pub const HASH_LENGTH: usize = 32;

/// The SHA-256 digest of `message`, as a function of the message alone.
pub uninterp spec fn sha256_digest(message: Seq<u8>) -> Seq<u8>;

/// Calls `sha2::Sha256::digest` on the message and hands its 32 bytes of output over as
/// an array. Nothing is proved of it: the contract only gives the digest its name.
#[verifier::external_body]
fn sha256(message: &[u8]) -> (digest: [u8; 32])
    ensures
        digest@ == sha256_digest(message@),
{
    sha2::Sha256::digest(message).into()
}

/// `String::push` appends one character to the end of the string.
pub assume_specification[ String::push ](s: &mut String, c: char)
    ensures
        final(s)@ == old(s)@.push(c),
;

/// The upper-case hexadecimal digit for a value below 16.
pub open spec fn hex_digit(nibble: int) -> char {
    if nibble < 10 {
        (48 + nibble) as u8 as char
    } else {
        (55 + nibble) as u8 as char
    }
}

/// The digit of `hex_upper(bytes)` at position `i`: the high half of a byte comes first.
pub open spec fn hex_digit_at(bytes: Seq<u8>, i: int) -> char {
    if i % 2 == 0 {
        hex_digit(bytes[i / 2] as int / 16)
    } else {
        hex_digit(bytes[i / 2] as int % 16)
    }
}

/// Upper-case hexadecimal text of a byte string: two digits per byte, in order.
pub open spec fn hex_upper(bytes: Seq<u8>) -> Seq<char> {
    Seq::new(2 * bytes.len(), |i: int| hex_digit_at(bytes, i))
}

/// Distinct values below 16 have distinct digits.
pub proof fn lemma_hex_digit_injective(a: int, b: int)
    requires
        0 <= a < 16,
        0 <= b < 16,
        hex_digit(a) == hex_digit(b),
    ensures
        a == b,
{
    assert((48 + a) as u8 as char as u8 == (48 + a) as u8);
    assert((55 + a) as u8 as char as u8 == (55 + a) as u8);
    assert((48 + b) as u8 as char as u8 == (48 + b) as u8);
    assert((55 + b) as u8 as char as u8 == (55 + b) as u8);
}

/// The character is one of `0` to `9` and `A` to `F`.
pub open spec fn is_upper_hex(c: char) -> bool {
    ('0' <= c <= '9') || ('A' <= c <= 'F')
}

/// The hexadecimal text of a byte string has two characters for each byte, and each of
/// them is one of `0` to `9` and `A` to `F`.
pub proof fn lemma_hex_upper_alphabet(bytes: Seq<u8>)
    ensures
        hex_upper(bytes).len() == 2 * bytes.len(),
        forall|i: int| 0 <= i < hex_upper(bytes).len() ==> is_upper_hex(#[trigger] hex_upper(bytes)[i]),
{
    assert forall|i: int| 0 <= i < hex_upper(bytes).len() implies is_upper_hex(
        #[trigger] hex_upper(bytes)[i],
    ) by {
        let byte: int = bytes[i / 2] as int;
        let nibble: int = if i % 2 == 0 {
            byte / 16
        } else {
            byte % 16
        };
        assert(hex_upper(bytes)[i] == hex_digit(nibble));
        assert((48 + nibble) as u8 as char as u8 == (48 + nibble) as u8);
        assert((55 + nibble) as u8 as char as u8 == (55 + nibble) as u8);
    }
}

/// The hexadecimal text determines the bytes: two byte strings with the same text are
/// the same byte string.
pub proof fn lemma_hex_upper_injective(a: Seq<u8>, b: Seq<u8>)
    requires
        hex_upper(a) == hex_upper(b),
    ensures
        a == b,
{
    assert(hex_upper(a).len() == 2 * a.len());
    assert(hex_upper(b).len() == 2 * b.len());
    assert(a.len() == b.len());
    assert forall|k: int| 0 <= k < a.len() implies a[k] == b[k] by {
        let high: char = hex_upper(a)[2 * k];
        let low: char = hex_upper(a)[2 * k + 1];
        assert(high == hex_digit_at(a, 2 * k) && high == hex_digit_at(b, 2 * k));
        assert(low == hex_digit_at(a, 2 * k + 1) && low == hex_digit_at(b, 2 * k + 1));
        lemma_hex_digit_injective(a[k] as int / 16, b[k] as int / 16);
        lemma_hex_digit_injective(a[k] as int % 16, b[k] as int % 16);
    }
    assert(a =~= b);
}

/// The digit for `nibble`.
fn hex_digit_of(nibble: u8) -> (digit: char)
    requires
        nibble < 16,
    ensures
        digit == hex_digit(nibble as int),
{
    if nibble < 10 {
        (48 + nibble) as char
    } else {
        (55 + nibble) as char
    }
}

/// The digest that identifies a serialized transaction.
#[derive(Clone, Copy, Debug, PartialEq, Eq)]
pub struct TxHash(pub [u8; 32]);

impl View for TxHash {
    type V = Seq<u8>;

    open spec fn view(&self) -> Seq<u8> {
        self.0@
    }
}

impl TxHash {
    /// The digest printed as 64 upper-case hexadecimal digits.
    pub fn to_string(&self) -> (text: String)
        ensures
            text@ == hex_upper(self@),
            text@.len() == 2 * HASH_LENGTH,
    {
        let mut text = String::new();
        let mut i: usize = 0;
        while i < 32
            invariant
                i <= 32,
                self.0@.len() == 32,
                text@.len() == 2 * i,
                forall|k: int| 0 <= k < 2 * i ==> text@[k] == hex_digit_at(self.0@, k),
            decreases 32 - i,
        {
            let byte: u8 = self.0[i];
            text.push(hex_digit_of(byte / 16));
            text.push(hex_digit_of(byte % 16));
            i += 1;
        }
        assert(text@ =~= hex_upper(self@));
        text
    }
}

/// The content hash of a serialized transaction.
pub fn hash_tx(tx_bytes: &[u8]) -> (hash: TxHash)
    ensures
        hash@ == sha256_digest(tx_bytes@),
{
    TxHash(sha256(tx_bytes))
}

} // verus!
