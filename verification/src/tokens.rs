//! Random secrets written in lowercase hexadecimal.
use vstd::prelude::*;

verus! {

/// The lowercase hexadecimal digit for `n < 16`.
pub open spec fn hex_digit(n: int) -> char {
    if n < 10 {
        (('0' as int) + n) as char
    } else {
        (('a' as int) + n - 10) as char
    }
}

/// The lowercase hexadecimal text of a byte string: two digits per byte,
/// high nibble first.
pub open spec fn hex_lower(bytes: Seq<u8>) -> Seq<char>
    decreases bytes.len(),
{
    if bytes.len() == 0 {
        Seq::empty()
    } else {
        hex_lower(bytes.drop_last()) + seq![
            hex_digit((bytes.last() / 16) as int),
            hex_digit((bytes.last() % 16) as int),
        ]
    }
}

pub proof fn lemma_hex_lower_len(bytes: Seq<u8>)
    ensures
        hex_lower(bytes).len() == 2 * bytes.len(),
    decreases bytes.len(),
{
    if bytes.len() > 0 {
        lemma_hex_lower_len(bytes.drop_last());
    }
}

/// `hex::encode`: each byte as two lowercase hexadecimal digits, high
/// nibble first (the crate's `HEX_CHARS_LOWER` table).
#[verifier::external_body]
fn hex_encode(data: &[u8]) -> (r: String)
    ensures
        r@ == hex_lower(data@),
{
    hex::encode(data)
}

/// `n` bytes from `rand::thread_rng` (`RngCore::fill_bytes`). They are
/// random: nothing is stated of them but their number.
#[verifier::external_body]
fn random_bytes(n: usize) -> (r: Vec<u8>)
    ensures
        r@.len() == n,
{
    let mut v = vec![0u8; n];
    rand::RngCore::fill_bytes(&mut rand::thread_rng(), &mut v);
    v
}

/// `n` random bytes in lowercase hexadecimal: `2 * n` digits.
pub fn random_hex(n: usize) -> (r: String)
    ensures
        exists|b: Seq<u8>| b.len() == n && r@ == hex_lower(b),
        r@.len() == 2 * n,
{
    let b = random_bytes(n);
    let r = hex_encode(b.as_slice());
    proof {
        lemma_hex_lower_len(b@);
    }
    r
}

} // verus!
