//! The content identity that binds evaluation budgets to frozen baseline
//! bytes: their SHA-256 digest, as `sha256:` and lowercase hex.
use vstd::prelude::*;
use crate::text::{copy_str, push_char};

verus! {

/// The SHA-256 digest of `bytes`.
pub uninterp spec fn sha256_of(bytes: Seq<u8>) -> Seq<u8>;

/// Computes the SHA-256 digest of `bytes` with the `sha2` crate's
/// `Sha256::digest`. Trusted: the result is the 32-byte digest the crate
/// returns, named `sha256_of`.
#[verifier::external_body]
fn sha256_digest(bytes: &[u8]) -> (r: Vec<u8>)
    ensures
        r@ == sha256_of(bytes@),
        r@.len() == 32,
{
    <sha2::Sha256 as sha2::Digest>::digest(bytes).to_vec()
}

/// The lowercase hex digit of a value below 16.
pub open spec fn hex_digit(v: u8) -> char {
    if v < 10 {
        (('0' as u8) + v) as char
    } else {
        (('a' as u8) + (v - 10)) as char
    }
}

/// The lowercase hex digits of `bytes`, two per byte.
pub open spec fn hex_of(bytes: Seq<u8>) -> Seq<char>
    decreases bytes.len(),
{
    if bytes.len() == 0 {
        Seq::empty()
    } else {
        hex_of(bytes.drop_last()) + seq![hex_digit(bytes.last() / 16), hex_digit(bytes.last() % 16)]
    }
}

/// The lowercase hex digit of a value below 16.
pub fn hex_char(v: u8) -> (c: char)
    requires
        v < 16,
    ensures
        c == hex_digit(v),
{
    if v < 10 {
        ((48u8 + v) as char)
    } else {
        ((97u8 + (v - 10)) as char)
    }
}

/// `prefix` followed by the lowercase hex digits of `bytes`.
pub fn hex_label(prefix: &str, bytes: &[u8]) -> (r: String)
    ensures
        r@ == prefix@ + hex_of(bytes@),
{
    let mut r = copy_str(prefix);
    let mut i: usize = 0;
    while i < bytes.len()
        invariant
            i <= bytes@.len(),
            r@ == prefix@ + hex_of(bytes@.take(i as int)),
        decreases bytes@.len() - i,
    {
        let b = bytes[i];
        push_char(&mut r, hex_char(b / 16));
        push_char(&mut r, hex_char(b % 16));
        assert(bytes@.take(i as int + 1).drop_last() =~= bytes@.take(i as int));
        i = i + 1;
        assert(r@ =~= prefix@ + hex_of(bytes@.take(i as int)));
    }
    assert(bytes@.take(bytes@.len() as int) =~= bytes@);
    r
}

/// The content identity of baseline bytes: `sha256:` and the lowercase hex
/// of their SHA-256 digest.
pub fn task_truth_v2_baseline_sha256(bytes: &[u8]) -> (r: String)
    ensures
        r@ == "sha256:"@ + hex_of(sha256_of(bytes@)),
        r@.len() == 71,
{
    let digest = sha256_digest(bytes);
    proof {
        reveal_strlit("sha256:");
        lemma_hex_len(digest@);
    }
    hex_label("sha256:", digest.as_slice())
}

/// Two hex digits per byte.
pub proof fn lemma_hex_len(bytes: Seq<u8>)
    ensures
        hex_of(bytes).len() == 2 * bytes.len(),
    decreases bytes.len(),
{
    if bytes.len() > 0 {
        lemma_hex_len(bytes.drop_last());
    }
}

} // verus!
