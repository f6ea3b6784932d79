//! Helpers around outside computations: the identifier token deriver and the
//! textual form of a hardware address.

use vstd::prelude::*;

use sha2::Digest;

verus! {

/// The first two bytes of the SHA-256 digest of a text's UTF-8 bytes.
/// The digest depends on the text alone, so this is a fixed (if unstated)
/// function of the character sequence.
pub uninterp spec fn sha256_first_two(text: Seq<char>) -> Seq<u8>;

/// The text that an optional input stands for: an absent input is treated as
/// the empty text.
pub open spec fn opt_text(text: Option<String>) -> Seq<char> {
    match text {
        Some(s) => s@,
        None => Seq::empty(),
    }
}

/// Relies on sha2::Sha256 through the Digest trait: `new`, `update` and
/// `finalize` compute the SHA-256 digest of the input bytes, a function of the
/// input alone; the digest holds 32 bytes, so the first two exist.
#[verifier::external_body]
pub fn get_first_two_bytes_of_sha256(input: &str) -> (r: [u8; 2])
    ensures
        r@ == sha256_first_two(input@),
{
    let mut hasher = sha2::Sha256::new();
    hasher.update(input.as_bytes());
    let result = hasher.finalize();
    [result[0], result[1]]
}

/// Deriving a token is deterministic: two optional texts that stand for the
/// same character sequence yield the same two-byte token.
pub proof fn lemma_token_deterministic(a: Option<String>, b: Option<String>)
    requires
        opt_text(a) == opt_text(b),
    ensures
        sha256_first_two(opt_text(a)) == sha256_first_two(opt_text(b)),
{
}

/// An absent text yields the token of the empty text.
pub proof fn lemma_absent_text_token(e: String)
    requires
        e@ == Seq::<char>::empty(),
    ensures
        sha256_first_two(opt_text(Option::<String>::None)) == sha256_first_two(opt_text(Some(e))),
{
}

/// The character for a single hex digit, lower case.
pub open spec fn hex_digit(n: u8) -> char
    recommends
        n < 16,
{
    if n < 10 {
        ((n + 0x30) as u8) as char
    } else {
        ((n + 0x57) as u8) as char
    }
}

/// The textual form of a six-byte hardware address: six lower-case hex byte
/// pairs separated by colons.
pub open spec fn mac_hex_string(addr: Seq<u8>) -> Seq<char>
    recommends
        addr.len() == 6,
{
    seq![
        hex_digit((addr[0] / 16) as u8),
        hex_digit((addr[0] % 16) as u8),
        ':',
        hex_digit((addr[1] / 16) as u8),
        hex_digit((addr[1] % 16) as u8),
        ':',
        hex_digit((addr[2] / 16) as u8),
        hex_digit((addr[2] % 16) as u8),
        ':',
        hex_digit((addr[3] / 16) as u8),
        hex_digit((addr[3] % 16) as u8),
        ':',
        hex_digit((addr[4] / 16) as u8),
        hex_digit((addr[4] % 16) as u8),
        ':',
        hex_digit((addr[5] / 16) as u8),
        hex_digit((addr[5] % 16) as u8),
    ]
}

/// Relies on eui48::MacAddress: `from_bytes` accepts a slice of exactly six
/// bytes, and `to_hex_string` formats them as six lower-case hex pairs
/// separated by colons.
#[verifier::external_body]
pub fn device_addr_hex(addr: &[u8; 6]) -> (r: String)
    ensures
        r@ == mac_hex_string(addr@),
{
    eui48::MacAddress::from_bytes(&addr[..]).unwrap().to_hex_string()
}

} // verus!
