//! Integrity checking: hash a byte buffer with SHA-256 and compare the
//! lower-case hexadecimal rendering of the digest against an expected value.

use sha2::Digest;
use vstd::prelude::*;

verus! {

/// The SHA-256 digest of a byte sequence. The digest is a pure function of
/// the input bytes alone; its definition is left to the hashing crate.
pub uninterp spec fn sha256_of(data: Seq<u8>) -> Seq<u8>;

/// The lower-case hexadecimal character for the low four bits of `n`.
pub open spec fn hex_char(n: u8) -> char {
    if n == 0 {
        '0'
    } else if n == 1 {
        '1'
    } else if n == 2 {
        '2'
    } else if n == 3 {
        '3'
    } else if n == 4 {
        '4'
    } else if n == 5 {
        '5'
    } else if n == 6 {
        '6'
    } else if n == 7 {
        '7'
    } else if n == 8 {
        '8'
    } else if n == 9 {
        '9'
    } else if n == 10 {
        'a'
    } else if n == 11 {
        'b'
    } else if n == 12 {
        'c'
    } else if n == 13 {
        'd'
    } else if n == 14 {
        'e'
    } else {
        'f'
    }
}

/// Lower-case hexadecimal rendering of a byte sequence: two characters per
/// byte, high nibble first.
pub open spec fn hex_of(bytes: Seq<u8>) -> Seq<char> {
    Seq::new(
        (2 * bytes.len()) as nat,
        |i: int| if i % 2 == 0 {
            hex_char(bytes[i / 2] >> 4)
        } else {
            hex_char(bytes[i / 2] & 0x0f)
        },
    )
}

/// Relies on sha2::Sha256::digest: the 32-byte SHA-256 digest of the input,
/// a function of the input bytes alone.
#[verifier::external_body]
fn sha256_digest(data: &[u8]) -> (r: Vec<u8>)
    ensures
        r@ == sha256_of(data@),
        r@.len() == 32,
{
    sha2::Sha256::digest(data).to_vec()
}

/// The one-character string holding the hexadecimal digit for the low four
/// bits of `n`.
fn hex_digit_str(n: u8) -> (r: &'static str)
    ensures
        r@ == seq![hex_char(n)],
{
    proof {
        reveal_strlit("0");
        reveal_strlit("1");
        reveal_strlit("2");
        reveal_strlit("3");
        reveal_strlit("4");
        reveal_strlit("5");
        reveal_strlit("6");
        reveal_strlit("7");
        reveal_strlit("8");
        reveal_strlit("9");
        reveal_strlit("a");
        reveal_strlit("b");
        reveal_strlit("c");
        reveal_strlit("d");
        reveal_strlit("e");
        reveal_strlit("f");
    }
    match n {
        0 => "0",
        1 => "1",
        2 => "2",
        3 => "3",
        4 => "4",
        5 => "5",
        6 => "6",
        7 => "7",
        8 => "8",
        9 => "9",
        10 => "a",
        11 => "b",
        12 => "c",
        13 => "d",
        14 => "e",
        _ => "f",
    }
}

/// Render a byte buffer as lower-case hexadecimal, two digits per byte.
pub fn to_hex(bytes: &[u8]) -> (r: String)
    ensures
        r@ == hex_of(bytes@),
{
    let mut out = String::new();
    let mut i: usize = 0;
    while i < bytes.len()
        invariant
            i <= bytes@.len(),
            out@ =~= hex_of(bytes@).subrange(0, 2 * i as int),
        decreases bytes@.len() - i,
    {
        let b = bytes[i];
        out.append(hex_digit_str(b >> 4));
        out.append(hex_digit_str(b & 0x0f));
        proof {
            let full = hex_of(bytes@);
            assert(full[2 * i as int] == hex_char(bytes@[i as int] >> 4));
            assert(full[2 * i as int + 1] == hex_char(bytes@[i as int] & 0x0f));
            assert(out@ =~= full.subrange(0, 2 * (i + 1) as int));
        }
        i += 1;
    }
    proof {
        assert(out@ =~= hex_of(bytes@));
    }
    out
}

/// Hash a buffer and render the digest in lower-case hexadecimal.
pub fn hash_bytes(data: &[u8]) -> (r: String)
    ensures
        r@ == hex_of(sha256_of(data@)),
{
    let digest = sha256_digest(data);
    to_hex(digest.as_slice())
}

/// Decide whether the contents of a file match an expected SHA-256 digest:
/// true exactly when the lower-case hexadecimal rendering of the contents'
/// digest equals the expected string.
pub fn validate_file(contents: &[u8], expected_hash: &str) -> (r: bool)
    ensures
        r == (hex_of(sha256_of(contents@)) == expected_hash@),
{
    let hash = hash_bytes(contents);
    let expected = expected_hash.to_owned();
    hash == expected
}

} // verus!
