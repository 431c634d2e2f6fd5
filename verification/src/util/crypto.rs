//! SHA-256 digests rendered as lower-case hexadecimal text.

use sha2::Digest;
use vstd::prelude::*;
use vstd::string::StringExecFns;

verus! {

/// The SHA-256 digest of a byte string, as the `sha2` crate computes it.
pub uninterp spec fn sha256(data: Seq<u8>) -> Seq<u8>;

/// The lower-case hexadecimal digit that stands for a value below sixteen.
pub open spec fn hex_digit(nibble: int) -> char {
    if nibble < 10 {
        (('0' as u8) + nibble) as u8 as char
    } else {
        (('a' as u8) + nibble - 10) as u8 as char
    }
}

/// Two hexadecimal digits per byte, the high half first.
pub open spec fn hex_lower(data: Seq<u8>) -> Seq<char> {
    Seq::new(
        2 * data.len(),
        |i: int|
            if i % 2 == 0 {
                hex_digit(data[i / 2] as int / 16)
            } else {
                hex_digit(data[i / 2] as int % 16)
            },
    )
}

/// The identity digest of a text: the hexadecimal form of the SHA-256 digest
/// of its UTF-8 bytes.
pub open spec fn sha256_hex(text: Seq<char>) -> Seq<char> {
    hex_lower(sha256(vstd::utf8::encode_utf8(text)))
}

/// Calls `sha2::Sha256::digest`. The contract names the digest and claims its
/// length of 32 bytes; nothing else about the digest is assumed.
#[verifier::external_body]
fn sha256_digest(data: &[u8]) -> (digest: Vec<u8>)
    ensures
        digest@ == sha256(data@),
        digest@.len() == 32,
{
    sha2::Sha256::digest(data).to_vec()
}

/// The hexadecimal digit of a value below sixteen, as a text.
fn hex_digit_text(nibble: u8) -> (text: &'static str)
    requires
        nibble < 16,
    ensures
        text@ == seq![hex_digit(nibble as int)],
{
    proof {
        reveal_strlit("0");
        reveal_strlit("1");
        reveal_strlit("2");
        reveal_strlit("3");
        reveal_strlit("4");
        reveal_strlit("5");
        reveal_strlit("6");
        reveal_strlit("7");
        reveal_strlit("8");
        reveal_strlit("9");
        reveal_strlit("a");
        reveal_strlit("b");
        reveal_strlit("c");
        reveal_strlit("d");
        reveal_strlit("e");
        reveal_strlit("f");
    }
    let text = match nibble {
        0 => "0",
        1 => "1",
        2 => "2",
        3 => "3",
        4 => "4",
        5 => "5",
        6 => "6",
        7 => "7",
        8 => "8",
        9 => "9",
        10 => "a",
        11 => "b",
        12 => "c",
        13 => "d",
        14 => "e",
        _ => "f",
    };
    assert(text@ =~= seq![hex_digit(nibble as int)]);
    text
}

/// Writes bytes as lower-case hexadecimal text: two digits per byte, the
/// high half first.
pub fn hex_encode(data: &Vec<u8>) -> (text: String)
    ensures
        text@ == hex_lower(data@),
{
    let mut text = String::new();
    let mut i: usize = 0;
    assert(text@ =~= hex_lower(data@.take(0)));
    while i < data.len()
        invariant
            i <= data@.len(),
            text@ == hex_lower(data@.take(i as int)),
        decreases data@.len() - i,
    {
        let byte: u8 = data[i];
        let ghost before = text@;
        text.append(hex_digit_text(byte / 16));
        text.append(hex_digit_text(byte % 16));
        proof {
            let shorter = data@.take(i as int);
            let longer = data@.take(i as int + 1);
            assert(longer =~= shorter.push(byte));
            assert(text@ =~= before + seq![
                hex_digit(byte as int / 16),
                hex_digit(byte as int % 16),
            ]);
            assert(text@ =~= hex_lower(longer)) by {
                assert(text@.len() == 2 * longer.len());
                assert forall|k: int| 0 <= k < text@.len() implies text@[k] == hex_lower(longer)[k] by {
                    if k < 2 * i {
                        assert(text@[k] == hex_lower(shorter)[k]);
                        assert(longer[k / 2] == shorter[k / 2]);
                    } else {
                        assert(k / 2 == i);
                    }
                }
            }
        }
        i += 1;
    }
    assert(data@.take(i as int) =~= data@);
    text
}

/// Hashes a text to its identity digest.
pub fn sha256_hash_string(s: &str) -> (digest: String)
    ensures
        digest@ == sha256_hex(s@),
        digest@.len() == 64,
{
    let bytes = sha256_digest(s.as_bytes());
    hex_encode(&bytes)
}

/// Hashing a text again gives the digest that it gave before: every digest
/// of a text is the one that the text determines.
pub proof fn lemma_digest_repeats(text: Seq<char>, first: Seq<char>, again: Seq<char>)
    requires
        first == sha256_hex(text),
        again == sha256_hex(text),
    ensures
        first == again,
{
}

} // verus!
