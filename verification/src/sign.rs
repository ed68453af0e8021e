//! Message signatures: HMAC-SHA512, written in lower-case hexadecimal.

use hmac::Hmac;
use hmac::Mac;
use sha2::Sha512;
use vstd::prelude::*;
use vstd::utf8::encode_utf8;

verus! {

/// The HMAC of `message` under `key` with SHA-512 as the hash, as the hmac and
/// sha2 crates compute it.
pub uninterp spec fn hmac_sha512(key: Seq<u8>, message: Seq<u8>) -> Seq<u8>;

/// Runs `Hmac::<Sha512>`: `new_from_slice` with the key, `update` with the whole
/// message, `finalize`, and the bytes of the code.
///
/// Trusted: the code is a function of key and message, named [`hmac_sha512`].
/// `new_from_slice` accepts a key of any length, so the call never fails.
#[verifier::external_body]
fn compute_hmac_sha512(key: &[u8], message: &[u8]) -> (code: Vec<u8>)
    ensures
        code@ == hmac_sha512(key@, message@),
{
    let mut mac = Hmac::<Sha512>::new_from_slice(key).expect("HMAC takes a key of any length");
    mac.update(message);
    mac.finalize().into_bytes().to_vec()
}

/// The sixteen hexadecimal digits, in lower case.
pub open spec fn hex_digits() -> Seq<char> {
    seq!['0', '1', '2', '3', '4', '5', '6', '7', '8', '9', 'a', 'b', 'c', 'd', 'e', 'f']
}

/// The character at place `i` of the hexadecimal notation of `bytes`: each byte
/// gives two digits, the upper half first.
pub open spec fn hex_char_at(bytes: Seq<u8>, i: int) -> char
    recommends
        0 <= i < 2 * bytes.len(),
{
    if i % 2 == 0 {
        hex_digits()[bytes[i / 2] as int / 16]
    } else {
        hex_digits()[bytes[i / 2] as int % 16]
    }
}

/// `bytes` in lower-case hexadecimal notation.
pub open spec fn hex_lower(bytes: Seq<u8>) -> Seq<char> {
    Seq::new(2 * bytes.len(), |i: int| hex_char_at(bytes, i))
}

/// The signature of `body` under `secret`: the HMAC-SHA512 of the body's UTF-8
/// bytes, keyed with the secret's, in lower-case hexadecimal notation.
pub open spec fn signature(secret: Seq<char>, body: Seq<char>) -> Seq<char> {
    hex_lower(hmac_sha512(encode_utf8(secret), encode_utf8(body)))
}

/// The one-character text of the hexadecimal digit `d`.
fn hex_digit_str(d: u8) -> (r: &'static str)
    requires
        d < 16,
    ensures
        r@ == seq![hex_digits()[d as int]],
{
    proof {
        reveal_strlit("0");
        reveal_strlit("1");
        reveal_strlit("2");
        reveal_strlit("3");
        reveal_strlit("4");
        reveal_strlit("5");
        reveal_strlit("6");
        reveal_strlit("7");
        reveal_strlit("8");
        reveal_strlit("9");
        reveal_strlit("a");
        reveal_strlit("b");
        reveal_strlit("c");
        reveal_strlit("d");
        reveal_strlit("e");
        reveal_strlit("f");
    }
    let r = if d == 0 {
        "0"
    } else if d == 1 {
        "1"
    } else if d == 2 {
        "2"
    } else if d == 3 {
        "3"
    } else if d == 4 {
        "4"
    } else if d == 5 {
        "5"
    } else if d == 6 {
        "6"
    } else if d == 7 {
        "7"
    } else if d == 8 {
        "8"
    } else if d == 9 {
        "9"
    } else if d == 10 {
        "a"
    } else if d == 11 {
        "b"
    } else if d == 12 {
        "c"
    } else if d == 13 {
        "d"
    } else if d == 14 {
        "e"
    } else {
        "f"
    };
    r
}

/// Writes `bytes` in lower-case hexadecimal notation.
pub fn to_hex_lower(bytes: &[u8]) -> (text: String)
    ensures
        text@ == hex_lower(bytes@),
{
    let mut text = String::new();
    let mut i: usize = 0;
    while i < bytes.len()
        invariant
            i <= bytes.len(),
            text@.len() == 2 * i,
            forall|j: int| 0 <= j < 2 * i ==> text@[j] == hex_char_at(bytes@, j),
        decreases bytes.len() - i,
    {
        let byte = bytes[i];
        let ghost before = text@;
        text.append(hex_digit_str(byte / 16));
        text.append(hex_digit_str(byte % 16));
        proof {
            // The two digits of this byte stand at the places 2i and 2i + 1;
            // what stood before them stays.
            assert forall|j: int| 0 <= j < 2 * (i + 1) implies text@[j] == hex_char_at(
                bytes@,
                j,
            ) by {
                if j < 2 * i {
                    assert(text@[j] == before[j]);
                }
            }
        }
        i = i + 1;
    }
    text
}

/// Signs `body` with `secret`.
pub fn sign(secret: &str, body: &str) -> (text: String)
    ensures
        text@ == signature(secret@, body@),
{
    let code = compute_hmac_sha512(secret.as_bytes(), body.as_bytes());
    to_hex_lower(code.as_slice())
}

/// Different bytes never share a hexadecimal notation.
pub proof fn lemma_hex_lower_injective(a: Seq<u8>, b: Seq<u8>)
    requires
        hex_lower(a) == hex_lower(b),
    ensures
        a == b,
{
    assert(hex_lower(a).len() == 2 * a.len());
    assert(hex_lower(b).len() == 2 * b.len());
    assert forall|i: int| 0 <= i < a.len() implies a[i] == b[i] by {
        // The two digits of a byte give its two halves.
        assert(hex_lower(a)[2 * i] == hex_char_at(a, 2 * i));
        assert(hex_lower(a)[2 * i + 1] == hex_char_at(a, 2 * i + 1));
        lemma_hex_digits_differ(a[i] as int / 16, b[i] as int / 16);
        lemma_hex_digits_differ(a[i] as int % 16, b[i] as int % 16);
    }
    assert(a =~= b);
}

/// The sixteen hexadecimal digits are sixteen different characters.
proof fn lemma_hex_digits_differ(x: int, y: int)
    requires
        0 <= x < 16,
        0 <= y < 16,
        hex_digits()[x] == hex_digits()[y],
    ensures
        x == y,
{
}

/// Signing is a function of secret and body, and two signatures are the same
/// text exactly when the two codes behind them are the same bytes.
pub proof fn lemma_signature_deterministic(
    secret_a: Seq<char>,
    body_a: Seq<char>,
    secret_b: Seq<char>,
    body_b: Seq<char>,
)
    ensures
        secret_a == secret_b && body_a == body_b ==> signature(secret_a, body_a) == signature(
            secret_b,
            body_b,
        ),
        signature(secret_a, body_a) == signature(secret_b, body_b) <==> hmac_sha512(
            encode_utf8(secret_a),
            encode_utf8(body_a),
        ) == hmac_sha512(encode_utf8(secret_b), encode_utf8(body_b)),
{
    if signature(secret_a, body_a) == signature(secret_b, body_b) {
        lemma_hex_lower_injective(
            hmac_sha512(encode_utf8(secret_a), encode_utf8(body_a)),
            hmac_sha512(encode_utf8(secret_b), encode_utf8(body_b)),
        );
    }
}

} // verus!
