//! Signatures of webhooks: an HMAC-SHA-256 of the body, in hexadecimal.

use crate::text::{
    is_blank, is_space, law_trim_keeps_the_rest, law_trim_takes_blank_ends, lemma_trimmed_fixed,
    strip_prefix, trim, trimmed, trimmed_end, trimmed_start, without_prefix,
};
use hmac::{Hmac, Mac};
use sha2::Sha256;
use vstd::prelude::*;
use vstd::string::*;
use vstd::utf8::*;

verus! {

/// The hexadecimal digits, in either case.
pub open spec fn is_hex(c: char) -> bool {
    '0' <= c <= '9' || 'a' <= c <= 'f' || 'A' <= c <= 'F'
}

/// The number that a hexadecimal digit stands for.
pub open spec fn hex_value(c: char) -> int {
    if '0' <= c <= '9' {
        c as int - '0' as int
    } else if 'a' <= c <= 'f' {
        c as int - 'a' as int + 10
    } else {
        c as int - 'A' as int + 10
    }
}

/// The bytes that `s` denotes, two hexadecimal digits for each.
pub open spec fn hex_bytes(s: Seq<char>) -> Option<Seq<u8>> {
    if s.len() % 2 == 0 && (forall|i: int| 0 <= i < s.len() ==> is_hex(#[trigger] s[i])) {
        Some(
            Seq::new(
                s.len() / 2,
                |i: int| (16 * hex_value(s[2 * i]) + hex_value(s[2 * i + 1])) as u8,
            ),
        )
    } else {
        None
    }
}

/// `hex::decode`: the bytes that a text denotes, two hexadecimal digits in
/// either case for each; an error on an odd number of digits, and on anything
/// that is no digit.
#[verifier::external_body]
fn hex_decode(text: &str) -> (r: Option<Vec<u8>>)
    ensures
        match r {
            Some(bytes) => hex_bytes(text@) == Some(bytes@),
            None => hex_bytes(text@) is None,
        },
{
    hex::decode(text).ok()
}

/// The HMAC-SHA-256 of a message under a key.
pub uninterp spec fn hmac_sha256(key: Seq<u8>, message: Seq<u8>) -> Seq<u8>;

/// `hmac::Hmac<sha2::Sha256>`: `new_from_slice` (which takes a key of any
/// length), `update` with the message, and `verify_slice`, which succeeds if
/// and only if the tag is the whole code of the message, 32 bytes. The code is
/// named, not stated.
#[verifier::external_body]
fn hmac_sha256_verify(key: &[u8], message: &[u8], tag: &[u8]) -> (r: bool)
    ensures
        r == (tag@ == hmac_sha256(key@, message@)),
        r ==> tag@.len() == 32,
{
    let Ok(mut mac) = Hmac::<Sha256>::new_from_slice(key) else {
        return false;
    };
    mac.update(message);
    mac.verify_slice(tag).is_ok()
}

/// The signature in a header, with or without the prefix `sha256=`.
pub open spec fn signature_text(header: Seq<char>) -> Seq<char> {
    match without_prefix(trimmed(header), "sha256="@) {
        Some(rest) => trimmed(rest),
        None => trimmed(header),
    }
}

/// Tells whether a header signs `body` under `secret`.
pub open spec fn is_signed(secret: Seq<char>, body: Seq<u8>, header: Seq<char>) -> bool {
    hex_bytes(signature_text(header)) == Some(hmac_sha256(encode_utf8(secret), body))
}

/// The bytes that the signature in a header denotes: none, if it is no
/// hexadecimal text.
pub fn signature_bytes(signature_header: &str) -> (r: Option<Vec<u8>>)
    ensures
        match r {
            Some(bytes) => hex_bytes(signature_text(signature_header@)) == Some(bytes@),
            None => hex_bytes(signature_text(signature_header@)) is None,
        },
{
    let signature = match strip_prefix(trim(signature_header), "sha256=") {
        Some(rest) => trim(rest),
        None => trim(signature_header),
    };
    hex_decode(signature)
}

/// Verifies the header `X-Hub-Signature-256` of a GitHub webhook.
///
/// Signature format: `sha256=<hex(hmac_sha256(secret, raw_body_bytes))>`. What
/// is accepted has 64 hexadecimal digits, so that anything shorter or longer is
/// refused, whatever the secret and the body.
pub fn verify_github_signature(secret: &str, body: &[u8], signature_header: &str) -> (r: bool)
    ensures
        r == is_signed(secret@, body@, signature_header@),
        r ==> signature_text(signature_header@).len() == 64,
{
    match signature_bytes(signature_header) {
        Some(provided) => hmac_sha256_verify(secret.as_bytes(), body, provided.as_slice()),
        None => false,
    }
}

/// The lower-case hexadecimal digit for a number below sixteen.
pub open spec fn hex_char(n: int) -> char {
    if n < 10 {
        ('0' as int + n) as char
    } else {
        ('a' as int + n - 10) as char
    }
}

/// `bytes` in hexadecimal, two lower-case digits for each.
pub open spec fn hex_text(bytes: Seq<u8>) -> Seq<char> {
    Seq::new(
        2 * bytes.len(),
        |i: int|
            if i % 2 == 0 {
                hex_char(bytes[i / 2] as int / 16)
            } else {
                hex_char(bytes[i / 2] as int % 16)
            },
    )
}

/// The hexadecimal notation of bytes denotes those bytes.
pub proof fn lemma_hex_round_trip(bytes: Seq<u8>)
    ensures
        hex_bytes(hex_text(bytes)) == Some(bytes),
{
    let s = hex_text(bytes);
    assert forall|i: int| 0 <= i < s.len() implies is_hex(#[trigger] s[i]) by {
        let b = bytes[i / 2] as int;
        assert(0 <= b / 16 < 16 && 0 <= b % 16 < 16);
    }
    let back = hex_bytes(s)->0;
    assert forall|i: int| 0 <= i < bytes.len() implies back[i] == #[trigger] bytes[i] by {
        let b = bytes[i] as int;
        assert((2 * i) / 2 == i && (2 * i) % 2 == 0);
        assert((2 * i + 1) / 2 == i && (2 * i + 1) % 2 == 1);
        assert(s[2 * i] == hex_char(b / 16));
        assert(s[2 * i + 1] == hex_char(b % 16));
        assert(hex_value(hex_char(b / 16)) == b / 16);
        assert(hex_value(hex_char(b % 16)) == b % 16);
    }
    assert(back =~= bytes);
}

/// The header that is made of `sha256=` and a hexadecimal text is accepted if
/// and only if the text denotes the code of the body under the secret.
pub proof fn law_signature_exact(secret: Seq<char>, body: Seq<u8>, text: Seq<char>)
    ensures
        is_signed(secret, body, "sha256="@ + text) <==> hex_bytes(trimmed(text)) == Some(
            hmac_sha256(encode_utf8(secret), body),
        ),
{
    reveal_strlit("sha256=");
    let prefix = "sha256="@;
    let header = prefix + text;
    assert(!is_space(header[0]));
    assert(trimmed_start(header) == header);
    lemma_trimmed_end_behind(prefix, text);
    assert(trimmed(header) == prefix + trimmed_end(text));
    assert((prefix + trimmed_end(text)).skip(prefix.len() as int) =~= trimmed_end(text));
    assert(prefix.is_prefix_of(prefix + trimmed_end(text)));
    lemma_trimmed_of_end(text);
}

/// The signature that the sender makes is accepted: `sha256=` and the code of
/// the body under the secret, in hexadecimal.
pub proof fn law_valid_signature_accepted(secret: Seq<char>, body: Seq<u8>)
    ensures
        is_signed(
            secret,
            body,
            "sha256="@ + hex_text(hmac_sha256(encode_utf8(secret), body)),
        ),
{
    let text = hex_text(hmac_sha256(encode_utf8(secret), body));
    lemma_hex_round_trip(hmac_sha256(encode_utf8(secret), body));
    law_signature_exact(secret, body, text);
    assert(forall|i: int| 0 <= i < text.len() ==> is_hex(#[trigger] text[i]));
    lemma_trimmed_fixed(text);
}

proof fn lemma_trimmed_end_behind(prefix: Seq<char>, text: Seq<char>)
    requires
        prefix.len() > 0,
        !is_space(prefix.last()),
    ensures
        trimmed_end(prefix + text) == prefix + trimmed_end(text),
    decreases text.len(),
{
    let s = prefix + text;
    if text.len() == 0 {
        assert(s =~= prefix);
        assert(prefix + trimmed_end(text) =~= prefix);
    } else if is_space(text.last()) {
        assert(s.drop_last() =~= prefix + text.drop_last());
        lemma_trimmed_end_behind(prefix, text.drop_last());
    }
}

proof fn lemma_trimmed_start_push(s: Seq<char>, c: char)
    requires
        is_space(c),
    ensures
        trimmed_end(trimmed_start(s.push(c))) == trimmed_end(trimmed_start(s)),
    decreases s.len(),
{
    if s.len() > 0 && is_space(s.first()) {
        assert(s.push(c).drop_first() =~= s.drop_first().push(c));
        lemma_trimmed_start_push(s.drop_first(), c);
    } else if s.len() == 0 {
        assert(s.push(c).drop_first() =~= s);
    } else {
        assert(s.push(c).drop_last() =~= s);
    }
}

proof fn lemma_trimmed_of_end(s: Seq<char>)
    ensures
        trimmed(trimmed_end(s)) == trimmed(s),
    decreases s.len(),
{
    if s.len() > 0 && is_space(s.last()) {
        lemma_trimmed_of_end(s.drop_last());
        assert(s.drop_last().push(s.last()) =~= s);
        lemma_trimmed_start_push(s.drop_last(), s.last());
    }
}

/// A header without the prefix is accepted if and only if it denotes the code of
/// the body under the secret itself.
pub proof fn law_signature_without_prefix(secret: Seq<char>, body: Seq<u8>, header: Seq<char>)
    requires
        !"sha256="@.is_prefix_of(trimmed(header)),
    ensures
        is_signed(secret, body, header) <==> hex_bytes(trimmed(header)) == Some(
            hmac_sha256(encode_utf8(secret), body),
        ),
{
}

/// White space around a header changes nothing.
pub proof fn law_signature_ignores_white_space(
    secret: Seq<char>,
    body: Seq<u8>,
    before: Seq<char>,
    header: Seq<char>,
    after: Seq<char>,
)
    requires
        is_blank(before),
        is_blank(after),
    ensures
        signature_text(before + header + after) == signature_text(header),
        is_signed(secret, body, before + header + after) == is_signed(secret, body, header),
{
    law_trim_keeps_the_rest(header);
    let core = trimmed(header);
    let (a, b) = choose|a: Seq<char>, b: Seq<char>|
        is_blank(a) && is_blank(b) && header == #[trigger] (a + core + b);
    let x = before + a;
    let y = b + after;
    assert(is_blank(x)) by {
        assert forall|i: int| 0 <= i < x.len() implies is_space(#[trigger] x[i]) by {
            if i < before.len() {
                assert(x[i] == before[i]);
            } else {
                assert(x[i] == a[i - before.len()]);
            }
        }
    }
    assert(is_blank(y)) by {
        assert forall|i: int| 0 <= i < y.len() implies is_space(#[trigger] y[i]) by {
            if i < b.len() {
                assert(y[i] == b[i]);
            } else {
                assert(y[i] == after[i - b.len()]);
            }
        }
    }
    assert(before + header + after =~= x + core + y);
    law_trim_takes_blank_ends(x, core, y);
}

/// A header that is accepted for a body is accepted for another body, or under
/// another secret, only if the code is the same.
pub proof fn law_signature_binds(
    secret: Seq<char>,
    other_secret: Seq<char>,
    body: Seq<u8>,
    other_body: Seq<u8>,
    header: Seq<char>,
)
    requires
        is_signed(secret, body, header),
    ensures
        is_signed(other_secret, other_body, header) <==> hmac_sha256(
            encode_utf8(other_secret),
            other_body,
        ) == hmac_sha256(encode_utf8(secret), body),
{
}

/// Two hexadecimal digits behind a text add one byte to what it denotes, sixteen
/// times the first digit and the second. What has an odd number of characters, or
/// one that is no digit, denotes nothing.
pub proof fn law_hex_digits(s: Seq<char>, c: char, d: char)
    requires
        is_hex(c),
        is_hex(d),
    ensures
        hex_bytes(seq![]) == Some(Seq::<u8>::empty()),
        hex_bytes(s) matches Some(bytes) ==> hex_bytes(s.push(c).push(d)) == Some(
            bytes.push((16 * hex_value(c) + hex_value(d)) as u8),
        ),
        s.len() % 2 == 1 ==> hex_bytes(s) is None,
        forall|i: int| 0 <= i < s.len() && !is_hex(#[trigger] s[i]) ==> hex_bytes(s) is None,
{
    assert(hex_bytes(seq![])->0 =~= Seq::<u8>::empty());
    if let Some(bytes) = hex_bytes(s) {
        let longer = s.push(c).push(d);
        assert forall|i: int| 0 <= i < longer.len() implies is_hex(#[trigger] longer[i]) by {
            if i < s.len() {
                assert(longer[i] == s[i]);
            }
        }
        assert(hex_bytes(longer)->0 =~= bytes.push((16 * hex_value(c) + hex_value(d)) as u8));
    }
}

} // verus!
