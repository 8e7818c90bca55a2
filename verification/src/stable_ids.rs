//! Stable identifiers for WhatsApp records. An identifier is a versioned
//! prefix, a colon and the lower-case hex SHA-256 of the trimmed parts, each
//! part followed by a zero byte; equal parts give equal identifiers across
//! runs and machines.

use vstd::prelude::*;
use vstd::utf8::encode_utf8;
use crate::text::{chars_of, string_from_chars, trim_chars, trim_text};
use sha2::Digest;

verus! {

/// The SHA-256 digest of `data`.
pub uninterp spec fn sha256(data: Seq<u8>) -> Seq<u8>;

/// `sha2::Sha256::digest`: the SHA-256 digest of `data`.
#[verifier::external_body]
fn sha256_digest(data: &[u8]) -> (digest: [u8; 32])
    ensures
        digest@ == sha256(data@),
{
    sha2::Sha256::digest(data).into()
}

/// The lower-case hex digit of `n < 16`.
pub open spec fn hex_digit(n: u8) -> char {
    if n < 10 {
        ((n + 48) as u8) as char
    } else {
        ((n + 87) as u8) as char
    }
}

/// The lower-case hex text of `bytes`, two digits per byte.
pub open spec fn hex_lower(bytes: Seq<u8>) -> Seq<char>
    decreases bytes.len(),
{
    if bytes.len() == 0 {
        seq![]
    } else {
        hex_lower(bytes.drop_last()) + seq![
            hex_digit(bytes.last() / 16),
            hex_digit(bytes.last() % 16),
        ]
    }
}

/// The bytes that are hashed for `parts`: each part trimmed, UTF-8 encoded
/// and followed by a zero byte.
pub open spec fn id_message(parts: Seq<Seq<char>>) -> Seq<u8>
    decreases parts.len(),
{
    if parts.len() == 0 {
        seq![]
    } else {
        id_message(parts.drop_last()) + encode_utf8(trim_chars(parts.last())) + seq![0u8]
    }
}

/// The stable identifier of `parts` under `prefix`.
pub open spec fn stable_id(prefix: Seq<char>, parts: Seq<Seq<char>>) -> Seq<char> {
    prefix + seq![':'] + hex_lower(sha256(id_message(parts)))
}

/// The texts of `parts`.
pub open spec fn part_texts(parts: Seq<&str>) -> Seq<Seq<char>> {
    parts.map_values(|p: &str| p@)
}

/// `prefix` followed by the lower-case hex of `digest`.
fn hex_with_prefix(prefix: Vec<char>, digest: &[u8; 32]) -> (out: Vec<char>)
    ensures
        out@ == prefix@ + hex_lower(digest@),
{
    let mut out = prefix;
    let ghost start = out@;
    let mut i: usize = 0;
    while i < 32
        invariant
            i <= 32,
            digest@.len() == 32,
            out@ == start + hex_lower(digest@.subrange(0, i as int)),
        decreases 32 - i,
    {
        let byte = digest[i];
        let high = byte / 16;
        let low = byte % 16;
        let h: char = if high < 10 { ((high + 48) as u8) as char } else { ((high + 87) as u8) as char };
        let l: char = if low < 10 { ((low + 48) as u8) as char } else { ((low + 87) as u8) as char };
        out.push(h);
        out.push(l);
        assert(digest@.subrange(0, i as int + 1).drop_last() =~= digest@.subrange(0, i as int));
        assert(out@ =~= start + hex_lower(digest@.subrange(0, i as int + 1)));
        i = i + 1;
    }
    assert(digest@.subrange(0, 32) =~= digest@);
    out
}

/// The stable identifier of `parts` under `prefix`: `prefix:hex(sha256)`.
pub fn stable_whatsapp_id(prefix: &str, parts: &[&str]) -> (id: String)
    ensures
        id@ == stable_id(prefix@, part_texts(parts@)),
        id@.len() == prefix@.len() + 65,
{
    let mut message: Vec<u8> = Vec::new();
    let mut i: usize = 0;
    while i < parts.len()
        invariant
            i <= parts@.len(),
            message@ == id_message(part_texts(parts@.subrange(0, i as int))),
        decreases parts@.len() - i,
    {
        let trimmed = trim_text(parts[i]);
        let bytes = trimmed.as_str().as_bytes();
        let mut k: usize = 0;
        let ghost before = message@;
        while k < bytes.len()
            invariant
                k <= bytes@.len(),
                message@ == before + bytes@.subrange(0, k as int),
            decreases bytes@.len() - k,
        {
            message.push(bytes[k]);
            assert(bytes@.subrange(0, k as int + 1) =~= bytes@.subrange(0, k as int).push(
                bytes@[k as int],
            ));
            k = k + 1;
        }
        message.push(0u8);
        assert(bytes@.subrange(0, k as int) =~= bytes@);
        assert(part_texts(parts@.subrange(0, i as int + 1)).drop_last() =~= part_texts(
            parts@.subrange(0, i as int),
        ));
        assert(message@ =~= id_message(part_texts(parts@.subrange(0, i as int + 1))));
        i = i + 1;
    }
    assert(parts@.subrange(0, i as int) =~= parts@);
    let digest = sha256_digest(message.as_slice());
    let mut head = chars_of(prefix);
    head.push(':');
    let out = hex_with_prefix(head, &digest);
    proof {
        lemma_hex_lower_len(digest@);
    }
    string_from_chars(out.as_slice())
}

/// The hex text of `bytes` has two characters per byte.
pub proof fn lemma_hex_lower_len(bytes: Seq<u8>)
    ensures
        hex_lower(bytes).len() == 2 * bytes.len(),
    decreases bytes.len(),
{
    if bytes.len() > 0 {
        lemma_hex_lower_len(bytes.drop_last());
    }
}

/// The texts of `parts`, each trimmed.
pub open spec fn trimmed_parts(parts: Seq<Seq<char>>) -> Seq<Seq<char>> {
    parts.map_values(|p: Seq<char>| trim_chars(p))
}

/// Law: white space around a part does not change an identifier; the parts
/// and their trimmed forms give the same id.
pub proof fn lemma_stable_id_ignores_surrounding_white_space(
    prefix: Seq<char>,
    parts: Seq<Seq<char>>,
)
    ensures
        stable_id(prefix, trimmed_parts(parts)) == stable_id(prefix, parts),
{
    lemma_id_message_of_trimmed(parts);
}

proof fn lemma_id_message_of_trimmed(parts: Seq<Seq<char>>)
    ensures
        id_message(trimmed_parts(parts)) == id_message(parts),
    decreases parts.len(),
{
    if parts.len() > 0 {
        lemma_id_message_of_trimmed(parts.drop_last());
        assert(trimmed_parts(parts).drop_last() =~= trimmed_parts(parts.drop_last()));
        crate::text::lemma_trim_is_idempotent(parts.last());
    }
}

/// `sha256:` followed by the lower-case hex SHA-256 of `bytes`.
fn sha256_reference(bytes: &[u8]) -> (reference: String)
    ensures
        reference@ == "sha256:"@ + hex_lower(sha256(bytes@)),
{
    let digest = sha256_digest(bytes);
    let head = chars_of("sha256:");
    let out = hex_with_prefix(head, &digest);
    string_from_chars(out.as_slice())
}

/// The content reference of uploaded media bytes: `sha256:<hex>`.
pub fn upload_media_sha256(bytes: &[u8]) -> (reference: String)
    ensures
        reference@ == "sha256:"@ + hex_lower(sha256(bytes@)),
{
    sha256_reference(bytes)
}

/// The content reference of fixture media made from `seed`: the SHA-256 of
/// the seed's UTF-8 bytes, untrimmed.
pub fn fixture_media_sha256(seed: &str) -> (reference: String)
    ensures
        reference@ == "sha256:"@ + hex_lower(sha256(encode_utf8(seed@))),
{
    sha256_reference(seed.as_bytes())
}

} // verus!
