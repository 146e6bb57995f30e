//! AWS Signature Version 4: the canonical request, the string to sign, the
//! derived signing key and the `Authorization` header.
//!
//! Every function here is a function of its arguments alone. SHA-256 and
//! HMAC-SHA256 are computed by the `sha2` and `hmac` crates; what they return
//! is named by [`sha256_digest`] and [`hmac_sha256_tag`] and not described
//! further.

use crate::order::{lemma_sorted_stays, line_le, sort_lines, sorted_lines};
use crate::text::{
    concat2, first_place_of, join, join_slices, joined, lemma_first_place_of, slice_texts, texts,
};
use vstd::prelude::*;
use vstd::string::*;
use vstd::utf8::*;

verus! {

/// The SHA-256 digest of `data`, as the `sha2` crate computes it.
pub uninterp spec fn sha256_digest(data: Seq<u8>) -> Seq<u8>;

/// The HMAC-SHA256 tag of `message` under `key`, as the `hmac` crate computes
/// it.
pub uninterp spec fn hmac_sha256_tag(key: Seq<u8>, message: Seq<u8>) -> Seq<u8>;

/// The lower-case hexadecimal digit for a value below 16.
pub open spec fn hex_digit(nibble: u8) -> char {
    if nibble < 10 {
        (48 + nibble) as u8 as char
    } else {
        (87 + nibble) as u8 as char
    }
}

/// Two lower-case hexadecimal digits for each byte, high digit first.
pub open spec fn lower_hex(data: Seq<u8>) -> Seq<char>
    decreases data.len(),
{
    if data.len() == 0 {
        Seq::empty()
    } else {
        lower_hex(data.drop_last()) + seq![hex_digit(data.last() / 16), hex_digit(data.last() % 16)]
    }
}

/// `sha2::Sha256::digest`: the result is the SHA-256 digest of `data`, which
/// is 32 bytes long.
#[verifier::external_body]
fn sha256(data: &[u8]) -> (r: Vec<u8>)
    ensures
        r@ == sha256_digest(data@),
        r@.len() == 32,
{
    <sha2::Sha256 as sha2::Digest>::digest(data).to_vec()
}

/// `hmac::Hmac<sha2::Sha256>`, keyed with `key` and fed `message`: the result
/// is the 32-byte tag. The crate accepts a key of any length.
#[verifier::external_body]
fn hmac_sha256(key: &[u8], message: &[u8]) -> (r: Vec<u8>)
    ensures
        r@ == hmac_sha256_tag(key@, message@),
        r@.len() == 32,
{
    let mut mac = <hmac::Hmac<sha2::Sha256> as hmac::Mac>::new_from_slice(key).unwrap();
    hmac::Mac::update(&mut mac, message);
    hmac::Mac::finalize(mac).into_bytes().to_vec()
}

/// `hex::encode`: two lower-case hexadecimal digits per byte.
#[verifier::external_body]
fn hex_encode(data: &[u8]) -> (r: String)
    ensures
        r@ == lower_hex(data@),
{
    hex::encode(data)
}

/// Computes the HMAC-SHA256 tag of `msg` under `key`.
pub fn sign(key: &[u8], msg: &[u8]) -> (r: Vec<u8>)
    ensures
        r@ == hmac_sha256_tag(key@, msg@),
        r@.len() == 32,
{
    hmac_sha256(key, msg)
}

/// The signing key for a secret key, a date (`YYYYMMDD`), a region and a
/// service: four chained tags, seeded with `"AWS4"` followed by the secret,
/// over the date, the region, the service and `"aws4_request"`, each tag the
/// key of the next.
pub open spec fn signing_key(
    key: Seq<char>,
    date: Seq<char>,
    region: Seq<char>,
    service: Seq<char>,
) -> Seq<u8> {
    let k_date = hmac_sha256_tag(encode_utf8("AWS4"@ + key), encode_utf8(date));
    let k_region = hmac_sha256_tag(k_date, encode_utf8(region));
    let k_service = hmac_sha256_tag(k_region, encode_utf8(service));
    hmac_sha256_tag(k_service, encode_utf8("aws4_request"@))
}

/// Derives the signing key from the secret access key, the request date, the
/// region and the service.
pub fn derive_signing_key(key: &str, date: &str, region: &str, service: &str) -> (r: Vec<u8>)
    ensures
        r@ == signing_key(key@, date@, region@, service@),
        r@.len() == 32,
{
    let seed = concat2("AWS4", key);
    let k_date = sign(seed.as_str().as_bytes(), date.as_bytes());
    let k_region = sign(k_date.as_slice(), region.as_bytes());
    let k_service = sign(k_region.as_slice(), service.as_bytes());
    sign(k_service.as_slice(), "aws4_request".as_bytes())
}

/// The signature of a string to sign: its tag under the signing key, in
/// lower-case hexadecimal.
pub open spec fn signature(signing_key: Seq<u8>, string_to_sign: Seq<char>) -> Seq<char> {
    lower_hex(hmac_sha256_tag(signing_key, encode_utf8(string_to_sign)))
}

/// Calculates the signature of `string_to_sign` under `signing_key`.
pub fn calculate_signature(signing_key: &[u8], string_to_sign: &str) -> (r: String)
    ensures
        r@ == signature(signing_key@, string_to_sign@),
{
    let tag = sign(signing_key, string_to_sign.as_bytes());
    hex_encode(tag.as_slice())
}

/// The SHA-256 digest of a text's UTF-8 bytes, in lower-case hexadecimal.
pub open spec fn hashed_text(text: Seq<char>) -> Seq<char> {
    lower_hex(sha256_digest(encode_utf8(text)))
}

/// Hashes a text with SHA-256 and hex-encodes the digest.
pub fn hash_text(text: &str) -> (r: String)
    ensures
        r@ == hashed_text(text@),
{
    let digest = sha256(text.as_bytes());
    hex_encode(digest.as_slice())
}

/// An ASCII capital letter as its small letter; any other character as it is.
pub open spec fn lower_ascii(c: char) -> char {
    if 'A' <= c <= 'Z' {
        ((c as u8) + 32) as u8 as char
    } else {
        c
    }
}

/// A header line with its name in small letters: the characters before the
/// first colon are lowered, the colon and the value stay as they are.
pub open spec fn lowered_name(line: Seq<char>) -> Seq<char> {
    Seq::new(
        line.len(),
        |i: int|
            if i < first_place_of(line, ':') {
                lower_ascii(line[i])
            } else {
                line[i]
            },
    )
}

/// Header lines, each with its name in small letters.
pub open spec fn lowered_names(lines: Seq<Seq<char>>) -> Seq<Seq<char>> {
    Seq::new(lines.len(), |i: int| lowered_name(lines[i]))
}

/// The header lines as they stand in the canonical request: the names in
/// small letters, the lines in the order of their names, and lines of one name
/// in the order of the whole lines.
pub open spec fn canonical_header_block(lines: Seq<Seq<char>>) -> Seq<Seq<char>> {
    sorted_lines(lowered_names(lines))
}

/// Header lines that are in canonical form stand in the canonical request as
/// they are given: where every name is in small letters already and the lines
/// are in order, nothing is changed.
pub proof fn lemma_canonical_lines_stay(lines: Seq<Seq<char>>)
    requires
        forall|i: int| 0 <= i < lines.len() ==> lowered_name(#[trigger] lines[i]) == lines[i],
        forall|i: int, j: int| 0 <= i < j < lines.len() ==> line_le(lines[i], lines[j]),
    ensures
        canonical_header_block(lines) == lines,
{
    assert(lowered_names(lines) =~= lines);
    lemma_sorted_stays(lines);
}

/// Writes a header line with its name in small letters.
pub fn lower_header_name(line: &str) -> (r: String)
    ensures
        r@ == lowered_name(line@),
{
    let mut out = String::new();
    let mut in_name = true;
    let ghost colon = first_place_of(line@, ':');
    proof {
        assert(line@.skip(0) =~= line@);
        lemma_first_place_of(line@, ':');
    }
    for c in it: line.chars()
        invariant
            it.seq() == line@,
            colon == first_place_of(line@, ':'),
            0 <= colon <= line@.len(),
            colon < line@.len() ==> line@[colon] == ':',
            forall|i: int| 0 <= i < colon ==> line@[i] != ':',
            out@ == lowered_name(line@).take(it.index() as int),
            in_name == (it.index() <= colon),
    {
        assert(c == line@[it.index() as int]);
        if c == ':' {
            in_name = false;
        }
        if in_name && c >= 'A' && c <= 'Z' {
            let lowered = ((c as u8) + 32) as char;
            assert(lowered == lower_ascii(c));
            out.push(lowered);
        } else {
            assert(it.index() < colon ==> lower_ascii(c) == c);
            out.push(c);
        }
        assert(out@ =~= lowered_name(line@).take(it.index() + 1));
    }
    assert(lowered_name(line@).take(line@.len() as int) =~= lowered_name(line@));
    out
}

/// Writes header lines with their names in small letters.
pub fn lower_header_names(lines: &[String]) -> (r: Vec<String>)
    ensures
        texts(r@) == lowered_names(texts(lines@)),
{
    let mut lowered: Vec<String> = Vec::new();
    let mut i: usize = 0;
    while i < lines.len()
        invariant
            i <= lines@.len(),
            lowered@.len() == i,
            forall|j: int| 0 <= j < i ==> lowered@[j]@ == lowered_name(lines@[j]@),
        decreases lines@.len() - i,
    {
        lowered.push(lower_header_name(lines[i].as_str()));
        i += 1;
    }
    assert(texts(lowered@) =~= lowered_names(texts(lines@)));
    lowered
}

/// The canonical request: the verb, the URI, the query string, the header
/// lines with their names in small letters, sorted by name, joined by newlines and
/// followed by an empty line, the signed header names joined by semicolons,
/// and the hex-encoded SHA-256 digest of the payload, one below the other.
pub open spec fn canonical_request(
    http_verb: Seq<char>,
    canonical_uri: Seq<char>,
    canonical_query_string: Seq<char>,
    canonical_headers: Seq<Seq<char>>,
    signed_headers: Seq<Seq<char>>,
    payload: Seq<char>,
) -> Seq<char> {
    http_verb + "\n"@ + canonical_uri + "\n"@ + canonical_query_string + "\n"@ + joined(
        canonical_header_block(canonical_headers),
        "\n"@,
    ) + "\n\n"@ + joined(signed_headers, ";"@) + "\n"@ + hashed_text(payload)
}

/// Arranges the parts of a request into the canonical request. The names of
/// the header lines are written in small letters and the lines are put in the
/// order of their names; the signed header names are taken as they are given.
pub fn create_canonical_request(
    http_verb: &str,
    canonical_uri: &str,
    canonical_query_string: &str,
    canonical_headers: &[String],
    signed_headers: &[&str],
    payload: &str,
) -> (r: String)
    ensures
        r@ == canonical_request(
            http_verb@,
            canonical_uri@,
            canonical_query_string@,
            texts(canonical_headers@),
            slice_texts(signed_headers@),
            payload@,
        ),
{
    let lowered = lower_header_names(canonical_headers);
    let sorted_headers = sort_lines(lowered.as_slice());
    let header_lines = join(sorted_headers.as_slice(), "\n");
    let signed = join_slices(signed_headers, ";");
    let hashed_payload = hash_text(payload);
    let mut out = String::from_str(http_verb);
    out.append("\n");
    out.append(canonical_uri);
    out.append("\n");
    out.append(canonical_query_string);
    out.append("\n");
    out.append(header_lines.as_str());
    out.append("\n\n");
    out.append(signed.as_str());
    out.append("\n");
    out.append(hashed_payload.as_str());
    out
}

/// The string to sign: the algorithm, the timestamp, the credential scope and
/// the hex-encoded SHA-256 digest of the canonical request, one below the
/// other.
pub open spec fn string_to_sign(
    algorithm: Seq<char>,
    timestamp: Seq<char>,
    credential_scope: Seq<char>,
    canonical_request: Seq<char>,
) -> Seq<char> {
    algorithm + "\n"@ + timestamp + "\n"@ + credential_scope + "\n"@ + hashed_text(
        canonical_request,
    )
}

/// Creates the string to sign for a canonical request.
pub fn create_string_to_sign(
    algorithm: &str,
    timestamp: &str,
    credential_scope: &str,
    canonical_request: &str,
) -> (r: String)
    ensures
        r@ == string_to_sign(algorithm@, timestamp@, credential_scope@, canonical_request@),
{
    let hashed_request = hash_text(canonical_request);
    let mut out = String::from_str(algorithm);
    out.append("\n");
    out.append(timestamp);
    out.append("\n");
    out.append(credential_scope);
    out.append("\n");
    out.append(hashed_request.as_str());
    out
}

/// The value of the `Authorization` header:
/// `<algorithm> Credential=<credential>/<scope>, SignedHeaders=<names>, Signature=<signature>`,
/// the names joined by semicolons.
pub open spec fn authorization_header(
    algorithm: Seq<char>,
    credential: Seq<char>,
    scope: Seq<char>,
    signed_headers: Seq<Seq<char>>,
    signature: Seq<char>,
) -> Seq<char> {
    algorithm + " Credential="@ + credential + "/"@ + scope + ", SignedHeaders="@ + joined(
        signed_headers,
        ";"@,
    ) + ", Signature="@ + signature
}

/// Creates the value of the `Authorization` header.
pub fn create_authorization_header(
    algorithm: &str,
    credential: &str,
    scope: &str,
    signed_headers: &[&str],
    signature: &str,
) -> (r: String)
    ensures
        r@ == authorization_header(
            algorithm@,
            credential@,
            scope@,
            slice_texts(signed_headers@),
            signature@,
        ),
{
    let signed = join_slices(signed_headers, ";");
    let mut out = String::from_str(algorithm);
    out.append(" Credential=");
    out.append(credential);
    out.append("/");
    out.append(scope);
    out.append(", SignedHeaders=");
    out.append(signed.as_str());
    out.append(", Signature=");
    out.append(signature);
    out
}

} // verus!
