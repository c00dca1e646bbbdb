//! Hashes, message authentication codes, encodings and signed tokens.
//!
//! Every function here that is marked as trusted hands its arguments to an outside crate. Its
//! contract is what the rest of the library believes of that crate.
use crate::text::{find_char, part};
use base64::Engine;
use hmac::Mac;
use sha2::Digest;
use vstd::arithmetic::power::pow;
use vstd::prelude::*;

verus! {

/// SHA-256 of a byte string.
pub uninterp spec fn sha256_of(data: Seq<u8>) -> Seq<u8>;

/// HMAC-SHA-256 of a message under a key.
pub uninterp spec fn hmac_sha256_of(key: Seq<u8>, message: Seq<u8>) -> Seq<u8>;

/// The UUID that a text spells in one of the forms that the `uuid` crate reads.
pub uninterp spec fn uuid_of_text(text: Seq<char>) -> Option<u128>;

/// The string under a key of the top-level object of a JSON document.
pub uninterp spec fn json_string_at(document: Seq<u8>, key: Seq<char>) -> Option<Seq<char>>;

/// The `i64` under a key of the top-level object of a JSON document.
pub uninterp spec fn json_integer_at(document: Seq<u8>, key: Seq<char>) -> Option<i64>;

/// The `typ` and the `kid` of a JSON Web Token's header.
pub uninterp spec fn jwt_header_of(
    token: Seq<char>,
) -> Option<(Option<Seq<char>>, Option<Seq<char>>)>;

/// Whether a PEM holds an RSA public key that can be read.
pub uninterp spec fn rsa_pem_readable(public_pem: Seq<char>) -> bool;

/// Whether a PEM holds a public key on an elliptic curve that can be read.
pub uninterp spec fn ec_pem_readable(public_pem: Seq<char>) -> bool;

/// Whether a PEM holds a public key that can be read: one on an elliptic curve where `elliptic`
/// holds, an RSA key otherwise.
pub open spec fn public_key_readable(elliptic: bool, public_pem: Seq<char>) -> bool {
    if elliptic {
        ec_pem_readable(public_pem)
    } else {
        rsa_pem_readable(public_pem)
    }
}

/// Whether a JSON Web Token is well formed and its RS256 signature holds under a public key.
pub uninterp spec fn rs256_holds(token: Seq<char>, public_pem: Seq<char>) -> bool;

/// Whether a JSON Web Token is well formed and its ES256 signature holds under a public key.
pub uninterp spec fn es256_holds(token: Seq<char>, public_pem: Seq<char>) -> bool;

/// Whether a JSON Web Token's signature holds under a public key: ES256 where `elliptic` holds,
/// RS256 otherwise.
pub open spec fn jwt_signature_holds(
    token: Seq<char>,
    elliptic: bool,
    public_pem: Seq<char>,
) -> bool {
    if elliptic {
        es256_holds(token, public_pem)
    } else {
        rs256_holds(token, public_pem)
    }
}

/// Trusted: `sha2::Sha256::digest` computes SHA-256, which is 32 bytes long.
#[verifier::external_body]
fn sha256(data: &[u8]) -> (r: Vec<u8>)
    ensures
        r@ == sha256_of(data@),
        r@.len() == 32,
{
    sha2::Sha256::digest(data).to_vec()
}

/// Trusted: `hmac::Hmac<sha2::Sha256>` with `new_from_slice`, which takes a key of any length,
/// `update` and `finalize` computes HMAC-SHA-256, which is 32 bytes long.
#[verifier::external_body]
pub(crate) fn hmac_sha256(key: &[u8], message: &[u8]) -> (r: Vec<u8>)
    ensures
        r@ == hmac_sha256_of(key@, message@),
        r@.len() == 32,
{
    let mut mac = <hmac::Hmac<sha2::Sha256> as Mac>::new_from_slice(key).expect("any key length");
    mac.update(message);
    mac.finalize().into_bytes().to_vec()
}

/// Trusted: `hmac::Mac::verify_slice` accepts a tag where it is the message's HMAC-SHA-256, whole
/// and byte for byte.
#[verifier::external_body]
pub(crate) fn hmac_sha256_verify(key: &[u8], message: &[u8], tag: &[u8]) -> (r: bool)
    ensures
        r == (tag@ == hmac_sha256_of(key@, message@)),
{
    let mut mac = <hmac::Hmac<sha2::Sha256> as Mac>::new_from_slice(key).expect("any key length");
    mac.update(message);
    mac.verify_slice(tag).is_ok()
}

/// The lower-case hexadecimal digit of `d`.
pub open spec fn hex_char(d: int) -> char {
    if d < 10 {
        (('0' as u32) + d) as u32 as char
    } else {
        (('a' as u32) + d - 10) as u32 as char
    }
}

/// A byte string in lower-case hexadecimal, two digits for each byte.
pub open spec fn hex_text(data: Seq<u8>) -> Seq<char> {
    Seq::new(
        data.len() * 2,
        |i: int| if i % 2 == 0 { hex_char(data[i / 2] as int / 16) } else { hex_char(data[i / 2] as int % 16) },
    )
}

/// The value of a hexadecimal digit of either case.
pub open spec fn hex_value(c: char) -> Option<int> {
    if '0' <= c <= '9' {
        Some(c as int - '0' as int)
    } else if 'a' <= c <= 'f' {
        Some(c as int - 'a' as int + 10)
    } else if 'A' <= c <= 'F' {
        Some(c as int - 'A' as int + 10)
    } else {
        None
    }
}

/// The bytes that a text of an even number of hexadecimal digits spells.
pub open spec fn hex_bytes(text: Seq<char>) -> Option<Seq<u8>> {
    if text.len() % 2 == 0 && (forall|i: int|
        0 <= i < text.len() ==> hex_value(#[trigger] text[i]) is Some) {
        Some(
            Seq::new(
                (text.len() / 2) as nat,
                |i: int| (hex_value(text[2 * i])->0 * 16 + hex_value(text[2 * i + 1])->0) as u8,
            ),
        )
    } else {
        None
    }
}

/// Trusted: `hex::encode` writes each byte as two lower-case hexadecimal digits.
#[verifier::external_body]
pub(crate) fn hex_encode(data: &[u8]) -> (r: String)
    ensures
        r@ == hex_text(data@),
{
    hex::encode(data)
}

/// Trusted: `hex::decode` reads an even number of hexadecimal digits of either case, and refuses
/// every other text.
#[verifier::external_body]
pub(crate) fn hex_decode(text: &str) -> (r: Option<Vec<u8>>)
    ensures
        match r {
            Some(bytes) => hex_bytes(text@) == Some(bytes@),
            None => hex_bytes(text@) is None,
        },
{
    hex::decode(text).ok()
}

/// The `i`-th of the 32 hexadecimal digits of `id`, the most significant first.
pub open spec fn uuid_nibble(id: u128, i: int) -> int {
    (id as int / pow(16, (31 - i) as nat)) % 16
}

/// A UUID in its usual form: 32 lower-case hexadecimal digits in groups of 8, 4, 4, 4 and 12 with
/// hyphens between them.
pub open spec fn uuid_text_of(id: u128) -> Seq<char> {
    Seq::new(
        36,
        |k: int|
            if k == 8 || k == 13 || k == 18 || k == 23 {
                '-'
            } else {
                hex_char(
                    uuid_nibble(
                        id,
                        if k < 8 { k } else if k < 13 { k - 1 } else if k < 18 { k - 2 } else if k < 23 {
                            k - 3
                        } else {
                            k - 4
                        },
                    ),
                )
            },
    )
}

/// Trusted: the `Display` form of `uuid::Uuid` is the usual hyphenated one, and
/// `uuid::Uuid::parse_str` reads it back.
#[verifier::external_body]
pub(crate) fn uuid_text(id: u128) -> (r: String)
    ensures
        r@ == uuid_text_of(id),
        uuid_of_text(r@) == Some(id),
{
    uuid::Uuid::from_u128(id).to_string()
}

/// Trusted: `uuid::Uuid::parse_str` reads a UUID from a text alone.
#[verifier::external_body]
pub(crate) fn uuid_parse(text: &str) -> (r: Option<u128>)
    ensures
        r == uuid_of_text(text@),
{
    uuid::Uuid::parse_str(text).ok().map(|id| id.as_u128())
}

/// The digit of base64 for `d`, in the alphabet for addresses or in the usual one.
pub open spec fn base64_char(d: int, url_safe: bool) -> char {
    if d < 26 {
        (('A' as u32) + d) as u32 as char
    } else if d < 52 {
        (('a' as u32) + d - 26) as u32 as char
    } else if d < 62 {
        (('0' as u32) + d - 52) as u32 as char
    } else if d == 62 {
        if url_safe {
            '-'
        } else {
            '+'
        }
    } else {
        if url_safe {
            '_'
        } else {
            '/'
        }
    }
}

/// The value of a digit of base64 in the alphabet for addresses.
pub open spec fn base64url_value(c: char) -> Option<int> {
    if 'A' <= c <= 'Z' {
        Some(c as int - 'A' as int)
    } else if 'a' <= c <= 'z' {
        Some(c as int - 'a' as int + 26)
    } else if '0' <= c <= '9' {
        Some(c as int - '0' as int + 52)
    } else if c == '-' {
        Some(62)
    } else if c == '_' {
        Some(63)
    } else {
        None
    }
}

/// The `i`-th byte, or zero beyond the end.
pub open spec fn byte_or_zero(data: Seq<u8>, i: int) -> int {
    if 0 <= i < data.len() {
        data[i] as int
    } else {
        0
    }
}

/// The `k`-th six bits of a byte string, filled up with zeros at its end.
pub open spec fn six_bits(data: Seq<u8>, k: int) -> int {
    let a = byte_or_zero(data, k / 4 * 3);
    let b = byte_or_zero(data, k / 4 * 3 + 1);
    let c = byte_or_zero(data, k / 4 * 3 + 2);
    if k % 4 == 0 {
        a / 4
    } else if k % 4 == 1 {
        a % 4 * 16 + b / 16
    } else if k % 4 == 2 {
        b % 16 * 4 + c / 64
    } else {
        c % 64
    }
}

/// How many digits of base64 a byte string takes without padding.
pub open spec fn base64_digits(data: Seq<u8>) -> nat {
    ((data.len() * 4 + 2) / 3) as nat
}

/// A byte string in unpadded base64url: six bits for each digit.
pub open spec fn base64url_of(data: Seq<u8>) -> Seq<char> {
    Seq::new(base64_digits(data), |k: int| base64_char(six_bits(data, k), true))
}

/// A byte string in padded base64: six bits for each digit, and `=` up to a multiple of four.
pub open spec fn base64_of(data: Seq<u8>) -> Seq<char> {
    Seq::new(
        ((data.len() + 2) / 3 * 4) as nat,
        |k: int|
            if k < base64_digits(data) {
                base64_char(six_bits(data, k), false)
            } else {
                '='
            },
    )
}

/// The bytes that a text spells in unpadded base64url: every character is a digit, there is no digit
/// too many, and the bits behind the last byte are zero.
pub open spec fn base64url_bytes(text: Seq<char>) -> Option<Seq<u8>> {
    let v = |k: int| base64url_value(text[k])->0;
    if text.len() % 4 != 1 && (forall|k: int|
        0 <= k < text.len() ==> base64url_value(#[trigger] text[k]) is Some) && (text.len() % 4 == 2
        ==> v(text.len() - 1) % 16 == 0) && (text.len() % 4 == 3 ==> v(text.len() - 1) % 4 == 0) {
        Some(
            Seq::new(
                (text.len() * 3 / 4) as nat,
                |i: int|
                    (if i % 3 == 0 {
                        v(i / 3 * 4) * 4 + v(i / 3 * 4 + 1) / 16
                    } else if i % 3 == 1 {
                        v(i / 3 * 4 + 1) % 16 * 16 + v(i / 3 * 4 + 2) / 4
                    } else {
                        v(i / 3 * 4 + 2) % 4 * 64 + v(i / 3 * 4 + 3)
                    }) as u8,
            ),
        )
    } else {
        None
    }
}

/// Trusted: `base64`'s engine `URL_SAFE_NO_PAD` reads the alphabet for addresses without padding,
/// and refuses a lone last digit and bits that no byte takes.
#[verifier::external_body]
fn base64url_decode(text: &str) -> (r: Option<Vec<u8>>)
    ensures
        match r {
            Some(bytes) => base64url_bytes(text@) == Some(bytes@),
            None => base64url_bytes(text@) is None,
        },
{
    base64::engine::general_purpose::URL_SAFE_NO_PAD.decode(text).ok()
}

/// Trusted: `base64`'s engine `URL_SAFE_NO_PAD` writes six bits for each digit of the alphabet for
/// addresses, without padding.
#[verifier::external_body]
pub(crate) fn base64url_encode(data: &[u8]) -> (r: String)
    ensures
        r@ == base64url_of(data@),
{
    base64::engine::general_purpose::URL_SAFE_NO_PAD.encode(data)
}

/// Whether a byte is an ASCII letter or digit.
pub open spec fn is_alphanumeric_byte(b: u8) -> bool {
    0x30 <= b <= 0x39 || 0x41 <= b <= 0x5a || 0x61 <= b <= 0x7a
}

/// The upper-case hexadecimal digit of `d`.
pub open spec fn upper_hex_char(d: int) -> char {
    if d < 10 {
        (('0' as u32) + d) as u32 as char
    } else {
        (('A' as u32) + d - 10) as u32 as char
    }
}

/// Bytes with every one but the ASCII letters and digits written as `%XX`.
pub open spec fn percent_text(bytes: Seq<u8>) -> Seq<char>
    decreases bytes.len(),
{
    if bytes.len() == 0 {
        Seq::empty()
    } else {
        let b = bytes.last();
        percent_text(bytes.drop_last()) + if is_alphanumeric_byte(b) {
            seq![b as char]
        } else {
            seq!['%', upper_hex_char(b as int / 16), upper_hex_char(b as int % 16)]
        }
    }
}

/// Trusted: `percent_encoding::utf8_percent_encode` with the set `NON_ALPHANUMERIC` keeps ASCII
/// letters and digits and writes every other byte of the text's UTF-8 form as `%XX`.
#[verifier::external_body]
pub(crate) fn percent_encode(text: &str) -> (r: String)
    ensures
        r@ == percent_text(vstd::utf8::encode_utf8(text@)),
{
    percent_encoding::utf8_percent_encode(text, percent_encoding::NON_ALPHANUMERIC).to_string()
}

/// Trusted: `serde_json::from_slice` reads a document into a `Value`, whose `get` and `as_str` give
/// the string under a key: none where the document is no JSON, no object, or holds no string there.
#[verifier::external_body]
pub(crate) fn json_string(document: &[u8], key: &str) -> (r: Option<String>)
    ensures
        match r {
            Some(s) => json_string_at(document@, key@) == Some(s@),
            None => json_string_at(document@, key@) is None,
        },
{
    let value = serde_json::from_slice::<serde_json::Value>(document).ok()?;
    value.get(key)?.as_str().map(|s| s.to_owned())
}

/// Trusted: `serde_json::from_slice` reads a document into a `Value`, whose `get` and `as_i64` give
/// the integer under a key: none where the document is no JSON, no object, or holds no `i64` there.
#[verifier::external_body]
pub(crate) fn json_integer(document: &[u8], key: &str) -> (r: Option<i64>)
    ensures
        r == json_integer_at(document@, key@),
{
    let value = serde_json::from_slice::<serde_json::Value>(document).ok()?;
    value.get(key)?.as_i64()
}

/// What the library reads of a token's header.
pub struct JwtHeader {
    pub typ: Option<String>,
    pub kid: Option<String>,
}

impl JwtHeader {
    pub open spec fn fields(self) -> (Option<Seq<char>>, Option<Seq<char>>) {
        (crate::text::opt_view(self.typ), crate::text::opt_view(self.kid))
    }
}

/// Trusted: `jsonwebtoken::decode_header` reads the header of a token, or refuses the token; its
/// fields `typ` and `kid` are taken over.
#[verifier::external_body]
pub(crate) fn jwt_header(token: &str) -> (r: Option<JwtHeader>)
    ensures
        match r {
            Some(h) => jwt_header_of(token@) == Some(h.fields()),
            None => jwt_header_of(token@) is None,
        },
{
    let header = jsonwebtoken::decode_header(token).ok()?;
    Some(JwtHeader { typ: header.typ, kid: header.kid })
}

/// What is wrong with bytes that are no UTF-8.
pub uninterp spec fn utf8_fault_of(data: Seq<u8>) -> Seq<char>;

/// Trusted: `base64`'s engine `STANDARD` writes six bits for each digit of the usual alphabet, with
/// padding.
#[verifier::external_body]
pub(crate) fn base64_encode(data: &[u8]) -> (r: String)
    ensures
        r@ == base64_of(data@),
{
    base64::engine::general_purpose::STANDARD.encode(data)
}

/// Trusted: `String::from_utf8` takes exactly the bytes that are UTF-8, as the text that they
/// encode, and says what is wrong with others.
#[verifier::external_body]
pub(crate) fn utf8_text(data: Vec<u8>) -> (r: Result<String, String>)
    ensures
        match r {
            Ok(s) => vstd::utf8::encode_utf8(s@) == data@,
            Err(e) => !vstd::utf8::valid_utf8(data@) && e@ == utf8_fault_of(data@),
        },
{
    String::from_utf8(data).map_err(|e| e.to_string())
}

/// Trusted: `jsonwebtoken::DecodingKey::from_rsa_pem` reads a public key, or refuses the text.
#[verifier::external_body]
fn rsa_key_readable(public_pem: &str) -> (r: bool)
    ensures
        r == rsa_pem_readable(public_pem@),
{
    jsonwebtoken::DecodingKey::from_rsa_pem(public_pem.as_bytes()).is_ok()
}

/// Trusted: `jsonwebtoken::DecodingKey::from_ec_pem` reads a public key, or refuses the text.
#[verifier::external_body]
fn ec_key_readable(public_pem: &str) -> (r: bool)
    ensures
        r == ec_pem_readable(public_pem@),
{
    jsonwebtoken::DecodingKey::from_ec_pem(public_pem.as_bytes()).is_ok()
}

/// Whether a text holds a public key that can be read.
pub(crate) fn key_readable(elliptic: bool, public_pem: &str) -> (r: bool)
    ensures
        r == public_key_readable(elliptic, public_pem@),
{
    if elliptic {
        ec_key_readable(public_pem)
    } else {
        rsa_key_readable(public_pem)
    }
}

/// Trusted: `jsonwebtoken::decode` for RS256, told to look at neither `exp` nor `aud` nor at which
/// claims are there, and to ignore the payload beyond that it is JSON, accepts a token where it is
/// well formed, names that algorithm, and its signature holds under the public key, which
/// `DecodingKey::from_rsa_pem` must read.
#[verifier::external_body]
fn rs256_verify(token: &str, public_pem: &str) -> (r: bool)
    ensures
        r == rs256_holds(token@, public_pem@),
{
    let key = jsonwebtoken::DecodingKey::from_rsa_pem(public_pem.as_bytes());
    let mut validation = jsonwebtoken::Validation::new(jsonwebtoken::Algorithm::RS256);
    validation.validate_exp = false;
    validation.validate_aud = false;
    validation.required_spec_claims.clear();
    key.is_ok_and(|k| jsonwebtoken::decode::<serde::de::IgnoredAny>(token, &k, &validation).is_ok())
}

/// Trusted: `jsonwebtoken::decode` for ES256, told to look at neither `exp` nor `aud` nor at which
/// claims are there, and to ignore the payload beyond that it is JSON, accepts a token where it is
/// well formed, names that algorithm, and its signature holds under the public key, which
/// `DecodingKey::from_ec_pem` must read.
#[verifier::external_body]
fn es256_verify(token: &str, public_pem: &str) -> (r: bool)
    ensures
        r == es256_holds(token@, public_pem@),
{
    let key = jsonwebtoken::DecodingKey::from_ec_pem(public_pem.as_bytes());
    let mut validation = jsonwebtoken::Validation::new(jsonwebtoken::Algorithm::ES256);
    validation.validate_exp = false;
    validation.validate_aud = false;
    validation.required_spec_claims.clear();
    key.is_ok_and(|k| jsonwebtoken::decode::<serde::de::IgnoredAny>(token, &k, &validation).is_ok())
}

/// Whether a token's signature holds under a public key.
pub(crate) fn jwt_verify(token: &str, elliptic: bool, public_pem: &str) -> (r: bool)
    ensures
        r == jwt_signature_holds(token@, elliptic, public_pem@),
{
    if elliptic {
        es256_verify(token, public_pem)
    } else {
        rs256_verify(token, public_pem)
    }
}

/// SHA-256 of a text's UTF-8 form, in lower-case hexadecimal.
pub open spec fn sha256_hex_of(text: Seq<char>) -> Seq<char> {
    hex_text(sha256_of(vstd::utf8::encode_utf8(text)))
}

/// SHA-256 of a text, in hexadecimal.
pub fn sha256_hex(text: &str) -> (r: String)
    ensures
        r@ == sha256_hex_of(text@),
        r@.len() == 64,
{
    let digest: Vec<u8> = sha256(text.as_bytes());
    hex_encode(digest.as_slice())
}

/// Decodes unpadded base64url.
pub fn base64_decode_no_pad(s: &str) -> (r: Option<Vec<u8>>)
    ensures
        match r {
            Some(bytes) => base64url_bytes(s@) == Some(bytes@),
            None => base64url_bytes(s@) is None,
        },
{
    base64url_decode(s)
}

/// The second of the parts between the dots of a token, where it has at least two.
pub open spec fn second_part(token: Seq<char>) -> Option<Seq<char>> {
    match crate::text::first_at(token, '.', 0) {
        None => None,
        Some(i) => Some(
            match crate::text::first_at(token, '.', i + 1) {
                Some(j) => token.subrange(i + 1, j),
                None => token.subrange(i + 1, token.len() as int),
            },
        ),
    }
}

/// The bytes of a token's payload: its second part, decoded.
pub open spec fn token_payload_of(token: Seq<char>) -> Option<Seq<u8>> {
    match second_part(token) {
        Some(p) => base64url_bytes(p),
        None => None,
    }
}

/// Decodes the payload of a token. The signature is not looked at.
pub fn token_payload(token: &str) -> (r: Option<Vec<u8>>)
    ensures
        match r {
            Some(bytes) => token_payload_of(token@) == Some(bytes@),
            None => token_payload_of(token@) is None,
        },
{
    match find_char(token, '.', 0) {
        None => None,
        Some(i) => {
            let n: usize = token.unicode_len();
            let end: usize = match find_char(token, '.', i + 1) {
                Some(j) => j,
                None => n,
            };
            let payload: String = part(token, i + 1, end);
            base64_decode_no_pad(payload.as_str())
        },
    }
}

/// Hexadecimal text reads back.
pub proof fn hex_reads_back(data: Seq<u8>)
    ensures
        hex_bytes(hex_text(data)) == Some(data),
        forall|i: int|
            0 <= i < hex_text(data).len() ==> hex_value(#[trigger] hex_text(data)[i]) is Some,
{
    let t = hex_text(data);
    assert forall|i: int| 0 <= i < t.len() implies hex_value(#[trigger] t[i]) is Some by {
        assert(0 <= data[i / 2] as int / 16 < 16);
    }
    let back = hex_bytes(t)->0;
    assert(back.len() == data.len());
    assert forall|i: int| 0 <= i < data.len() implies back[i] == data[i] by {
        assert((2 * i) % 2 == 0 && (2 * i) / 2 == i);
        assert((2 * i + 1) % 2 == 1 && (2 * i + 1) / 2 == i);
        assert(t[2 * i] == hex_char(data[i] as int / 16));
        assert(t[2 * i + 1] == hex_char(data[i] as int % 16));
        assert(hex_value(t[2 * i]) == Some(data[i] as int / 16));
        assert(hex_value(t[2 * i + 1]) == Some(data[i] as int % 16));
    }
    assert(back =~= data);
}

proof fn lemma_base64_digit(d: int)
    requires
        0 <= d < 64,
    ensures
        base64url_value(base64_char(d, true)) == Some(d),
{
}

proof fn lemma_three_bytes(a: int, b: int, c: int)
    requires
        0 <= a < 256,
        0 <= b < 256,
        0 <= c < 256,
    ensures
        a / 4 * 4 + (a % 4 * 16 + b / 16) / 16 == a,
        (a % 4 * 16 + b / 16) % 16 * 16 + (b % 16 * 4 + c / 64) / 4 == b,
        (b % 16 * 4 + c / 64) % 4 * 64 + c % 64 == c,
        (a % 4 * 16) % 16 == 0,
        (b % 16 * 4) % 4 == 0,
{
    assert((a % 4 * 16 + b / 16) / 16 == a % 4);
    assert((a % 4 * 16 + b / 16) % 16 == b / 16);
    assert((b % 16 * 4 + c / 64) / 4 == b % 16);
    assert((b % 16 * 4 + c / 64) % 4 == c / 64);
}

proof fn lemma_six_bits(data: Seq<u8>, q: int)
    requires
        q >= 0,
    ensures
        ({
            let a = byte_or_zero(data, 3 * q);
            let b = byte_or_zero(data, 3 * q + 1);
            let c = byte_or_zero(data, 3 * q + 2);
            &&& 0 <= a < 256 && 0 <= b < 256 && 0 <= c < 256
            &&& six_bits(data, 4 * q) == a / 4
            &&& six_bits(data, 4 * q + 1) == a % 4 * 16 + b / 16
            &&& six_bits(data, 4 * q + 2) == b % 16 * 4 + c / 64
            &&& six_bits(data, 4 * q + 3) == c % 64
        }),
{
    assert((4 * q) / 4 == q && (4 * q + 1) / 4 == q && (4 * q + 2) / 4 == q && (4 * q + 3) / 4
        == q);
    assert((4 * q) % 4 == 0 && (4 * q + 1) % 4 == 1 && (4 * q + 2) % 4 == 2 && (4 * q + 3) % 4
        == 3);
}

proof fn lemma_base64_digits(data: Seq<u8>, k: int)
    requires
        0 <= k < base64_digits(data),
    ensures
        base64url_value(base64url_of(data)[k]) == Some(six_bits(data, k)),
{
    lemma_six_bits(data, k / 4);
    assert(k == 4 * (k / 4) || k == 4 * (k / 4) + 1 || k == 4 * (k / 4) + 2 || k == 4 * (k / 4) + 3);
    assert(0 <= six_bits(data, k) < 64);
    lemma_base64_digit(six_bits(data, k));
}

proof fn lemma_base64_byte(data: Seq<u8>, i: int)
    requires
        0 <= i < data.len(),
    ensures
        ({
            let v = |k: int| base64url_value(base64url_of(data)[k])->0;
            data[i] == if i % 3 == 0 {
                v(i / 3 * 4) * 4 + v(i / 3 * 4 + 1) / 16
            } else if i % 3 == 1 {
                v(i / 3 * 4 + 1) % 16 * 16 + v(i / 3 * 4 + 2) / 4
            } else {
                v(i / 3 * 4 + 2) % 4 * 64 + v(i / 3 * 4 + 3)
            }
        }),
{
    let q = i / 3;
    let a = byte_or_zero(data, 3 * q);
    let b = byte_or_zero(data, 3 * q + 1);
    let c = byte_or_zero(data, 3 * q + 2);
    lemma_six_bits(data, q);
    lemma_three_bytes(a, b, c);
    if i % 3 == 0 {
        lemma_base64_digits(data, 4 * q);
        lemma_base64_digits(data, 4 * q + 1);
    } else if i % 3 == 1 {
        lemma_base64_digits(data, 4 * q + 1);
        lemma_base64_digits(data, 4 * q + 2);
    } else {
        lemma_base64_digits(data, 4 * q + 2);
        lemma_base64_digits(data, 4 * q + 3);
    }
}

proof fn lemma_base64_end(data: Seq<u8>)
    ensures
        ({
            let n = base64_digits(data) as int;
            &&& n % 4 != 1
            &&& n * 3 / 4 == data.len()
            &&& (n % 4 == 2 ==> six_bits(data, n - 1) % 16 == 0)
            &&& (n % 4 == 3 ==> six_bits(data, n - 1) % 4 == 0)
        }),
{
    let n = base64_digits(data) as int;
    let q = data.len() as int / 3;
    lemma_six_bits(data, q);
    lemma_three_bytes(
        byte_or_zero(data, 3 * q),
        byte_or_zero(data, 3 * q + 1),
        byte_or_zero(data, 3 * q + 2),
    );
    if data.len() as int % 3 == 0 {
        assert(n == 4 * q);
    } else if data.len() as int % 3 == 1 {
        assert(n == 4 * q + 2);
    } else {
        assert(n == 4 * q + 3);
    }
}

/// Unpadded base64url reads back.
pub proof fn base64url_reads_back(data: Seq<u8>)
    ensures
        base64url_bytes(base64url_of(data)) == Some(data),
{
    let t = base64url_of(data);
    assert forall|k: int| 0 <= k < t.len() implies base64url_value(#[trigger] t[k]) == Some(
        six_bits(data, k),
    ) by {
        lemma_base64_digits(data, k);
    }
    lemma_base64_end(data);
    let back = base64url_bytes(t)->0;
    assert forall|i: int| 0 <= i < data.len() implies back[i] == data[i] by {
        lemma_base64_byte(data, i);
    }
    assert(back =~= data);
}

/// The usual form of a UUID holds hexadecimal digits and hyphens alone.
pub proof fn uuid_text_has_no_dot(id: u128)
    ensures
        forall|i: int| 0 <= i < 36 ==> #[trigger] uuid_text_of(id)[i] != '.',
        uuid_text_of(id).len() == 36,
{
    assert forall|i: int| 0 <= i < 36 implies #[trigger] uuid_text_of(id)[i] != '.' by {
        let d: int = if i < 8 { i } else if i < 13 { i - 1 } else if i < 18 { i - 2 } else if i < 23 {
            i - 3
        } else {
            i - 4
        };
        assert(0 <= uuid_nibble(id, d) < 16);
    }
}

/// The payload of a token is its second part and no other: whatever stands before the first dot and
/// behind the second makes no difference to it.
pub proof fn the_payload_is_the_second_part(
    head: Seq<char>,
    payload: Seq<u8>,
    signature: Seq<char>,
)
    requires
        forall|k: int| 0 <= k < head.len() ==> #[trigger] head[k] != '.',
    ensures
        token_payload_of(head + seq!['.'] + base64url_of(payload) + seq!['.'] + signature) == Some(
            payload,
        ),
        token_payload_of(head) is None,
{
    let body = base64url_of(payload);
    base64url_reads_back(payload);
    assert forall|k: int| 0 <= k < body.len() implies #[trigger] body[k] != '.' by {
        assert(base64url_value(body[k]) is Some);
    }
    lemma_second_part(head, body, signature);
    crate::text::first_at_is_first(head, '.', 0);
}

proof fn lemma_second_part(head: Seq<char>, body: Seq<char>, tail: Seq<char>)
    requires
        forall|k: int| 0 <= k < head.len() ==> #[trigger] head[k] != '.',
        forall|k: int| 0 <= k < body.len() ==> #[trigger] body[k] != '.',
    ensures
        second_part(head + seq!['.'] + body + seq!['.'] + tail) == Some(body),
{
    let token = head + seq!['.'] + body + seq!['.'] + tail;
    let from: int = head.len() as int + 1;
    let n: int = from + body.len();
    crate::text::first_at_is_first(token, '.', 0);
    crate::text::first_at_is_first(token, '.', from);
    assert(token[from - 1] == '.');
    assert(token[n] == '.');
    assert forall|k: int| 0 <= k < head.len() implies token[k] != '.' by {
        assert(token[k] == head[k]);
    }
    assert forall|k: int| from <= k < n implies token[k] != '.' by {
        assert(token[k] == body[k - from]);
    }
    assert(token.subrange(from, n) =~= body);
}

/// What is kept as a hash in hexadecimal can be read back as the hash: it has two lower-case digits for
/// each byte.
pub proof fn a_hash_is_written_whole(text: Seq<char>)
    ensures
        hex_bytes(sha256_hex_of(text)) == Some(sha256_of(vstd::utf8::encode_utf8(text))),
        sha256_hex_of(text).len() == 2 * sha256_of(vstd::utf8::encode_utf8(text)).len(),
        forall|k: int|
            0 <= k < sha256_hex_of(text).len() ==> ('0' <= #[trigger] sha256_hex_of(text)[k] <= '9'
                || 'a' <= sha256_hex_of(text)[k] <= 'f'),
{
    let data = sha256_of(vstd::utf8::encode_utf8(text));
    hex_reads_back(data);
    assert forall|k: int| 0 <= k < hex_text(data).len() implies ('0' <= #[trigger] hex_text(data)[k]
        <= '9' || 'a' <= hex_text(data)[k] <= 'f') by {
        let b = data[k / 2] as int;
        assert(0 <= b / 16 < 16 && 0 <= b % 16 < 16);
    }
}

/// A signature is checked by the algorithm of its key: one on an elliptic curve by ES256, any other by
/// RS256; and the key must be readable as such.
pub proof fn a_signature_is_checked_by_its_kind(token: Seq<char>, public_pem: Seq<char>)
    ensures
        jwt_signature_holds(token, true, public_pem) <==> es256_holds(token, public_pem),
        jwt_signature_holds(token, false, public_pem) <==> rs256_holds(token, public_pem),
        public_key_readable(true, public_pem) <==> ec_pem_readable(public_pem),
        public_key_readable(false, public_pem) <==> rsa_pem_readable(public_pem),
{
}

/// A text that is written into a query holds ASCII letters, digits and percent signs alone, so that it
/// neither ends its value nor begins another.
pub proof fn a_query_value_stays_one(bytes: Seq<u8>)
    ensures
        forall|k: int|
            0 <= k < percent_text(bytes).len() ==> ({
                let c = #[trigger] percent_text(bytes)[k];
                c == '%' || '0' <= c <= '9' || 'A' <= c <= 'Z' || 'a' <= c <= 'z'
            }),
        percent_text(bytes).len() >= bytes.len(),
    decreases bytes.len(),
{
    if bytes.len() > 0 {
        a_query_value_stays_one(bytes.drop_last());
        let b = bytes.last();
        assert(0 <= b as int / 16 < 16 && 0 <= b as int % 16 < 16);
        let head = percent_text(bytes.drop_last());
        let tail = if is_alphanumeric_byte(b) {
            seq![b as char]
        } else {
            seq!['%', upper_hex_char(b as int / 16), upper_hex_char(b as int % 16)]
        };
        assert forall|k: int| 0 <= k < percent_text(bytes).len() implies ({
            let c = #[trigger] percent_text(bytes)[k];
            c == '%' || '0' <= c <= '9' || 'A' <= c <= 'Z' || 'a' <= c <= 'z'
        }) by {
            if k < head.len() {
                assert(percent_text(bytes)[k] == head[k]);
            } else {
                assert(percent_text(bytes)[k] == tail[k - head.len()]);
            }
        }
    }
}

} // verus!
