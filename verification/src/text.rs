//! Text helpers: lossy UTF-8 decoding, trimming, decimal rendering of
//! lengths, and hex rendering of addresses, with what std and `hex` document
//! of each stated over character sequences.

use vstd::prelude::*;
use vstd::string::StringExecFns;
use vstd::utf8::{
    decode_utf8, encode_scalar, encode_utf8, encode_utf8_decode_utf8, encode_utf8_valid_utf8,
    valid_utf8,
};

verus! {

/// The characters `String::from_utf8_lossy` decodes from `bytes`: the UTF-8
/// decoding, with each invalid sequence replaced by U+FFFD.
pub uninterp spec fn utf8_lossy(bytes: Seq<u8>) -> Seq<char>;

/// `s` with every trailing NUL character removed.
pub open spec fn strip_trailing_nuls(s: Seq<char>) -> Seq<char>
    decreases s.len(),
{
    if s.len() > 0 && s.last() == '\0' {
        strip_trailing_nuls(s.drop_last())
    } else {
        s
    }
}

/// The Unicode `White_Space` property, the definition of whitespace that
/// `str::trim` uses.
pub open spec fn is_white_space(c: char) -> bool {
    let u = c as u32;
    ||| 0x09 <= u <= 0x0d
    ||| u == 0x20
    ||| u == 0x85
    ||| u == 0xa0
    ||| u == 0x1680
    ||| 0x2000 <= u <= 0x200a
    ||| u == 0x2028
    ||| u == 0x2029
    ||| u == 0x202f
    ||| u == 0x205f
    ||| u == 0x3000
}

/// `s` without its leading whitespace.
pub open spec fn trim_start_white_space(s: Seq<char>) -> Seq<char>
    decreases s.len(),
{
    if s.len() > 0 && is_white_space(s[0]) {
        trim_start_white_space(s.drop_first())
    } else {
        s
    }
}

/// `s` without its trailing whitespace.
pub open spec fn trim_end_white_space(s: Seq<char>) -> Seq<char>
    decreases s.len(),
{
    if s.len() > 0 && is_white_space(s.last()) {
        trim_end_white_space(s.drop_last())
    } else {
        s
    }
}

/// `s` without leading and trailing whitespace.
pub open spec fn trim_white_space(s: Seq<char>) -> Seq<char> {
    trim_start_white_space(trim_end_white_space(s))
}

/// The decimal digit character of `d` (for `d < 10`).
pub open spec fn digit_char(d: nat) -> char {
    (48 + d) as char
}

/// The decimal rendering of `n`, without sign or leading zeros.
pub open spec fn decimal(n: nat) -> Seq<char>
    decreases n,
{
    if n < 10 {
        seq![digit_char(n)]
    } else {
        decimal(n / 10).push(digit_char(n % 10))
    }
}

/// The lowercase hexadecimal digit of `n` (for `n < 16`).
pub open spec fn hex_digit(n: nat) -> char {
    if n < 10 {
        (48 + n) as char
    } else {
        (87 + n) as char
    }
}

/// Lowercase hexadecimal text of `bytes`: two digits per byte, the high
/// nibble first.
pub open spec fn lower_hex(bytes: Seq<u8>) -> Seq<char>
    decreases bytes.len(),
{
    if bytes.len() == 0 {
        Seq::empty()
    } else {
        lower_hex(bytes.drop_last()) + seq![
            hex_digit((bytes.last() / 16) as nat),
            hex_digit((bytes.last() % 16) as nat),
        ]
    }
}

/// Calls `hex::encode`, which writes each byte as two lowercase hexadecimal
/// digits, the high nibble first.
#[verifier::external_body]
pub(crate) fn hex_encode(bytes: &[u8]) -> (s: String)
    ensures
        s@ == lower_hex(bytes@),
{
    hex::encode(bytes)
}

/// Calls `String::from_utf8_lossy` and takes the owned result. std documents
/// that a valid UTF-8 input decodes to exactly its characters; what an
/// invalid sequence becomes is left to the name `utf8_lossy`.
#[verifier::external_body]
fn decode_utf8_lossy(bytes: &[u8]) -> (s: String)
    ensures
        s@ == utf8_lossy(bytes@),
        valid_utf8(bytes@) ==> s@ == decode_utf8(bytes@),
{
    String::from_utf8_lossy(bytes).into_owned()
}

/// Calls `str::trim_end_matches` with the pattern `'\0'`, which removes every
/// trailing NUL character.
#[verifier::external_body]
fn trim_trailing_nuls(s: &str) -> (r: &str)
    ensures
        r@ == strip_trailing_nuls(s@),
{
    s.trim_end_matches('\0')
}

/// Calls `str::trim`, which removes leading and trailing characters that have
/// the Unicode `White_Space` property.
#[verifier::external_body]
fn trim_whitespace(s: &str) -> (r: &str)
    ensures
        r@ == trim_white_space(s@),
{
    s.trim()
}

/// Calls `ToString::to_string` on a `usize`, whose `Display` renders the
/// number in decimal.
#[verifier::external_body]
pub(crate) fn decimal_text(n: usize) -> (s: String)
    ensures
        s@ == decimal(n as nat),
{
    n.to_string()
}

/// The model name that a 32-byte calldata field carries: UTF-8 decoded
/// lossily, trailing NUL padding removed, then surrounding whitespace
/// trimmed. An empty name selects the engine default.
pub open spec fn spec_model_name(field: Seq<u8>) -> Seq<char> {
    trim_white_space(strip_trailing_nuls(lossy_chars(field)))
}

/// The characters that lossy UTF-8 decoding gives for `bytes`: exactly the
/// decoded characters when `bytes` is valid UTF-8.
pub open spec fn lossy_chars(bytes: Seq<u8>) -> Seq<char> {
    if valid_utf8(bytes) {
        decode_utf8(bytes)
    } else {
        utf8_lossy(bytes)
    }
}

/// The model name of a field that is valid UTF-8: its characters, trailing
/// NUL padding removed, then surrounding whitespace trimmed.
pub open spec fn decoded_model_name(field: Seq<u8>) -> Seq<char> {
    trim_white_space(strip_trailing_nuls(decode_utf8(field)))
}

/// Decode a model name from a calldata field: UTF-8, NUL-padded; empty means
/// the engine default.
pub fn model_name(bytes: &[u8]) -> (name: String)
    ensures
        name@ == spec_model_name(bytes@),
        valid_utf8(bytes@) ==> name@ == decoded_model_name(bytes@),
{
    let decoded = decode_utf8_lossy(bytes);
    let unpadded = trim_trailing_nuls(decoded.as_str());
    let trimmed = trim_whitespace(unpadded);
    String::from_str(trimmed)
}

/// `n` NUL characters.
pub open spec fn nul_chars(n: nat) -> Seq<char> {
    Seq::new(n, |i: int| '\0')
}

/// `n` zero bytes.
pub open spec fn zero_bytes(n: nat) -> Seq<u8> {
    Seq::new(n, |i: int| 0u8)
}

proof fn lemma_encode_utf8_concat(a: Seq<char>, b: Seq<char>)
    ensures
        encode_utf8(a + b) == encode_utf8(a) + encode_utf8(b),
    decreases a.len(),
{
    if a.len() == 0 {
        assert(a + b =~= b);
        assert(encode_utf8(a) + encode_utf8(b) =~= encode_utf8(b));
    } else {
        lemma_encode_utf8_concat(a.drop_first(), b);
        assert((a + b).drop_first() =~= a.drop_first() + b);
        assert((a + b)[0] == a[0]);
        assert(encode_utf8(a + b) =~= encode_scalar(a[0] as u32) + (encode_utf8(a.drop_first())
            + encode_utf8(b)));
        assert(encode_utf8(a) + encode_utf8(b) =~= encode_scalar(a[0] as u32) + (encode_utf8(
            a.drop_first(),
        ) + encode_utf8(b)));
    }
}

proof fn lemma_encode_nul_chars(n: nat)
    ensures
        encode_utf8(nul_chars(n)) == zero_bytes(n),
    decreases n,
{
    if n > 0 {
        lemma_encode_nul_chars((n - 1) as nat);
        assert(nul_chars(n).drop_first() =~= nul_chars((n - 1) as nat));
        assert((0u32 & 0x7Fu32) as u8 == 0u8) by (bit_vector);
        assert(encode_scalar(nul_chars(n)[0] as u32) =~= seq![0u8]);
        assert(encode_utf8(nul_chars(n)) =~= zero_bytes(n));
    } else {
        assert(encode_utf8(nul_chars(n)) =~= zero_bytes(n));
    }
}

proof fn lemma_strip_padding(name: Seq<char>, n: nat)
    requires
        name.len() == 0 || name.last() != '\0',
    ensures
        strip_trailing_nuls(name + nul_chars(n)) == name,
    decreases n,
{
    if n == 0 {
        assert(name + nul_chars(n) =~= name);
    } else {
        assert((name + nul_chars(n)).drop_last() =~= name + nul_chars((n - 1) as nat));
        lemma_strip_padding(name, (n - 1) as nat);
    }
}

/// A name written as UTF-8 and padded with zero bytes decodes back to the
/// name, provided it does not itself end in NUL and has no leading or
/// trailing whitespace: the padded field is valid UTF-8, and the model name
/// decoded from it is the name (the empty name gives the empty name, which
/// selects the engine default).
pub proof fn law_model_name_round_trip(name: Seq<char>, padding: nat)
    requires
        name.len() == 0 || (name.last() != '\0' && !is_white_space(name[0]) && !is_white_space(
            name.last(),
        )),
    ensures
        valid_utf8(encode_utf8(name) + zero_bytes(padding)),
        decoded_model_name(encode_utf8(name) + zero_bytes(padding)) == name,
        spec_model_name(encode_utf8(name) + zero_bytes(padding)) == name,
{
    lemma_encode_nul_chars(padding);
    lemma_encode_utf8_concat(name, nul_chars(padding));
    let padded = name + nul_chars(padding);
    encode_utf8_valid_utf8(padded);
    encode_utf8_decode_utf8(padded);
    lemma_strip_padding(name, padding);
    assert(trim_end_white_space(name) == name);
    assert(trim_start_white_space(name) == name);
}

} // verus!
