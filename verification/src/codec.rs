use vstd::prelude::*;

verus! {

/// `c` is an ASCII hex digit.
pub open spec fn is_hex_digit(c: char) -> bool {
    ('0' <= c && c <= '9') || ('a' <= c && c <= 'f') || ('A' <= c && c <= 'F')
}

/// Numeric value of an ASCII hex digit.
pub open spec fn hex_digit_value(c: char) -> int {
    if '0' <= c && c <= '9' {
        c as int - '0' as int
    } else if 'a' <= c && c <= 'f' {
        c as int - 'a' as int + 10
    } else {
        c as int - 'A' as int + 10
    }
}

/// `s` is a well-formed hex string: an even number of characters, all of
/// them hex digits.
pub open spec fn hex_parses(s: Seq<char>) -> bool {
    s.len() % 2 == 0 && forall|i: int| 0 <= i < s.len() ==> is_hex_digit(#[trigger] s[i])
}

/// The bytes a well-formed hex string encodes: one byte for each pair of
/// digits, high nibble first.
pub open spec fn hex_bytes(s: Seq<char>) -> Seq<u8> {
    Seq::new(
        (s.len() / 2) as nat,
        |i: int| (hex_digit_value(s[2 * i]) * 16 + hex_digit_value(s[2 * i + 1])) as u8,
    )
}

/// How `hex::decode` describes a failure on the given input; a fixed text
/// for an odd length, a text naming the first bad character otherwise.
pub uninterp spec fn hex_error_text(s: Seq<char>) -> Seq<char>;

/// Relies on `hex::decode`: it succeeds exactly on an even number of hex
/// digits (upper or lower case) and yields one byte per digit pair, and its
/// error describes the failure.
#[verifier::external_body]
pub(crate) fn hex_decode(s: &String) -> (r: Result<Vec<u8>, String>)
    ensures
        r is Ok <==> hex_parses(s@),
        r matches Ok(b) ==> b@ == hex_bytes(s@),
        r matches Err(e) ==> e@ == hex_error_text(s@),
{
    hex::decode(s.as_str()).map_err(|e| e.to_string())
}

/// `b` decodes as an ABI-encoded tuple of three strings.
pub uninterp spec fn abi3_ok(b: Seq<u8>) -> bool;

/// The textual representations of the three strings `b` decodes to.
pub uninterp spec fn abi3_strings(b: Seq<u8>) -> Seq<Seq<char>>;

/// How `ethabi::decode` describes a failure on the given input.
pub uninterp spec fn abi3_error_text(b: Seq<u8>) -> Seq<char>;

/// Relies on `ethabi::decode` with three string parameter types: on success
/// it yields exactly one token per parameter, each displayed as its bare
/// text, and its error describes the failure.
#[verifier::external_body]
pub(crate) fn abi_decode_three_strings(bytes: &Vec<u8>) -> (r: Result<Vec<String>, String>)
    ensures
        r is Ok <==> abi3_ok(bytes@),
        r matches Ok(v) ==> v.deep_view() == abi3_strings(bytes@) && v@.len() == 3,
        r matches Err(e) ==> e@ == abi3_error_text(bytes@),
{
    let kinds = vec![ethabi::ParamType::String, ethabi::ParamType::String, ethabi::ParamType::String];
    match ethabi::decode(&kinds, bytes) {
        Ok(tokens) => Ok(tokens.iter().map(|t| t.to_string()).collect()),
        Err(e) => Err(e.to_string()),
    }
}

} // verus!
