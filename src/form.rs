//! The `application/x-www-form-urlencoded` format, as the form_urlencoded
//! crate reads and writes it.
use vstd::prelude::*;

verus! {

/// The bytes that the byte serializer passes through unchanged:
/// `*`, `-`, `.`, `_`, ASCII digits and ASCII letters.
pub open spec fn keeps_byte(b: u8) -> bool {
    b == 42 || b == 45 || b == 46 || b == 95 || (48 <= b <= 57) || (65 <= b <= 90) || (97 <= b
        <= 122)
}

/// The upper-case hexadecimal digit of `d`, for `d < 16`.
pub open spec fn hex_digit(d: u8) -> char {
    seq!['0', '1', '2', '3', '4', '5', '6', '7', '8', '9', 'A', 'B', 'C', 'D', 'E', 'F'][d as int]
}

/// What the byte serializer writes for one byte: the byte itself if it is
/// kept, `+` for a space, and otherwise `%` and two upper-case hex digits.
pub open spec fn form_byte(b: u8) -> Seq<char> {
    if keeps_byte(b) {
        seq![b as char]
    } else if b == 32 {
        seq!['+']
    } else {
        seq!['%', hex_digit(b / 16), hex_digit(b % 16)]
    }
}

/// The byte serialization of `bs`, byte by byte.
pub open spec fn form_bytes(bs: Seq<u8>) -> Seq<char>
    decreases bs.len(),
{
    if bs.len() == 0 {
        Seq::empty()
    } else {
        form_bytes(bs.drop_last()) + form_byte(bs.last())
    }
}

/// The byte serialization of the UTF-8 encoding of `s`.
pub open spec fn form_encoded(s: Seq<char>) -> Seq<char> {
    form_bytes(vstd::utf8::encode_utf8(s))
}

/// The decoded `(name, value)` pairs of the form-encoded text `s`.
pub uninterp spec fn form_pairs_of(s: Seq<char>) -> Seq<(Seq<char>, Seq<char>)>;

/// The pairs of a vector as pairs of character sequences.
pub open spec fn pairs_view(v: Seq<(String, String)>) -> Seq<(Seq<char>, Seq<char>)> {
    v.map_values(|p: (String, String)| (p.0@, p.1@))
}

/// Relies on form_urlencoded::byte_serialize: the pieces it yields,
/// concatenated, are the form encoding of the bytes of `s`.
#[verifier::external_body]
pub(crate) fn form_encode(s: &str) -> (r: String)
    ensures
        r@ == form_encoded(s@),
{
    form_urlencoded::byte_serialize(s.as_bytes()).collect()
}

/// Relies on form_urlencoded::parse: the decoded name and value of each
/// `&`-separated pair of `s`, in order; empty text has no pairs.
#[verifier::external_body]
pub(crate) fn form_pairs(s: &str) -> (r: Vec<(String, String)>)
    ensures
        pairs_view(r@) == form_pairs_of(s@),
        s@.len() == 0 ==> r@.len() == 0,
{
    form_urlencoded::parse(s.as_bytes()).into_owned().collect()
}

} // verus!
