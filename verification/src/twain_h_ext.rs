//! The codec of short text fields, and the empty values of the structures.
use crate::twain_h::{Identity, Str32, Version, STR32_LEN};
use vstd::prelude::*;
use vstd::slice::slice_index_get;
use vstd::string::StringSliceAdditionalSpecFns;
use vstd::utf8::{
    decode_utf8, decode_utf8_encode_utf8, decode_utf8_split, encode_utf8, encode_utf8_decode_utf8,
    encode_utf8_valid_utf8, is_char_boundary, is_char_boundary_iff_not_is_continuation_byte,
    is_char_boundary_start_end_of_seq, is_continuation_byte, valid_utf8, valid_utf8_split,
};

verus! {

/// The short text field that holds no text.
pub const STR32_EMPTY: Str32 = [
    0, 0, 0, 0, 0, 0, 0, 0, 0, 0, 0, 0, 0, 0, 0, 0, 0,
    0, 0, 0, 0, 0, 0, 0, 0, 0, 0, 0, 0, 0, 0, 0, 0, 0,
];

/// Number of bytes before the first NUL of `bytes`; their number if none is NUL.
pub open spec fn nul_position(bytes: Seq<u8>) -> int
    decreases bytes.len(),
{
    if bytes.len() == 0 || bytes[0] == 0 {
        0
    } else {
        1 + nul_position(bytes.drop_first())
    }
}

/// The bytes of `bytes` before its first NUL; all of them if none is NUL.
pub open spec fn until_nul(bytes: Seq<u8>) -> Seq<u8> {
    bytes.take(nul_position(bytes))
}

/// The field that encodes the text `text`: its first 33 bytes, then NUL up to
/// the end of the field.
pub open spec fn str32_encoding(text: Seq<u8>) -> Seq<u8> {
    Seq::new(
        STR32_LEN as nat,
        |i: int|
            if i < text.len() && i < STR32_LEN - 1 {
                text[i]
            } else {
                0u8
            },
    )
}

/// The text that `String::from_utf8_lossy` makes of bytes that are not valid
/// UTF-8.
pub uninterp spec fn utf8_repaired(bytes: Seq<u8>) -> Seq<char>;

/// The text that bytes stand for: what they decode to where they are valid
/// UTF-8, and the repaired text where they are not.
pub open spec fn utf8_lossy(bytes: Seq<u8>) -> Seq<char> {
    if valid_utf8(bytes) {
        decode_utf8(bytes)
    } else {
        utf8_repaired(bytes)
    }
}

/// The text that a field holds: its bytes before the first NUL, read as UTF-8.
pub open spec fn str32_text(field: Seq<u8>) -> Seq<char> {
    utf8_lossy(until_nul(field))
}

/// `nul_position` is the one index before which no byte is NUL and at which a
/// NUL stands or the bytes end.
pub proof fn lemma_nul_position(bytes: Seq<u8>, n: int)
    requires
        0 <= n <= bytes.len(),
        forall|i: int| 0 <= i < n ==> bytes[i] != 0,
        n < bytes.len() ==> bytes[n] == 0,
    ensures
        nul_position(bytes) == n,
    decreases bytes.len(),
{
    if n > 0 {
        let rest = bytes.drop_first();
        assert forall|i: int| 0 <= i < n - 1 implies rest[i] != 0 by {
            assert(rest[i] == bytes[i + 1]);
        }
        lemma_nul_position(rest, n - 1);
    }
}

/// `nul_position` lies within the bytes, no byte before it is NUL, and a NUL
/// stands at it unless the bytes end there.
pub proof fn lemma_nul_position_bounds(bytes: Seq<u8>)
    ensures
        0 <= nul_position(bytes) <= bytes.len(),
        forall|i: int| 0 <= i < nul_position(bytes) ==> bytes[i] != 0,
        nul_position(bytes) < bytes.len() ==> bytes[nul_position(bytes)] == 0,
    decreases bytes.len(),
{
    if bytes.len() != 0 && bytes[0] != 0 {
        let rest = bytes.drop_first();
        lemma_nul_position_bounds(rest);
        assert forall|i: int| 0 <= i < nul_position(bytes) implies bytes[i] != 0 by {
            if i > 0 {
                assert(bytes[i] == rest[i - 1]);
            }
        }
    }
}

/// Encodes a text as a short text field: the first 33 bytes of its UTF-8 form,
/// then NUL up to the end of the field.
pub fn tw_str32(string: &str) -> (twstr: Str32)
    ensures
        twstr@ == str32_encoding(string.spec_bytes()),
        twstr@[STR32_LEN - 1] == 0,
{
    let mut twstr: Str32 = STR32_EMPTY;
    let sbytes = string.as_bytes();
    let slen: usize = if sbytes.len() < STR32_LEN - 1 {
        sbytes.len()
    } else {
        STR32_LEN - 1
    };
    let mut i: usize = 0;
    while i < slen
        invariant
            0 <= i <= slen,
            slen <= STR32_LEN - 1,
            slen <= sbytes@.len(),
            sbytes@ == string.spec_bytes(),
            forall|j: int| 0 <= j < i ==> twstr@[j] == sbytes@[j],
            forall|j: int| i <= j < STR32_LEN ==> twstr@[j] == 0,
        decreases slen - i,
    {
        twstr[i] = *slice_index_get(sbytes, i);
        i += 1;
    }
    twstr[slen] = 0;
    assert(twstr@ =~= str32_encoding(string.spec_bytes()));
    twstr
}

/// Reads bytes as UTF-8 text with `String::from_utf8_lossy`: valid UTF-8 comes
/// back as the text it encodes, anything else as the text that the function
/// repairs it to.
#[verifier::external_body]
fn from_utf8_lossy(bytes: &Vec<u8>) -> (text: String)
    ensures
        text@ == utf8_lossy(bytes@),
        !valid_utf8(bytes@) ==> text@ == utf8_repaired(bytes@),
{
    String::from_utf8_lossy(bytes).into_owned()
}

/// Decodes a short text field: the bytes before the first NUL, or all 34 if
/// none is NUL, read as UTF-8; bytes that are not valid UTF-8 are repaired, not
/// refused.
pub fn tw_str32_to_string(twstr: &Str32) -> (text: String)
    ensures
        text@ == str32_text(twstr@),
{
    let mut sbytes: Vec<u8> = Vec::with_capacity(STR32_LEN);
    let mut i: usize = 0;
    while i < STR32_LEN && twstr[i] != 0
        invariant
            0 <= i <= STR32_LEN,
            sbytes@ == twstr@.take(i as int),
            forall|j: int| 0 <= j < i ==> twstr@[j] != 0,
        decreases STR32_LEN - i,
    {
        sbytes.push(twstr[i]);
        i += 1;
        assert(sbytes@ =~= twstr@.take(i as int));
    }
    proof {
        lemma_nul_position(twstr@, i as int);
    }
    from_utf8_lossy(&sbytes)
}

/// Number of bytes of `text` that a field keeps: those before the first NUL,
/// and 33 at most.
pub open spec fn str32_kept(text: Seq<u8>) -> int {
    if nul_position(text) < STR32_LEN - 1 {
        nul_position(text)
    } else {
        STR32_LEN - 1
    }
}

/// Encoding a text and taking the field's content gives the text's bytes up to
/// the first NUL, cut to 33.
pub proof fn lemma_str32_content(text: Seq<u8>)
    ensures
        0 <= str32_kept(text) <= text.len(),
        until_nul(str32_encoding(text)) == text.take(str32_kept(text)),
{
    lemma_nul_position_bounds(text);
    let field = str32_encoding(text);
    let n = str32_kept(text);
    lemma_nul_position(field, n);
    assert(field.take(n) =~= text.take(n));
}

/// Encoding a text and decoding the field gives the text back, cut at its first
/// NUL and to 33 bytes: the decoded text is the beginning of the text, and its
/// bytes are the kept bytes of the text, wherever the cut does not fall inside
/// a character. It never does at a NUL, nor where the whole text is kept; so a
/// text of 33 bytes at most without a NUL comes back unchanged.
pub proof fn lemma_str32_round_trip(text: Seq<char>)
    ensures
        ({
            let bytes = encode_utf8(text);
            let kept = str32_kept(bytes);
            let back = str32_text(str32_encoding(bytes));
            &&& kept == bytes.len() ==> back == text
            &&& is_char_boundary(bytes, kept) ==> encode_utf8(back) == bytes.take(kept)
            &&& is_char_boundary(bytes, kept) ==> back.is_prefix_of(text)
            &&& kept < STR32_LEN - 1 ==> is_char_boundary(bytes, kept)
        }),
{
    let bytes = encode_utf8(text);
    let kept = str32_kept(bytes);
    lemma_str32_content(bytes);
    lemma_nul_position_bounds(bytes);
    encode_utf8_valid_utf8(text);
    encode_utf8_decode_utf8(text);
    is_char_boundary_start_end_of_seq(bytes);
    if kept < bytes.len() && kept < STR32_LEN - 1 {
        assert(bytes[kept] == 0);
        assert(!is_continuation_byte(0u8)) by (bit_vector);
        is_char_boundary_iff_not_is_continuation_byte(bytes, kept);
    }
    if is_char_boundary(bytes, kept) {
        valid_utf8_split(bytes, kept);
        decode_utf8_split(bytes, kept);
        assert(bytes.take(kept) =~= bytes.subrange(0, kept));
        decode_utf8_encode_utf8(bytes.take(kept));
        let back = decode_utf8(bytes.take(kept));
        assert(text =~= back + decode_utf8(bytes.subrange(kept, bytes.len() as int)));
        assert(text.subrange(0, back.len() as int) =~= back);
    }
    if kept == bytes.len() {
        assert(bytes.take(kept) =~= bytes);
    }
}

impl Default for Version {
    /// The version with every number zero and no text.
    fn default() -> (v: Version)
        ensures
            v == (Version {
                major_num: 0,
                minor_num: 0,
                language: 0,
                country: 0,
                info: STR32_EMPTY,
            }),
    {
        Version { major_num: 0, minor_num: 0, language: 0, country: 0, info: STR32_EMPTY }
    }
}

impl Default for Identity {
    /// The identity with every number zero and no text: what a driver is handed
    /// to fill in.
    fn default() -> (id: Identity)
        ensures
            id == (Identity {
                id: 0,
                version: Version {
                    major_num: 0,
                    minor_num: 0,
                    language: 0,
                    country: 0,
                    info: STR32_EMPTY,
                },
                protocol_major: 0,
                protocol_minor: 0,
                supported_groups: 0,
                manufacturer: STR32_EMPTY,
                product_family: STR32_EMPTY,
                product_name: STR32_EMPTY,
            }),
    {
        Identity {
            id: 0,
            version: Version {
                major_num: 0,
                minor_num: 0,
                language: 0,
                country: 0,
                info: STR32_EMPTY,
            },
            protocol_major: 0,
            protocol_minor: 0,
            supported_groups: 0,
            manufacturer: STR32_EMPTY,
            product_family: STR32_EMPTY,
            product_name: STR32_EMPTY,
        }
    }
}

} // verus!
