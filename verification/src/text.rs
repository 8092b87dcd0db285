//! Text primitives shared by the identifier modules.
//!
//! Strings are modelled by their sequence of characters (`s@`). The executable
//! code works on the UTF-8 bytes of a string, so this module also holds the
//! facts that connect the two levels: the encoding of a concatenation, of a
//! prefix, and of text made of ASCII characters only.
use vstd::prelude::*;
use vstd::string::*;
use vstd::utf8::*;

verus! {

/// The error of `core::str::from_utf8`. Nothing is said of what it holds.
#[verifier::external_type_specification]
#[verifier::external_body]
pub struct ExUtf8Error(core::str::Utf8Error);

/// Believed without proof of `core::str::from_utf8`: it accepts exactly the
/// byte sequences that are valid UTF-8, and the string slice that it then
/// returns is made of the given bytes.
pub assume_specification[ core::str::from_utf8 ](v: &[u8]) -> (r: Result<
    &str,
    core::str::Utf8Error,
>)
    ensures
        r is Ok <==> valid_utf8(v@),
        r matches Ok(text) ==> text.spec_bytes() == v@,
;

/// True when `c` is an ASCII digit or an ASCII letter of either case.
pub open spec fn is_alphanumeric(c: char) -> bool {
    ('0' <= c <= '9') || ('a' <= c <= 'z') || ('A' <= c <= 'Z')
}

/// True when `b` is the code of an ASCII digit or of an ASCII letter.
pub open spec fn is_alphanumeric_byte(b: u8) -> bool {
    (0x30 <= b <= 0x39) || (0x61 <= b <= 0x7a) || (0x41 <= b <= 0x5a)
}

/// True when every character of `cs` is an ASCII digit or letter.
pub open spec fn all_alphanumeric(cs: Seq<char>) -> bool {
    forall|i: int| 0 <= i < cs.len() ==> is_alphanumeric(#[trigger] cs[i])
}

/// True when every byte of `bytes` is the code of an ASCII digit or letter.
pub open spec fn all_alphanumeric_bytes(bytes: Seq<u8>) -> bool {
    forall|i: int| 0 <= i < bytes.len() ==> is_alphanumeric_byte(#[trigger] bytes[i])
}

/// The bytes of a text of ASCII characters, one byte for each character.
pub open spec fn ascii_bytes(cs: Seq<char>) -> Seq<u8> {
    Seq::new(cs.len(), |i: int| cs[i] as u8)
}

/// The text that a sequence of ASCII codes spells, one character for each byte.
pub open spec fn ascii_text(bytes: Seq<u8>) -> Seq<char> {
    Seq::new(bytes.len(), |i: int| bytes[i] as char)
}

/// Decides whether a byte is the code of an ASCII digit or letter.
pub fn byte_is_alphanumeric(b: u8) -> (r: bool)
    ensures
        r == is_alphanumeric_byte(b),
        r == is_alphanumeric(b as char),
{
    (0x30 <= b && b <= 0x39) || (0x61 <= b && b <= 0x7a) || (0x41 <= b && b <= 0x5a)
}

/// Spelling alphanumeric codes as text and reading the text back as bytes
/// gives the codes again, and the text is alphanumeric.
pub proof fn lemma_ascii_text_bytes(bytes: Seq<u8>)
    requires
        all_alphanumeric_bytes(bytes),
    ensures
        all_alphanumeric(ascii_text(bytes)),
        ascii_bytes(ascii_text(bytes)) == bytes,
        encode_utf8(ascii_text(bytes)) == bytes,
{
    let cs = ascii_text(bytes);
    assert forall|i: int| 0 <= i < cs.len() implies is_alphanumeric(#[trigger] cs[i]) by {
        assert(is_alphanumeric_byte(bytes[i]));
    }
    assert(ascii_bytes(cs) =~= bytes);
    lemma_alphanumeric_encoding(cs);
}

/// Reading alphanumeric text as bytes and spelling the bytes as text gives the
/// text again, and the bytes are alphanumeric codes.
pub proof fn lemma_ascii_bytes_text(cs: Seq<char>)
    requires
        all_alphanumeric(cs),
    ensures
        all_alphanumeric_bytes(ascii_bytes(cs)),
        ascii_text(ascii_bytes(cs)) == cs,
{
    let bytes = ascii_bytes(cs);
    assert forall|i: int| 0 <= i < bytes.len() implies is_alphanumeric_byte(
        #[trigger] bytes[i],
    ) by {
        assert(is_alphanumeric(cs[i]));
    }
    assert forall|i: int| 0 <= i < cs.len() implies ascii_text(bytes)[i] == cs[i] by {
        assert(is_alphanumeric(cs[i]));
    }
    assert(ascii_text(bytes) =~= cs);
}

/// Alphanumeric text is encoded in UTF-8 with one byte for each character, the
/// character's code.
pub proof fn lemma_alphanumeric_encoding(cs: Seq<char>)
    requires
        all_alphanumeric(cs),
    ensures
        encode_utf8(cs) == ascii_bytes(cs),
{
    assert forall|i: int| 0 <= i < cs.len() implies '\0' <= #[trigger] cs[i] <= '\u{7f}' by {
        assert(is_alphanumeric(cs[i]));
    }
    is_ascii_chars_encode_utf8(cs);
    assert(encode_utf8(cs) =~= ascii_bytes(cs));
}

/// The encoding of a concatenation is the concatenation of the encodings.
pub proof fn lemma_encode_concat(a: Seq<char>, b: Seq<char>)
    ensures
        encode_utf8(a + b) == encode_utf8(a) + encode_utf8(b),
    decreases a.len(),
{
    if a.len() == 0 {
        assert(a + b =~= b);
        assert(encode_utf8(a) + encode_utf8(b) =~= encode_utf8(b));
    } else {
        assert((a + b).drop_first() =~= a.drop_first() + b);
        lemma_encode_concat(a.drop_first(), b);
        assert(encode_utf8(a + b) =~= encode_utf8(a) + encode_utf8(b));
    }
}

/// A text whose encoding starts with the encoding of `p` starts with `p`.
pub proof fn lemma_encoded_prefix(p: Seq<char>, s: Seq<char>)
    requires
        encode_utf8(p).is_prefix_of(encode_utf8(s)),
    ensures
        p.is_prefix_of(s),
    decreases p.len(),
{
    if p.len() > 0 {
        let bp = encode_utf8(p);
        let bs = encode_utf8(s);
        encode_utf8_first_scalar(p);
        assert(s.len() > 0);
        encode_utf8_first_scalar(s);
        assert(forall|i: int| 0 <= i < bp.len() ==> bp[i] == bs.subrange(0, bp.len() as int)[i]);
        assert(bp[0] == bs[0]);
        assert(length_of_first_scalar(bp) == length_of_first_scalar(bs));
        assert(decode_first_scalar(bp) == decode_first_scalar(bs));
        char_u32_cast(p[0], decode_first_scalar(bp));
        char_u32_cast(s[0], decode_first_scalar(bs));
        assert(p[0] == s[0]);
        assert(pop_first_scalar(bp) =~= encode_utf8(p.drop_first()));
        assert(pop_first_scalar(bs) =~= encode_utf8(s.drop_first()));
        assert(pop_first_scalar(bp) =~= pop_first_scalar(bs).subrange(
            0,
            pop_first_scalar(bp).len() as int,
        ));
        lemma_encoded_prefix(p.drop_first(), s.drop_first());
        assert forall|i: int| 0 <= i < p.len() implies p[i] == s[i] by {
            if i > 0 {
                assert(p.drop_first()[i - 1] == s.drop_first().subrange(
                    0,
                    p.len() - 1,
                )[i - 1]);
            }
        }
        assert(p =~= s.subrange(0, p.len() as int));
    }
}

/// A text starts with `p` exactly when its encoding starts with the encoding
/// of `p`; what follows the prefix is then encoded by what follows the
/// prefix's bytes.
pub proof fn lemma_prefix_encoding(p: Seq<char>, s: Seq<char>)
    ensures
        p.is_prefix_of(s) <==> encode_utf8(p).is_prefix_of(encode_utf8(s)),
        p.is_prefix_of(s) ==> encode_utf8(s.skip(p.len() as int)) == encode_utf8(s).skip(
            encode_utf8(p).len() as int,
        ),
{
    if p.is_prefix_of(s) {
        let rest = s.skip(p.len() as int);
        assert(s =~= p + rest);
        lemma_encode_concat(p, rest);
        assert(encode_utf8(p) =~= encode_utf8(s).subrange(0, encode_utf8(p).len() as int));
        assert(encode_utf8(rest) =~= encode_utf8(s).skip(encode_utf8(p).len() as int));
    }
    if encode_utf8(p).is_prefix_of(encode_utf8(s)) {
        lemma_encoded_prefix(p, s);
    }
}

/// Text whose encoding holds only bytes below 128 is made of ASCII characters.
pub proof fn lemma_ascii_encoding(cs: Seq<char>)
    requires
        forall|i: int| 0 <= i < encode_utf8(cs).len() ==> encode_utf8(cs)[i] < 128,
    ensures
        is_ascii_chars(cs),
    decreases cs.len(),
{
    if cs.len() > 0 {
        let c0 = cs[0] as u32;
        let rest = cs.drop_first();
        char_is_scalar(cs[0]);
        assert(encode_utf8(cs) =~= encode_scalar(c0) + encode_utf8(rest));
        assert(encode_utf8(cs)[0] == encode_scalar(c0)[0]);
        assert(has_width_1_encoding(c0)) by {
            let b = encode_scalar(c0)[0];
            assert(b < 128);
            assert(leading_byte_width_2(c0) >= 0xC0) by (bit_vector);
            assert(leading_byte_width_3(c0) >= 0xE0) by (bit_vector);
            assert(leading_byte_width_4(c0) >= 0xF0) by (bit_vector);
        }
        assert forall|i: int| 0 <= i < encode_utf8(rest).len() implies encode_utf8(rest)[i]
            < 128 by {
            assert(encode_utf8(rest)[i] == encode_utf8(cs)[i + 1]);
        }
        lemma_ascii_encoding(rest);
        assert forall|i: int| 0 <= i < cs.len() implies '\0' <= #[trigger] cs[i] <= '\u{7f}' by {
            if i > 0 {
                assert(cs[i] == rest[i - 1]);
            } else {
                char_u32_cast(cs[0], c0);
            }
        }
    }
}

/// Text is alphanumeric exactly when every byte of its encoding is an
/// alphanumeric code.
pub proof fn lemma_alphanumeric_bytes(cs: Seq<char>)
    ensures
        all_alphanumeric(cs) <==> all_alphanumeric_bytes(encode_utf8(cs)),
{
    let bytes = encode_utf8(cs);
    if all_alphanumeric(cs) {
        lemma_alphanumeric_encoding(cs);
        lemma_ascii_bytes_text(cs);
    }
    if all_alphanumeric_bytes(bytes) {
        assert forall|i: int| 0 <= i < bytes.len() implies bytes[i] < 128 by {
            assert(is_alphanumeric_byte(bytes[i]));
        }
        lemma_ascii_encoding(cs);
        is_ascii_chars_encode_utf8(cs);
        assert forall|i: int| 0 <= i < cs.len() implies is_alphanumeric(#[trigger] cs[i]) by {
            assert(is_alphanumeric_byte(bytes[i]));
            assert(cs[i] as u8 == bytes[i]);
        }
    }
}

/// The character of the decimal digit `d`, which is below 10.
pub open spec fn digit(d: nat) -> char {
    ((0x30 + d) as u8) as char
}

/// The decimal notation of `n`, without leading zeros.
pub open spec fn decimal(n: nat) -> Seq<char>
    decreases n,
{
    if n < 10 {
        seq![digit(n)]
    } else {
        decimal(n / 10).push(digit(n % 10))
    }
}

/// The one-character string of a decimal digit.
fn digit_str(d: usize) -> (r: &'static str)
    requires
        d < 10,
    ensures
        r@ == seq![digit(d as nat)],
{
    proof {
        reveal_strlit("0");
        reveal_strlit("1");
        reveal_strlit("2");
        reveal_strlit("3");
        reveal_strlit("4");
        reveal_strlit("5");
        reveal_strlit("6");
        reveal_strlit("7");
        reveal_strlit("8");
        reveal_strlit("9");
    }
    let r = match d {
        0 => "0",
        1 => "1",
        2 => "2",
        3 => "3",
        4 => "4",
        5 => "5",
        6 => "6",
        7 => "7",
        8 => "8",
        _ => "9",
    };
    assert(r@ =~= seq![digit(d as nat)]);
    r
}

/// Writes `n` in decimal notation.
pub fn decimal_string(n: usize) -> (r: String)
    ensures
        r@ == decimal(n as nat),
    decreases n,
{
    if n < 10 {
        digit_str(n).to_owned()
    } else {
        let mut out = decimal_string(n / 10);
        out.append(digit_str(n % 10));
        assert(out@ =~= decimal(n as nat));
        out
    }
}

/// The string that alphanumeric codes spell.
pub(crate) fn ascii_str(bytes: &[u8]) -> (r: &str)
    requires
        all_alphanumeric_bytes(bytes@),
    ensures
        r@ == ascii_text(bytes@),
{
    proof {
        lemma_ascii_text_bytes(bytes@);
        encode_utf8_valid_utf8(ascii_text(bytes@));
    }
    match core::str::from_utf8(bytes) {
        Ok(text) => {
            proof {
                encode_utf8_decode_utf8(text@);
                encode_utf8_decode_utf8(ascii_text(bytes@));
            }
            text
        },
        Err(_) => "",
    }
}

/// Decides whether two strings hold the same text.
pub fn str_eq(a: &str, b: &str) -> (r: bool)
    ensures
        r == (a@ == b@),
{
    let x = a.as_bytes();
    let y = b.as_bytes();
    if x.len() != y.len() {
        return false;
    }
    let mut i: usize = 0;
    while i < x.len()
        invariant
            i <= x.len(),
            x.len() == y.len(),
            x@ == encode_utf8(a@),
            y@ == encode_utf8(b@),
            forall|j: int| 0 <= j < i ==> x@[j] == y@[j],
        decreases x.len() - i,
    {
        if x[i] != y[i] {
            return false;
        }
        i += 1;
    }
    proof {
        assert(x@ =~= y@);
        encode_utf8_decode_utf8(a@);
        encode_utf8_decode_utf8(b@);
    }
    true
}

/// Decides whether the text of `s` starts with the text of `prefix`.
pub fn starts_with(s: &str, prefix: &str) -> (r: bool)
    ensures
        r == prefix@.is_prefix_of(s@),
{
    let x = s.as_bytes();
    let p = prefix.as_bytes();
    proof {
        lemma_prefix_encoding(prefix@, s@);
    }
    if x.len() < p.len() {
        return false;
    }
    let mut i: usize = 0;
    while i < p.len()
        invariant
            i <= p.len() <= x.len(),
            forall|j: int| 0 <= j < i ==> x@[j] == p@[j],
            prefix@.is_prefix_of(s@) <==> p@.is_prefix_of(x@),
        decreases p.len() - i,
    {
        if x[i] != p[i] {
            assert(p@[i as int] != x@.subrange(0, p@.len() as int)[i as int]);
            return false;
        }
        i += 1;
    }
    assert(p@ =~= x@.subrange(0, p@.len() as int));
    true
}

} // verus!
