//! Hexadecimal text, as the `hex` crate reads and writes it.

use vstd::prelude::*;

use crate::text;

verus! {

/// What keeps a text from being read as hexadecimal.
#[derive(Debug, Clone, Copy, PartialEq, Eq)]
pub enum HexError {
    /// A byte of the text is no hexadecimal digit.
    InvalidHexCharacter {
        /// The byte, as the character with that number.
        c: char,
        /// Its position in the text.
        index: usize,
    },
    /// The text has an odd number of bytes.
    OddLength,
    /// The text does not have as many digits as the value has.
    InvalidStringLength,
}

/// The four bits that stand at position `i` of `bytes`, the high half of a byte
/// before its low half.
pub open spec fn nibble(bytes: Seq<u8>, i: int) -> int {
    if i % 2 == 0 {
        bytes[i / 2] as int / 16
    } else {
        bytes[i / 2] as int % 16
    }
}

/// `bytes` in lower-case hexadecimal, two digits to the byte.
pub open spec fn hex_text(bytes: Seq<u8>) -> Seq<char> {
    Seq::new(2 * bytes.len(), |i: int| text::digit_char(nibble(bytes, i)))
}

/// The value of a hexadecimal digit of either case.
pub open spec fn hex_value(digit: u8) -> Option<int> {
    if 48 <= digit <= 57 {
        Some(digit - 48)
    } else if 65 <= digit <= 70 {
        Some(digit - 55)
    } else if 97 <= digit <= 102 {
        Some(digit - 87)
    } else {
        None
    }
}

/// The position of the first byte of `text` that is no hexadecimal digit, or the
/// length of `text` where there is none.
pub open spec fn first_non_hex(text: Seq<u8>) -> int
    decreases text.len(),
{
    if text.len() == 0 || hex_value(text[0]) is None {
        0
    } else {
        1 + first_non_hex(text.drop_first())
    }
}

/// The bytes that an even number of digits writes, or the first byte that is no
/// digit.
pub open spec fn digit_pairs(text: Seq<u8>) -> Result<Seq<u8>, HexError> {
    let bad = first_non_hex(text);
    if bad == text.len() {
        Ok(
            Seq::new(
                text.len() / 2,
                |i: int| (hex_value(text[2 * i])->0 * 16 + hex_value(text[2 * i + 1])->0) as u8,
            ),
        )
    } else {
        Err(HexError::InvalidHexCharacter { c: text[bad] as char, index: bad as usize })
    }
}

/// What reading `text` as hexadecimal gives.
pub open spec fn hex_bytes(text: Seq<u8>) -> Result<Seq<u8>, HexError> {
    if text.len() % 2 != 0 {
        Err(HexError::OddLength)
    } else {
        digit_pairs(text)
    }
}

/// Calls `hex::encode`: lower-case digits, two for each byte of `data`.
#[verifier::external_body]
pub(crate) fn encode(data: &[u8]) -> (text: String)
    ensures
        text@ == hex_text(data@),
{
    hex::encode(data)
}

/// Calls `hex::decode`: digits of either case; text of odd length is refused
/// before its digits are looked at, and otherwise the first byte that is no
/// digit is reported.
#[verifier::external_body]
pub(crate) fn decode(text: &[u8]) -> (bytes: Result<Vec<u8>, HexError>)
    ensures
        match bytes {
            Ok(bytes) => hex_bytes(text@) == Ok::<Seq<u8>, HexError>(bytes@),
            Err(error) => hex_bytes(text@) == Err::<Seq<u8>, HexError>(error),
        },
{
    hex::decode(text).map_err(|e| match e {
        hex::FromHexError::InvalidHexCharacter { c, index } => HexError::InvalidHexCharacter { c, index },
        hex::FromHexError::OddLength => HexError::OddLength,
        hex::FromHexError::InvalidStringLength => HexError::InvalidStringLength,
    })
}

/// `text` without the prefixes `0x` that it begins with, however many there are.
pub open spec fn without_prefixes(text: Seq<u8>) -> Seq<u8>
    decreases text.len(),
{
    if text.len() >= 2 && text[0] == 48 && text[1] == 120 {
        without_prefixes(text.skip(2))
    } else {
        text
    }
}

/// What reading a text gives as hexadecimal that may be prefixed by `0x`.
pub open spec fn prefixed_hex_bytes(text: Seq<char>) -> Result<Seq<u8>, HexError> {
    hex_bytes(without_prefixes(vstd::utf8::encode_utf8(text)))
}

/// Reads hexadecimal text that may be prefixed by `0x`.
pub fn decode_prefixed(text: &str) -> (bytes: Result<Vec<u8>, HexError>)
    ensures
        match bytes {
            Ok(bytes) => prefixed_hex_bytes(text@) == Ok::<Seq<u8>, HexError>(bytes@),
            Err(error) => prefixed_hex_bytes(text@) == Err::<Seq<u8>, HexError>(error),
        },
{
    let data = text.as_bytes();
    let mut start: usize = 0;
    assert(data@.skip(0) =~= data@);
    while data.len() - start >= 2 && data[start] == 48 && data[start + 1] == 120
        invariant
            start <= data@.len(),
            without_prefixes(data@) == without_prefixes(data@.skip(start as int)),
        decreases data.len() - start,
    {
        assert(data@.skip(start as int).skip(2) =~= data@.skip(start + 2));
        start += 2;
    }
    let digits = vstd::slice::slice_subrange(data, start, data.len());
    assert(digits@ =~= data@.skip(start as int));
    assert(without_prefixes(data@) == digits@);
    decode(digits)
}

proof fn lemma_first_non_hex_of_digits(text: Seq<u8>)
    requires
        forall|i: int| 0 <= i < text.len() ==> hex_value(#[trigger] text[i]) is Some,
    ensures
        first_non_hex(text) == text.len(),
    decreases text.len(),
{
    if text.len() > 0 {
        assert forall|i: int| 0 <= i < text.drop_first().len() implies hex_value(
            #[trigger] text.drop_first()[i],
        ) is Some by {
            assert(text.drop_first()[i] == text[i + 1]);
        }
        lemma_first_non_hex_of_digits(text.drop_first());
    }
}

/// Digits that write the nibbles of `bytes` are read as `bytes`.
pub(crate) proof fn lemma_digit_pairs_of_nibbles(text: Seq<u8>, bytes: Seq<u8>)
    requires
        text.len() == 2 * bytes.len(),
        forall|i: int|
            0 <= i < text.len() ==> hex_value(#[trigger] text[i]) == Some(nibble(bytes, i)),
    ensures
        digit_pairs(text) == Ok::<Seq<u8>, HexError>(bytes),
{
    lemma_first_non_hex_of_digits(text);
    let read = digit_pairs(text)->Ok_0;
    assert forall|i: int| 0 <= i < bytes.len() implies read[i] == bytes[i] by {
        assert(hex_value(text[2 * i]) == Some(nibble(bytes, 2 * i)));
        assert(hex_value(text[2 * i + 1]) == Some(nibble(bytes, 2 * i + 1)));
        assert((2 * i) / 2 == i && (2 * i) % 2 == 0);
        assert((2 * i + 1) / 2 == i && (2 * i + 1) % 2 == 1);
    }
    assert(read =~= bytes);
}

/// The bytes of the hexadecimal text of `bytes` are its digits.
pub(crate) proof fn lemma_hex_text_bytes(bytes: Seq<u8>)
    ensures
        vstd::utf8::is_ascii_chars(hex_text(bytes)),
        vstd::utf8::encode_utf8(hex_text(bytes)).len() == 2 * bytes.len(),
        forall|i: int|
            0 <= i < 2 * bytes.len() ==> hex_value(
                #[trigger] vstd::utf8::encode_utf8(hex_text(bytes))[i],
            ) == Some(nibble(bytes, i)),
{
    let chars = hex_text(bytes);
    assert forall|i: int| 0 <= i < chars.len() implies '\0' <= #[trigger] chars[i]
        <= '\u{7f}' && hex_value(chars[i] as u8) == Some(nibble(bytes, i)) by {
        let n = nibble(bytes, i);
        assert(0 <= n < 16);
        assert(chars[i] == text::digit_char(n));
        assert(chars[i] as int == if n < 10 {
            48 + n
        } else {
            87 + n
        });
    }
    vstd::utf8::is_ascii_chars_encode_utf8(chars);
}

/// Decoding what `encode` wrote gives the bytes back, for all of them.
pub proof fn decode_reads_what_encode_writes(bytes: Seq<u8>)
    ensures
        hex_bytes(vstd::utf8::encode_utf8(hex_text(bytes))) == Ok::<Seq<u8>, HexError>(bytes),
{
    lemma_hex_text_bytes(bytes);
    lemma_digit_pairs_of_nibbles(vstd::utf8::encode_utf8(hex_text(bytes)), bytes);
}

/// So it does where `0x` was written before the digits.
pub proof fn decode_prefixed_reads_what_encode_writes(bytes: Seq<u8>)
    ensures
        prefixed_hex_bytes("0x"@ + hex_text(bytes)) == Ok::<Seq<u8>, HexError>(bytes),
{
    reveal_strlit("0x");
    let digits = hex_text(bytes);
    let chars = "0x"@ + digits;
    lemma_hex_text_bytes(bytes);
    assert(vstd::utf8::is_ascii_chars(chars));
    vstd::utf8::is_ascii_chars_encode_utf8(chars);
    vstd::utf8::is_ascii_chars_encode_utf8(digits);
    let encoded = vstd::utf8::encode_utf8(chars);
    let tail = vstd::utf8::encode_utf8(digits);
    assert forall|i: int| 0 <= i < tail.len() implies encoded.skip(2)[i] == tail[i] by {
        assert(encoded[i + 2] == chars[i + 2] as u8);
        assert(chars[i + 2] == digits[i]);
    }
    assert(encoded.skip(2) =~= tail);
    assert(encoded[0] == chars[0] as u8 && encoded[1] == chars[1] as u8);
    if tail.len() >= 2 {
        assert(hex_value(tail[1]) is Some);
    }
    assert(without_prefixes(encoded) == without_prefixes(tail));
    assert(without_prefixes(tail) == tail);
    decode_reads_what_encode_writes(bytes);
}

/// Each byte is written as two lower-case digits, its high half and then its low half.
pub proof fn hex_text_writes_each_byte(bytes: Seq<u8>)
    ensures
        hex_text(bytes).len() == 2 * bytes.len(),
        forall|i: int|
            #![trigger bytes[i]]
            0 <= i < bytes.len() ==> {
                &&& hex_text(bytes)[2 * i] == "0123456789abcdef"@[bytes[i] as int / 16]
                &&& hex_text(bytes)[2 * i + 1] == "0123456789abcdef"@[bytes[i] as int % 16]
            },
{
    reveal_strlit("0123456789abcdef");
    assert forall|i: int| #![trigger bytes[i]] 0 <= i < bytes.len() implies {
        &&& hex_text(bytes)[2 * i] == "0123456789abcdef"@[bytes[i] as int / 16]
        &&& hex_text(bytes)[2 * i + 1] == "0123456789abcdef"@[bytes[i] as int % 16]
    } by {
        assert((2 * i) / 2 == i && (2 * i) % 2 == 0);
        assert((2 * i + 1) / 2 == i && (2 * i + 1) % 2 == 1);
        let high = bytes[i] as int / 16;
        let low = bytes[i] as int % 16;
        assert(0 <= high < 16 && 0 <= low < 16);
        assert(text::digit_char(high) == "0123456789abcdef"@[high]);
        assert(text::digit_char(low) == "0123456789abcdef"@[low]);
    }
}

proof fn lemma_first_non_hex(text: Seq<u8>)
    ensures
        0 <= first_non_hex(text) <= text.len(),
        forall|i: int| 0 <= i < first_non_hex(text) ==> hex_value(#[trigger] text[i]) is Some,
        first_non_hex(text) < text.len() ==> hex_value(text[first_non_hex(text)]) is None,
    decreases text.len(),
{
    if text.len() > 0 && hex_value(text[0]) is Some {
        let rest = text.drop_first();
        lemma_first_non_hex(rest);
        assert forall|i: int| 0 <= i < first_non_hex(text) implies hex_value(
            #[trigger] text[i],
        ) is Some by {
            if i > 0 {
                assert(rest[i - 1] == text[i]);
            }
        }
    }
}

/// Text is read as bytes where it has an even number of digits and nothing else: two
/// digits, of either case, for each byte. Where the number is odd that is reported, and
/// otherwise the first byte that is no digit.
pub proof fn hex_bytes_reads_each_digit(text: Seq<u8>)
    requires
        text.len() <= usize::MAX,
    ensures
        hex_bytes(text) == Err::<Seq<u8>, HexError>(HexError::OddLength) <==> text.len() % 2 == 1,
        match hex_bytes(text) {
            Ok(bytes) => {
                &&& text.len() == 2 * bytes.len()
                &&& forall|i: int|
                    #![trigger bytes[i]]
                    0 <= i < bytes.len() ==> {
                        let high = bytes[i] as int / 16;
                        let low = bytes[i] as int % 16;
                        &&& if high < 10 {
                            text[2 * i] == 48 + high
                        } else {
                            text[2 * i] == 87 + high || text[2 * i] == 55 + high
                        }
                        &&& if low < 10 {
                            text[2 * i + 1] == 48 + low
                        } else {
                            text[2 * i + 1] == 87 + low || text[2 * i + 1] == 55 + low
                        }
                    }
            },
            Err(HexError::InvalidHexCharacter { c, index }) => {
                &&& index < text.len()
                &&& c as int == text[index as int]
                &&& !(48 <= text[index as int] <= 57)
                &&& !(65 <= text[index as int] <= 70)
                &&& !(97 <= text[index as int] <= 102)
                &&& forall|i: int|
                    #![trigger text[i]]
                    0 <= i < index ==> 48 <= text[i] <= 57 || 65 <= text[i] <= 70 || 97 <= text[i]
                        <= 102
            },
            Err(HexError::OddLength) => true,
            Err(HexError::InvalidStringLength) => false,
        },
{
    lemma_first_non_hex(text);
    if text.len() % 2 == 0 && first_non_hex(text) == text.len() {
        let bytes = hex_bytes(text)->Ok_0;
        assert forall|i: int| #![trigger bytes[i]] 0 <= i < bytes.len() implies {
            &&& hex_value(text[2 * i]) == Some(bytes[i] as int / 16)
            &&& hex_value(text[2 * i + 1]) == Some(bytes[i] as int % 16)
        } by {
            assert(hex_value(text[2 * i]) is Some);
            assert(hex_value(text[2 * i + 1]) is Some);
        }
    }
}

/// A prefix `0x` changes nothing in what a text is read as, and a text without one is
/// read as it stands.
pub proof fn prefixes_do_not_count(text: Seq<char>)
    ensures
        prefixed_hex_bytes("0x"@ + text) == prefixed_hex_bytes(text),
        !(text.len() >= 2 && text[0] == '0' && text[1] == 'x') ==> prefixed_hex_bytes(text)
            == hex_bytes(vstd::utf8::encode_utf8(text)),
{
    reveal_strlit("0x");
    let chars = "0x"@ + text;
    assert(chars.drop_first().drop_first() =~= text);
    lemma_ascii_first(chars);
    lemma_ascii_first(chars.drop_first());
    let encoded = vstd::utf8::encode_utf8(chars);
    assert(encoded.skip(2) =~= vstd::utf8::encode_utf8(text));
    assert(encoded[0] == 48 && encoded[1] == 120);
    if text.len() > 0 {
        lemma_first_byte(text);
        if text[0] == '0' && text.len() > 1 {
            lemma_ascii_first(text);
            lemma_first_byte(text.drop_first());
        } else if text[0] == '0' {
            lemma_ascii_first(text);
            assert(text.drop_first() =~= Seq::<char>::empty());
        }
    }
}

proof fn lemma_char_is_a_number(c: char)
    ensures
        '\0' <= c,
        c as u32 == c as int,
{
}

proof fn lemma_ascii_first(chars: Seq<char>)
    requires
        chars.len() > 0,
        chars[0] <= '\u{7f}',
    ensures
        vstd::utf8::encode_utf8(chars) == seq![chars[0] as u8] + vstd::utf8::encode_utf8(
            chars.drop_first(),
        ),
{
    let first = seq![chars[0]];
    lemma_char_is_a_number(chars[0]);
    vstd::utf8::is_ascii_chars_encode_utf8(first);
    assert(first.drop_first() =~= Seq::<char>::empty());
    reveal_with_fuel(vstd::utf8::encode_utf8, 2);
    assert(vstd::utf8::encode_utf8(first) =~= vstd::utf8::encode_scalar(chars[0] as u32));
    assert(vstd::utf8::encode_scalar(chars[0] as u32) =~= seq![chars[0] as u8]);
}

/// The first byte of a text is an ASCII character only where the text begins with it.
proof fn lemma_first_byte(chars: Seq<char>)
    requires
        chars.len() > 0,
    ensures
        vstd::utf8::encode_utf8(chars).len() > 0,
        vstd::utf8::encode_utf8(chars)[0] == 48 <==> chars[0] == '0',
        vstd::utf8::encode_utf8(chars)[0] == 120 <==> chars[0] == 'x',
{
    lemma_char_is_a_number(chars[0]);
    if chars[0] <= '\u{7f}' {
        lemma_ascii_first(chars);
    } else {
        vstd::utf8::encode_utf8_first_scalar(chars);
        let byte = vstd::utf8::encode_utf8(chars)[0];
        assert((byte & 0x7f) as u32 <= 0x7f) by (bit_vector);
    }
}

} // verus!
