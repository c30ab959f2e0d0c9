//! Addresses and 32-byte words.

use vstd::prelude::*;

use crate::hex_text;
use crate::hex_text::HexError;
use crate::text::bytes_eq;

verus! {

/// An Ethereum address.
#[derive(Debug, Clone, Copy)]
pub struct Address(pub [u8; 20]);

/// A 32-byte word: a hash, a state root.
#[derive(Debug, Clone, Copy)]
pub struct B256(pub [u8; 32]);

impl View for Address {
    type V = Seq<u8>;

    open spec fn view(&self) -> Seq<u8> {
        self.0@
    }
}

impl View for B256 {
    type V = Seq<u8>;

    open spec fn view(&self) -> Seq<u8> {
        self.0@
    }
}

/// The address with the given bytes.
pub open spec fn address_of(bytes: Seq<u8>) -> Address {
    choose|address: Address| address@ == bytes
}

/// The word with the given bytes.
pub open spec fn word_of(bytes: Seq<u8>) -> B256 {
    choose|word: B256| word@ == bytes
}

proof fn lemma_array_of<const N: usize>(bytes: Seq<u8>, filled: nat) -> (array: [u8; N])
    requires
        bytes.len() == N,
        filled <= N,
    ensures
        forall|i: int| 0 <= i < filled ==> array@[i] == bytes[i],
    decreases filled,
{
    if filled == 0 {
        vstd::array::spec_array_fill_for_copy_type::<u8, N>(0)
    } else {
        let shorter = lemma_array_of::<N>(bytes, (filled - 1) as nat);
        vstd::array::spec_array_update(shorter, filled - 1, bytes[filled - 1])
    }
}

/// Every twenty bytes are those of an address.
pub proof fn lemma_address_of_bytes(bytes: Seq<u8>)
    requires
        bytes.len() == 20,
    ensures
        address_of(bytes)@ == bytes,
{
    let array = lemma_array_of::<20>(bytes, 20);
    assert(Address(array)@ =~= bytes);
}

/// An address is its bytes.
pub broadcast proof fn address_is_its_bytes(address: Address)
    ensures
        #[trigger] address@.len() == 20,
        address_of(address@) == address,
{
    let other = address_of(address@);
    assert(other@ == address@);
    assert(other.0 =~= address.0);
}

/// A word is its bytes.
pub broadcast proof fn word_is_its_bytes(word: B256)
    ensures
        #[trigger] word@.len() == 32,
        word_of(word@) == word,
{
    let other = word_of(word@);
    assert(other@ == word@);
    assert(other.0 =~= word.0);
}

impl PartialEq for Address {
    fn eq(&self, other: &Self) -> (same: bool) {
        let same = bytes_eq(self.0.as_slice(), other.0.as_slice());
        proof {
            address_is_its_bytes(*self);
            address_is_its_bytes(*other);
        }
        same
    }
}

impl Eq for Address {

}

impl vstd::std_specs::cmp::PartialEqSpecImpl for Address {
    open spec fn obeys_eq_spec() -> bool {
        true
    }

    open spec fn eq_spec(&self, other: &Self) -> bool {
        *self == *other
    }
}

impl PartialEq for B256 {
    fn eq(&self, other: &Self) -> (same: bool) {
        let same = bytes_eq(self.0.as_slice(), other.0.as_slice());
        proof {
            word_is_its_bytes(*self);
            word_is_its_bytes(*other);
        }
        same
    }
}

impl Eq for B256 {

}

impl vstd::std_specs::cmp::PartialEqSpecImpl for B256 {
    open spec fn obeys_eq_spec() -> bool {
        true
    }

    open spec fn eq_spec(&self, other: &Self) -> bool {
        *self == *other
    }
}

/// The Keccak-256 digest of `bytes`.
pub uninterp spec fn keccak256_digest(bytes: Seq<u8>) -> Seq<u8>;

/// Calls `alloy_primitives::keccak256`, whose result `keccak256_digest` names.
#[verifier::external_body]
pub(crate) fn keccak256(bytes: &[u8]) -> (digest: [u8; 32])
    ensures
        digest@ == keccak256_digest(bytes@),
{
    alloy_primitives::keccak256(bytes).0
}

/// A hexadecimal digit in upper case.
pub open spec fn upper(digit: char) -> char {
    if 'a' <= digit <= 'f' {
        (digit as int - 32) as char
    } else {
        digit
    }
}

/// The text of an address: `0x` and its digits, where a letter is in upper case if
/// the digest of the lower-case digits has a nibble of eight or more at the
/// letter's position.
pub open spec fn checksum_text(address: Seq<u8>) -> Seq<char> {
    let digits = hex_text::hex_text(address);
    let digest = keccak256_digest(Seq::new(digits.len(), |i: int| digits[i] as u8));
    seq!['0', 'x'] + Seq::new(
        digits.len(),
        |i: int|
            if hex_text::nibble(digest, i) >= 8 {
                upper(digits[i])
            } else {
                digits[i]
            },
    )
}

/// `text` without the one prefix `0x` or `0X` that it may begin with.
pub open spec fn without_prefix(text: Seq<u8>) -> Seq<u8> {
    if text.len() >= 2 && text[0] == 48 && (text[1] == 120 || text[1] == 88) {
        text.skip(2)
    } else {
        text
    }
}

/// What reading the bytes of a text as an address gives: forty digits of either
/// case, prefixed or not.
pub open spec fn address_from_text(text: Seq<u8>) -> Result<Seq<u8>, HexError> {
    let digits = without_prefix(text);
    if text.len() % 2 != 0 {
        Err(HexError::OddLength)
    } else if digits.len() != 40 {
        Err(HexError::InvalidStringLength)
    } else {
        hex_text::digit_pairs(digits)
    }
}

/// Calls `Address::to_checksum` of `alloy_primitives` without a chain id, which
/// writes the EIP-55 form of the address.
#[verifier::external_body]
fn to_checksum(address: &[u8; 20]) -> (text: String)
    ensures
        text@ == checksum_text(address@),
{
    alloy_primitives::Address::new(*address).to_checksum(None)
}

/// Calls `Address::from_str` of `alloy_primitives`. The case of the digits is not
/// held against the checksum; the position in an error counts from behind the
/// prefix.
#[verifier::external_body]
fn parse_address(text: &str) -> (address: Result<[u8; 20], HexError>)
    ensures
        match address {
            Ok(bytes) => address_from_text(vstd::utf8::encode_utf8(text@)) == Ok::<Seq<u8>, HexError>(bytes@),
            Err(error) => address_from_text(vstd::utf8::encode_utf8(text@)) == Err::<Seq<u8>, HexError>(error),
        },
{
    let parsed = <alloy_primitives::Address as std::str::FromStr>::from_str(text);
    parsed.map(|address| address.into_array()).map_err(|e| match e {
        alloy_primitives::hex::FromHexError::InvalidHexCharacter { c, index } => HexError::InvalidHexCharacter { c, index },
        alloy_primitives::hex::FromHexError::OddLength => HexError::OddLength,
        alloy_primitives::hex::FromHexError::InvalidStringLength => HexError::InvalidStringLength,
    })
}

impl Address {
    /// The address as text, with the checksum in the case of its letters.
    pub fn to_string(&self) -> (text: String)
        ensures
            text@ == checksum_text(self@),
    {
        to_checksum(&self.0)
    }

    /// Reads an address from text.
    pub fn from_text(text: &str) -> (address: Result<Address, HexError>)
        ensures
            match address {
                Ok(address) => address_from_text(vstd::utf8::encode_utf8(text@)) == Ok::<Seq<u8>, HexError>(address@),
                Err(error) => address_from_text(vstd::utf8::encode_utf8(text@)) == Err::<Seq<u8>, HexError>(error),
            },
    {
        match parse_address(text) {
            Ok(bytes) => Ok(Address(bytes)),
            Err(error) => Err(error),
        }
    }
}

/// The text of a word: `0x` and its digits in lower case.
pub open spec fn word_text(word: Seq<u8>) -> Seq<char> {
    "0x"@ + hex_text::hex_text(word)
}

impl B256 {
    /// The word as text.
    pub fn to_string(&self) -> (text: String)
        ensures
            text@ == word_text(self@),
    {
        let mut text = "0x".to_owned();
        text.append(hex_text::encode(self.0.as_slice()).as_str());
        text
    }
}

/// Reading the text of an address gives the address back.
pub proof fn address_text_reads_back(address: Address)
    ensures
        address_from_text(vstd::utf8::encode_utf8(checksum_text(address@))) == Ok::<
            Seq<u8>,
            HexError,
        >(address@),
{
    let bytes = address@;
    address_is_its_bytes(address);
    let digits = hex_text::hex_text(bytes);
    let chars = checksum_text(bytes);
    let digest = keccak256_digest(Seq::new(digits.len(), |i: int| digits[i] as u8));
    hex_text::lemma_hex_text_bytes(bytes);
    vstd::utf8::is_ascii_chars_encode_utf8(digits);
    assert(chars.len() == 42);
    assert forall|i: int| 0 <= i < chars.len() implies '\0' <= #[trigger] chars[i]
        <= '\u{7f}' by {
        if i >= 2 {
            assert(chars[i] == digits[i - 2] || chars[i] == upper(digits[i - 2]));
        }
    }
    vstd::utf8::is_ascii_chars_encode_utf8(chars);
    let text = vstd::utf8::encode_utf8(chars);
    assert(text[0] == chars[0] as u8 && text[1] == chars[1] as u8);
    let tail = text.skip(2);
    assert(without_prefix(text) == tail);
    assert forall|i: int| 0 <= i < tail.len() implies hex_text::hex_value(#[trigger] tail[i])
        == Some(hex_text::nibble(bytes, i)) by {
        assert(text[i + 2] == chars[i + 2] as u8);
        assert(vstd::utf8::encode_utf8(digits)[i] == digits[i] as u8);
        assert(hex_text::hex_value(vstd::utf8::encode_utf8(digits)[i]) == Some(
            hex_text::nibble(bytes, i),
        ));
    }
    hex_text::lemma_digit_pairs_of_nibbles(tail, bytes);
}

/// What an address and a word are is their bytes, in their order.
pub proof fn views_are_the_bytes(address: Address, word: B256)
    ensures
        address@.len() == 20,
        forall|i: int| 0 <= i < 20 ==> #[trigger] address@[i] == address.0[i],
        word@.len() == 32,
        forall|i: int| 0 <= i < 32 ==> #[trigger] word@[i] == word.0[i],
{
}

/// The text of an address is `0x` and two digits for each byte. The case of each letter
/// is that of the digest of the digits in lower case: upper where the digest has a
/// nibble of eight or more.
pub proof fn checksum_is_in_the_case(address: Address, i: int)
    requires
        0 <= i < 20,
    ensures
        ({
            let text = checksum_text(address@);
            let lower = Seq::new(
                40,
                |k: int|
                    "0123456789abcdef"@[if k % 2 == 0 {
                        address.0[k / 2] as int / 16
                    } else {
                        address.0[k / 2] as int % 16
                    }] as u8,
            );
            let digest = keccak256_digest(lower);
            let high = address.0[i] as int / 16;
            let low = address.0[i] as int % 16;
            &&& text.len() == 42
            &&& text[0] == '0'
            &&& text[1] == 'x'
            &&& text[2 + 2 * i] == if digest[i] as int / 16 >= 8 {
                "0123456789ABCDEF"@[high]
            } else {
                "0123456789abcdef"@[high]
            }
            &&& text[3 + 2 * i] == if digest[i] as int % 16 >= 8 {
                "0123456789ABCDEF"@[low]
            } else {
                "0123456789abcdef"@[low]
            }
        }),
{
    reveal_strlit("0123456789abcdef");
    reveal_strlit("0123456789ABCDEF");
    let bytes = address@;
    address_is_its_bytes(address);
    let digits = hex_text::hex_text(bytes);
    let lower = Seq::new(
        40,
        |k: int|
            "0123456789abcdef"@[if k % 2 == 0 {
                address.0[k / 2] as int / 16
            } else {
                address.0[k / 2] as int % 16
            }] as u8,
    );
    hex_text::hex_text_writes_each_byte(bytes);
    assert forall|k: int| 0 <= k < 40 implies #[trigger] lower[k] == digits[k] as u8 by {
        assert(bytes[k / 2] == address.0[k / 2]);
        if k % 2 == 0 {
            assert(k == 2 * (k / 2));
        } else {
            assert(k == 2 * (k / 2) + 1);
        }
    }
    assert(lower =~= Seq::new(digits.len(), |k: int| digits[k] as u8));
    assert(bytes[i] == address.0[i]);
    let high = bytes[i] as int / 16;
    let low = bytes[i] as int % 16;
    assert(0 <= high < 16 && 0 <= low < 16);
    assert((2 * i) / 2 == i && (2 * i) % 2 == 0);
    assert((2 * i + 1) / 2 == i && (2 * i + 1) % 2 == 1);
    assert(upper("0123456789abcdef"@[high]) == "0123456789ABCDEF"@[high]);
    assert(upper("0123456789abcdef"@[low]) == "0123456789ABCDEF"@[low]);
}

/// An address is read from forty digits, behind `0x` or `0X` or without a prefix, as
/// any bytes are from their digits; other lengths are refused.
pub proof fn address_is_read_from_forty_digits(digits: Seq<u8>)
    ensures
        digits.len() == 40 ==> {
            &&& address_from_text(seq![48u8, 120] + digits) == hex_text::hex_bytes(digits)
            &&& address_from_text(seq![48u8, 88] + digits) == hex_text::hex_bytes(digits)
            &&& !(digits[0] == 48 && (digits[1] == 120 || digits[1] == 88)) ==> address_from_text(
                digits,
            ) == hex_text::hex_bytes(digits)
        },
        digits.len() % 2 == 1 ==> address_from_text(digits) == Err::<Seq<u8>, HexError>(
            HexError::OddLength,
        ),
        digits.len() % 2 == 0 && digits.len() != 40 && digits.len() != 42 ==> address_from_text(
            digits,
        ) == Err::<Seq<u8>, HexError>(HexError::InvalidStringLength),
        digits.len() == 42 && !(digits[0] == 48 && (digits[1] == 120 || digits[1] == 88))
            ==> address_from_text(digits) == Err::<Seq<u8>, HexError>(
            HexError::InvalidStringLength,
        ),
        digits.len() == 40 && digits[0] == 48 && (digits[1] == 120 || digits[1] == 88)
            ==> address_from_text(digits) == Err::<Seq<u8>, HexError>(
            HexError::InvalidStringLength,
        ),
{
    assert((seq![48u8, 120] + digits).skip(2) =~= digits);
    assert((seq![48u8, 88] + digits).skip(2) =~= digits);
}

/// The text of a word is read back as the word, and is `0x` and 64 digits long.
pub proof fn word_text_reads_back(word: B256)
    ensures
        word_text(word@).len() == 66,
        word_text(word@)[0] == '0',
        word_text(word@)[1] == 'x',
        hex_text::prefixed_hex_bytes(word_text(word@)) == Ok::<Seq<u8>, HexError>(word@),
        forall|i: int|
            #![trigger word.0[i]]
            0 <= i < 32 ==> {
                &&& word_text(word@)[2 + 2 * i] == "0123456789abcdef"@[word.0[i] as int / 16]
                &&& word_text(word@)[3 + 2 * i] == "0123456789abcdef"@[word.0[i] as int % 16]
            },
{
    reveal_strlit("0x");
    hex_text::decode_prefixed_reads_what_encode_writes(word@);
    hex_text::hex_text_writes_each_byte(word@);
    assert forall|i: int| #![trigger word.0[i]] 0 <= i < 32 implies {
        &&& word_text(word@)[2 + 2 * i] == "0123456789abcdef"@[word.0[i] as int / 16]
        &&& word_text(word@)[3 + 2 * i] == "0123456789abcdef"@[word.0[i] as int % 16]
    } by {
        assert(word@[i] == word.0[i]);
        assert(word_text(word@)[2 + 2 * i] == hex_text::hex_text(word@)[2 * i]);
        assert(word_text(word@)[3 + 2 * i] == hex_text::hex_text(word@)[2 * i + 1]);
    }
}

} // verus!
