//! Parsing and validation of Vehicle Identification Numbers (ISO 3779).
use vstd::prelude::*;
use vstd::string::*;
use vstd::utf8::*;

mod dicts;

pub use dicts::{
    char_weight, country_name, is_vin_char, manufacturer_name, position_weight, region_of,
    vin_char_weight, vin_position_weight, Region,
};

verus! {

broadcast use vstd::string::group_string_axioms;

/// Number of characters in a VIN.
pub const VIN_LEN: usize = 17;

/// True for the bytes a VIN may hold: ASCII digits and upper-case letters
/// other than `I`, `O` and `Q`.
pub open spec fn is_vin_byte(b: u8) -> bool {
    ||| (0x30 <= b <= 0x39)
    ||| (0x41 <= b <= 0x5a && b != 0x49 && b != 0x4f && b != 0x51)
}

/// True when `b` is the encoding of a well-formed VIN.
pub open spec fn is_vin_bytes(b: Seq<u8>) -> bool {
    &&& b.len() == VIN_LEN
    &&& forall|i: int| 0 <= i < b.len() ==> is_vin_byte(#[trigger] b[i])
}

/// True when `s` is a well-formed VIN: seventeen allowed characters.
pub open spec fn is_vin(s: Seq<char>) -> bool {
    &&& s.len() == VIN_LEN
    &&& forall|i: int| 0 <= i < s.len() ==> is_vin_char(#[trigger] s[i])
}

/// True when `idx` is the first position of `b` that holds a byte a VIN may
/// not hold.
pub open spec fn first_invalid(b: Seq<u8>, idx: int) -> bool {
    &&& 0 <= idx < b.len()
    &&& !is_vin_byte(b[idx])
    &&& forall|j: int| 0 <= j < idx ==> is_vin_byte(#[trigger] b[j])
}

/// Sum of the weighted characters of the first `n` positions of `s`.
pub open spec fn weighted_sum(s: Seq<char>, n: int) -> int
    decreases n,
{
    if n <= 0 {
        0
    } else {
        weighted_sum(s, n - 1) + char_weight(s[n - 1]) * position_weight(n - 1)
    }
}

/// The checksum of a VIN: the weighted sum over all its positions.
pub open spec fn checksum(s: Seq<char>) -> int {
    weighted_sum(s, VIN_LEN as int)
}

/// The decimal digit character for `d`, below ten.
pub open spec fn digit_char(d: int) -> char {
    ((d + 0x30) as u8) as char
}

/// The character that stands for `n` modulo 11: a decimal digit, or `X` for ten.
pub open spec fn check_char(n: int) -> char {
    let r = n % 11;
    if r == 10 {
        'X'
    } else {
        digit_char(r)
    }
}

/// The decimal notation of `n`, without leading zeros.
pub open spec fn decimal(n: nat) -> Seq<char>
    decreases n,
{
    if n < 10 {
        seq![digit_char(n as int)]
    } else {
        decimal(n / 10) + seq![digit_char((n % 10) as int)]
    }
}

/// The text of an error.
pub open spec fn error_message(e: VinError) -> Seq<char> {
    match e {
        VinError::InvalidLen => "VIN MUST be 17 characters long"@,
        VinError::InvalidChar(idx, ch) => "VIN contains invalid character '"@ + seq![ch]
            + "' at idx="@ + decimal(idx as nat),
    }
}

/// The World Manufacturer Identifier: the first three characters.
pub open spec fn wmi_of(s: Seq<char>) -> Seq<char> {
    s.subrange(0, 3)
}

/// The Vehicle Descriptor Section: the characters at positions 3 to 8.
pub open spec fn vds_of(s: Seq<char>) -> Seq<char> {
    s.subrange(3, 9)
}

/// The Vehicle Identifier Section: the last eight characters.
pub open spec fn vic_of(s: Seq<char>) -> Seq<char> {
    s.subrange(9, VIN_LEN as int)
}

/// Error parsing a VIN.
#[derive(Copy, Clone, Debug, PartialEq, Eq, Structural)]
pub enum VinError {
    /// The VIN is not 17 characters long.
    InvalidLen,
    /// The VIN holds a character it may not hold, at the given byte index.
    InvalidChar(usize, char),
}

/// Relies on `ToString::to_string` for `char`: a string of that one character.
#[verifier::external_body]
fn char_text(c: char) -> (r: String)
    ensures
        r@ == seq![c],
{
    c.to_string()
}

/// Returns the decimal notation of `n`.
fn decimal_text(n: usize) -> (r: String)
    ensures
        r@ == decimal(n as nat),
    decreases n,
{
    if n < 10 {
        char_text((n as u8 + 0x30) as char)
    } else {
        let head = decimal_text(n / 10);
        let last = char_text(((n % 10) as u8 + 0x30) as char);
        head.concat(last.as_str())
    }
}

impl VinError {
    /// Returns the text of the error.
    pub fn message(&self) -> (r: String)
        ensures
            r@ == error_message(*self),
    {
        match self {
            VinError::InvalidLen => String::from_str("VIN MUST be 17 characters long"),
            VinError::InvalidChar(idx, ch) => {
                let text = String::from_str("VIN contains invalid character '");
                let text = text.concat(char_text(*ch).as_str());
                let text = text.concat("' at idx=");
                text.concat(decimal_text(*idx).as_str())
            },
        }
    }
}

/// Vehicle Identification Number: a validated view of a 17-character string.
#[derive(Copy, Clone, Debug, PartialEq, Eq)]
pub struct Vin<'a>(&'a str);

/// A byte string whose bytes are all below 0x80 encodes ASCII characters,
/// one per byte.
proof fn lemma_ascii_bytes(chars: Seq<char>)
    requires
        forall|i: int|
            0 <= i < encode_utf8(chars).len() ==> #[trigger] encode_utf8(chars)[i] < 0x80,
    ensures
        is_ascii_chars(chars),
        chars.len() == encode_utf8(chars).len(),
        forall|i: int| 0 <= i < chars.len() ==> chars[i] as u8 == #[trigger] encode_utf8(chars)[i],
    decreases chars.len(),
{
    if chars.len() > 0 {
        let c = chars[0] as u32;
        let rest = chars.drop_first();
        let head = encode_scalar(c);
        assert(encode_utf8(chars) == head + encode_utf8(rest));
        assert(encode_utf8(chars)[0] == head[0]);
        if !has_width_1_encoding(c) {
            let b = head[0];
            assert(b >= 0x80) by {
                if has_width_2_encoding(c) {
                    assert((0xC0u8 | ((c >> 6u32) & 0x1Fu32) as u8) >= 0x80u8) by (bit_vector);
                } else if has_width_3_encoding(c) {
                    assert((0xE0u8 | ((c >> 12u32) & 0x0Fu32) as u8) >= 0x80u8) by (bit_vector);
                } else {
                    assert((0xF0u8 | ((c >> 18u32) & 0x7u32) as u8) >= 0x80u8) by (bit_vector);
                }
            }
        }
        char_u32_cast(chars[0], c);
        assert((c as char) <= '\u{7f}');
        assert forall|i: int| 0 <= i < encode_utf8(rest).len() implies #[trigger] encode_utf8(
            rest,
        )[i] < 0x80 by {
            assert(encode_utf8(rest)[i] == encode_utf8(chars)[i + 1]);
        }
        lemma_ascii_bytes(rest);
        assert(is_ascii_chars(chars)) by {
            assert forall|i: int| 0 <= i < chars.len() implies '\0' <= #[trigger] chars[i]
                <= '\u{7f}' by {
                if i > 0 {
                    assert(chars[i] == rest[i - 1]);
                }
            }
        }
        is_ascii_chars_encode_utf8(chars);
    }
}

/// Every character a VIN may hold, but `0`, names exactly one region: the
/// ranges of the six regions leave no such character out and do not overlap.
pub proof fn lemma_vin_byte_has_region(b: u8)
    requires
        is_vin_byte(b),
        b != 0x30,
    ensures
        region_of(b) is Some,
        region_of(b) == Some(Region::Africa) <==> 0x41 <= b <= 0x48,
        region_of(b) == Some(Region::Asia) <==> 0x4a <= b <= 0x52,
        region_of(b) == Some(Region::Europe) <==> 0x53 <= b <= 0x5a,
        region_of(b) == Some(Region::NorthAmerica) <==> 0x31 <= b <= 0x35,
        region_of(b) == Some(Region::Oceania) <==> 0x36 <= b <= 0x37,
        region_of(b) == Some(Region::SouthAmerica) <==> 0x38 <= b <= 0x39,
{
}

/// The World Manufacturer Identifier, the Vehicle Descriptor Section and the
/// Vehicle Identifier Section of a VIN, joined in that order, give back the
/// whole VIN.
pub proof fn lemma_sections_rejoin(s: Seq<char>)
    requires
        is_vin(s),
    ensures
        wmi_of(s) + vds_of(s) + vic_of(s) == s,
{
    assert(wmi_of(s) + vds_of(s) + vic_of(s) =~= s);
}

/// Changing the character at position `i` of `s` changes the weighted sum of
/// the first `n` positions by the position's weight times the change in the
/// character's weight.
proof fn lemma_weighted_sum_change(s: Seq<char>, t: Seq<char>, i: int, n: int)
    requires
        0 <= i < s.len(),
        s.len() == t.len(),
        n <= s.len(),
        forall|j: int| 0 <= j < s.len() && j != i ==> s[j] == t[j],
    ensures
        weighted_sum(t, n) - weighted_sum(s, n) == if i < n {
            position_weight(i) * (char_weight(t[i]) - char_weight(s[i]))
        } else {
            0
        },
    decreases n,
{
    if n > 0 {
        lemma_weighted_sum_change(s, t, i, n - 1);
        if n - 1 == i {
            assert(char_weight(t[i]) * position_weight(i) - char_weight(s[i]) * position_weight(i)
                == position_weight(i) * (char_weight(t[i]) - char_weight(s[i]))) by (nonlinear_arith);
        }
    }
}

/// The checksum is a function of the VIN alone; changing the character at a
/// single position `i` leaves it unchanged exactly when `i` is the check
/// digit's own position or the new character has the same weight as the old.
pub proof fn lemma_checksum_single_change(s: Seq<char>, t: Seq<char>, i: int)
    requires
        is_vin(s),
        is_vin(t),
        0 <= i < VIN_LEN,
        forall|j: int| 0 <= j < VIN_LEN && j != i ==> s[j] == t[j],
    ensures
        checksum(s) == checksum(t) <==> (i == 8 || char_weight(s[i]) == char_weight(t[i])),
{
    lemma_weighted_sum_change(s, t, i, VIN_LEN as int);
    let p = position_weight(i) as int;
    let d = char_weight(t[i]) - char_weight(s[i]);
    assert(i == 8 <==> p == 0);
    assert(p * d == 0 <==> (p == 0 || d == 0)) by (nonlinear_arith);
}

/// A string holding a well-formed VIN is ASCII, one byte per character.
proof fn lemma_vin_is_ascii(s: &str)
    requires
        is_vin(s@),
    ensures
        is_ascii(s),
        s.spec_bytes().len() == s@.len(),
        forall|i: int| 0 <= i < s@.len() ==> s.spec_bytes()[i] == #[trigger] s@[i] as u8,
{
    assert(is_ascii_chars(s@));
    is_ascii_spec_bytes(s);
}

impl<'a> View for Vin<'a> {
    type V = Seq<char>;

    /// The characters of the VIN.
    closed spec fn view(&self) -> Seq<char> {
        self.0@
    }
}

impl<'a> Vin<'a> {
    #[verifier::type_invariant]
    spec fn inv(self) -> bool {
        &&& is_vin(self.0@)
        &&& is_vin_bytes(self.0.spec_bytes())
    }

    /// Creates a VIN from a string already known to be valid.
    pub fn new(vin: &'a str) -> (r: Self)
        requires
            is_vin_bytes(vin.spec_bytes()),
        ensures
            r@ == vin@,
            is_vin(r@),
    {
        match Self::try_new(vin) {
            Ok(this) => this,
            Err(_) => vstd::pervasive::unreached(),
        }
    }

    /// Checks that `vin` is a well-formed VIN and wraps it.
    ///
    /// The length and the characters are checked byte by byte; the first
    /// offending byte is reported.
    pub fn try_new(vin: &'a str) -> (r: Result<Self, VinError>)
        ensures
            r is Ok <==> is_vin_bytes(vin.spec_bytes()),
            match r {
                Ok(v) => v@ == vin@ && is_vin(v@),
                Err(VinError::InvalidLen) => vin.spec_bytes().len() != VIN_LEN,
                Err(VinError::InvalidChar(idx, ch)) => {
                    &&& vin.spec_bytes().len() == VIN_LEN
                    &&& first_invalid(vin.spec_bytes(), idx as int)
                    &&& ch == vin.spec_bytes()[idx as int] as char
                },
            },
    {
        let bytes = vin.as_bytes();
        if bytes.len() != VIN_LEN {
            return Err(VinError::InvalidLen);
        }
        let mut idx: usize = 0;
        while idx < bytes.len()
            invariant
                bytes@ == vin.spec_bytes(),
                bytes@.len() == VIN_LEN,
                idx <= VIN_LEN,
                forall|j: int| 0 <= j < idx ==> is_vin_byte(#[trigger] bytes@[j]),
            decreases VIN_LEN - idx,
        {
            let ch = bytes[idx];
            match ch {
                // 'I', 'O' and 'Q' are left out for their likeness to '1' and '0'
                0x49 | 0x4f | 0x51 => return Err(VinError::InvalidChar(idx, ch as char)),
                // 'A'..='Z' | '0'..='9'
                0x41..=0x5a | 0x30..=0x39 => idx += 1,
                _ => return Err(VinError::InvalidChar(idx, ch as char)),
            }
        }
        proof {
            let chars = vin@;
            assert(vin.spec_bytes() == encode_utf8(chars));
            lemma_ascii_bytes(chars);
            assert forall|i: int| 0 <= i < chars.len() implies is_vin_char(#[trigger] chars[i]) by {
                assert(chars[i] as u8 == bytes@[i]);
                assert(is_vin_byte(bytes@[i]));
            }
        }
        Ok(Vin(vin))
    }

    /// Returns the byte at position `idx`.
    fn byte_at(&self, idx: usize) -> (b: u8)
        requires
            idx < VIN_LEN,
        ensures
            b == self@[idx as int] as u8,
            b as char == self@[idx as int],
            is_vin_byte(b),
    {
        proof {
            use_type_invariant(self);
            lemma_vin_is_ascii(self.0);
            char_u32_cast(self@[idx as int], self@[idx as int] as u32);
        }
        self.0.as_bytes()[idx]
    }

    /// Returns the character at position `idx`.
    fn char_at(&self, idx: usize) -> (c: char)
        requires
            idx < VIN_LEN,
        ensures
            c == self@[idx as int],
            is_vin_char(c),
    {
        proof {
            use_type_invariant(self);
        }
        self.byte_at(idx) as char
    }

    /// Returns the checksum of the VIN: the sum over all positions of the
    /// character's weight times the position's weight.
    pub fn calculate_checksum(&self) -> (r: u32)
        ensures
            r as int == checksum(self@),
    {
        let mut result: u32 = 0;
        let mut idx: usize = 0;
        while idx < VIN_LEN
            invariant
                idx <= VIN_LEN,
                result as int == weighted_sum(self@, idx as int),
                result <= 90 * idx,
            decreases VIN_LEN - idx,
        {
            let ch = self.char_at(idx);
            let weight = vin_char_weight(ch);
            let position = vin_position_weight(idx);
            assert(weight * position <= 90) by (nonlinear_arith)
                requires
                    weight <= 9,
                    position <= 10,
            ;
            let term = weight * position;
            result = result.wrapping_add(term);
            idx += 1;
        }
        result
    }

    /// Returns the check digit that the checksum calls for: the checksum
    /// modulo 11 as a decimal digit, or `X` for ten.
    ///
    /// The check digit is a North American and Asian convention; for other
    /// VINs the character is computed all the same.
    pub fn calculate_checksum_digit(&self) -> (r: char)
        ensures
            r == check_char(checksum(self@)),
    {
        let checksum = self.calculate_checksum();
        let digit = checksum % 11;
        if digit == 10 {
            'X'
        } else {
            (digit as u8 + 0x30) as char
        }
    }

    /// Returns whether the character at position 8 is the check digit that
    /// the checksum calls for.
    pub fn is_checksum_valid(&self) -> (r: bool)
        ensures
            r == (self@[8] == check_char(checksum(self@))),
    {
        let expected = self.calculate_checksum_digit();
        self.char_at(8) == expected
    }

    /// Returns the whole VIN as a string.
    pub fn as_str(&self) -> (r: &'a str)
        ensures
            r@ == self@,
    {
        self.0
    }

    /// Returns the three-character World Manufacturer Identifier.
    pub fn wmi(&self) -> (r: &'a str)
        ensures
            r@ == wmi_of(self@),
    {
        proof {
            use_type_invariant(self);
        }
        self.0.substring_ascii(0, 3)
    }

    /// Returns the Vehicle Descriptor Section: characters 4 to 9.
    ///
    /// In North America and Asia its last character is the check digit.
    pub fn vds(&self) -> (r: &'a str)
        ensures
            r@ == vds_of(self@),
    {
        proof {
            use_type_invariant(self);
        }
        self.0.substring_ascii(3, 9)
    }

    /// Returns the Vehicle Identifier Section: characters 10 to 17.
    pub fn vic(&self) -> (r: &'a str)
        ensures
            r@ == vic_of(self@),
    {
        proof {
            use_type_invariant(self);
        }
        self.0.substring_ascii(9, VIN_LEN)
    }

    /// Returns the country of the manufacturer, or `Unknown`.
    pub fn manufacturer_country(&self) -> (r: &'static str)
        ensures
            r@ == country_name(wmi_of(self@)),
    {
        proof {
            use_type_invariant(self);
        }
        dicts::map_wmi_to_country(self.wmi())
    }

    /// Returns the name of the manufacturer, or `Unknown`.
    pub fn manufacturer_name(&self) -> (r: &'static str)
        ensures
            r@ == manufacturer_name(wmi_of(self@)),
    {
        proof {
            use_type_invariant(self);
        }
        dicts::map_wmi_to_manufacturer(self.wmi())
    }

    /// Returns the region of the manufacturer, given by the first character.
    pub fn manufacturer_region(&self) -> (r: Option<Region>)
        ensures
            r == region_of(self@[0] as u8),
            r is Some <==> self@[0] != '0',
    {
        let first = self.byte_at(0);
        Region::from_wmi_region(first)
    }
}

} // verus!
