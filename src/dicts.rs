use vstd::prelude::*;

mod country;
mod manufacturer;

pub use country::{country_name, map_wmi_to_country};
pub use manufacturer::{manufacturer_name, map_wmi_to_manufacturer};

verus! {

/// True for the characters a VIN may hold: ASCII digits and upper-case
/// letters other than `I`, `O` and `Q`.
pub open spec fn is_vin_char(c: char) -> bool {
    ||| ('0' <= c <= '9')
    ||| ('A' <= c <= 'Z' && c != 'I' && c != 'O' && c != 'Q')
}

/// Transliteration weight of a VIN character in the check-digit formula.
pub open spec fn char_weight(c: char) -> u32 {
    match c {
        '0' => 0,
        '1' | 'A' | 'J' => 1,
        '2' | 'B' | 'K' | 'S' => 2,
        '3' | 'C' | 'L' | 'T' => 3,
        '4' | 'D' | 'M' | 'U' => 4,
        '5' | 'E' | 'N' | 'V' => 5,
        '6' | 'F' | 'W' => 6,
        '7' | 'G' | 'P' | 'X' => 7,
        '8' | 'H' | 'Y' => 8,
        _ => 9,
    }
}

/// Returns the transliteration weight (0 to 9) of a character of a valid VIN.
pub fn vin_char_weight(ch: char) -> (r: u32)
    requires
        is_vin_char(ch),
    ensures
        r == char_weight(ch),
        r <= 9,
{
    match ch {
        '0' => 0,
        '1' | 'A' | 'J' => 1,
        '2' | 'B' | 'K' | 'S' => 2,
        '3' | 'C' | 'L' | 'T' => 3,
        '4' | 'D' | 'M' | 'U' => 4,
        '5' | 'E' | 'N' | 'V' => 5,
        '6' | 'F' | 'W' => 6,
        '7' | 'G' | 'P' | 'X' => 7,
        '8' | 'H' | 'Y' => 8,
        _ => 9,
    }
}

/// Weight of each of the seventeen positions in the check-digit formula; the
/// check digit's own position carries none.
pub open spec fn position_weight(i: int) -> u32 {
    seq![8u32, 7, 6, 5, 4, 3, 2, 10, 0, 9, 8, 7, 6, 5, 4, 3, 2][i]
}

/// Returns the weight of position `idx` of a VIN.
pub fn vin_position_weight(idx: usize) -> (r: u32)
    requires
        idx < 17,
    ensures
        r == position_weight(idx as int),
        r <= 10,
{
    let weights: [u32; 17] = [8, 7, 6, 5, 4, 3, 2, 10, 0, 9, 8, 7, 6, 5, 4, 3, 2];
    assert(weights@ =~= seq![8u32, 7, 6, 5, 4, 3, 2, 10, 0, 9, 8, 7, 6, 5, 4, 3, 2]);
    weights[idx]
}

/// Geographic region of a vehicle manufacturer.
#[derive(Copy, Clone, Debug, PartialEq, Eq, Hash, Structural)]
pub enum Region {
    /// Africa region
    Africa,
    /// Asia region
    Asia,
    /// Europe region
    Europe,
    /// North America region
    NorthAmerica,
    /// Oceania region
    Oceania,
    /// South America region
    SouthAmerica,
}

/// The region that the first character `b` of a WMI stands for, if any:
/// `A`-`H` Africa; `J`-`N`, `P`, `R` Asia; `S`-`Z` Europe; `1`-`5` North
/// America; `6`-`7` Oceania; `8`-`9` South America.
pub open spec fn region_of(b: u8) -> Option<Region> {
    if 0x41 <= b <= 0x48 {
        Some(Region::Africa)
    } else if (0x4a <= b <= 0x4e) || b == 0x50 || b == 0x52 {
        Some(Region::Asia)
    } else if 0x53 <= b <= 0x5a {
        Some(Region::Europe)
    } else if 0x31 <= b <= 0x35 {
        Some(Region::NorthAmerica)
    } else if 0x36 <= b <= 0x37 {
        Some(Region::Oceania)
    } else if 0x38 <= b <= 0x39 {
        Some(Region::SouthAmerica)
    } else {
        None
    }
}

impl Region {
    /// Display text of the region.
    pub open spec fn name(self) -> Seq<char> {
        match self {
            Region::Africa => "Africa"@,
            Region::Asia => "Asia"@,
            Region::Europe => "Europe"@,
            Region::NorthAmerica => "North America"@,
            Region::Oceania => "Oceania"@,
            Region::SouthAmerica => "South America"@,
        }
    }

    /// Returns the region given by the first character of a WMI, or `None`
    /// for a character that names no region.
    pub fn from_wmi_region(ch: u8) -> (r: Option<Self>)
        ensures
            r == region_of(ch),
    {
        match ch {
            // 'A'..='H'
            0x41..=0x48 => Some(Region::Africa),
            // 'J'..='N', 'P', 'R'
            0x4a..=0x4e | 0x50 | 0x52 => Some(Region::Asia),
            // 'S'..='Z'
            0x53..=0x5a => Some(Region::Europe),
            // '1'..='5'
            0x31..=0x35 => Some(Region::NorthAmerica),
            // '6'..='7'
            0x36..=0x37 => Some(Region::Oceania),
            // '8'..='9'
            0x38..=0x39 => Some(Region::SouthAmerica),
            _ => None,
        }
    }

    /// Returns the display text of the region.
    pub fn as_str(&self) -> (r: &'static str)
        ensures
            r@ == self.name(),
    {
        match self {
            Region::Africa => "Africa",
            Region::Asia => "Asia",
            Region::Europe => "Europe",
            Region::NorthAmerica => "North America",
            Region::Oceania => "Oceania",
            Region::SouthAmerica => "South America",
        }
    }
}

} // verus!
