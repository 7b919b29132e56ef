use vstd::prelude::*;

verus! {

/// The country that a WMI stands for, by its first two characters, or
/// `Unknown`.
pub open spec fn country_name(wmi: Seq<char>) -> Seq<char> {
    match (wmi[0], wmi[1]) {
        ('1', _) | ('4', _) | ('5', _) => "United States"@,
        ('2', _) => "Canada"@,
        ('3', 'A'..='W') => "Mexico"@,
        ('6', 'A'..='W') => "Australia"@,
        ('9', 'A'..='E') => "Brazil"@,
        ('A', 'A'..='H') => "South Africa"@,
        ('J', _) => "Japan"@,
        ('K', 'L'..='R') => "South Korea"@,
        ('L', _) => "China"@,
        ('M', 'A'..='E') => "India"@,
        ('S', 'A'..='M') => "United Kingdom"@,
        ('V', 'F'..='R') => "France"@,
        ('V', 'S'..='W') => "Spain"@,
        ('W', _) => "Germany"@,
        ('Y', 'S'..='W') => "Sweden"@,
        ('Z', 'A'..='R') => "Italy"@,
        _ => "Unknown"@,
    }
}

/// Returns the country that a WMI stands for, or `Unknown`.
pub fn map_wmi_to_country(wmi: &str) -> (r: &'static str)
    requires
        wmi@.len() == 3,
    ensures
        r@ == country_name(wmi@),
{
    let first = wmi.get_char(0);
    let second = wmi.get_char(1);
    match (first, second) {
        ('1', _) | ('4', _) | ('5', _) => "United States",
        ('2', _) => "Canada",
        ('3', 'A'..='W') => "Mexico",
        ('6', 'A'..='W') => "Australia",
        ('9', 'A'..='E') => "Brazil",
        ('A', 'A'..='H') => "South Africa",
        ('J', _) => "Japan",
        ('K', 'L'..='R') => "South Korea",
        ('L', _) => "China",
        ('M', 'A'..='E') => "India",
        ('S', 'A'..='M') => "United Kingdom",
        ('V', 'F'..='R') => "France",
        ('V', 'S'..='W') => "Spain",
        ('W', _) => "Germany",
        ('Y', 'S'..='W') => "Sweden",
        ('Z', 'A'..='R') => "Italy",
        _ => "Unknown",
    }
}

} // verus!
