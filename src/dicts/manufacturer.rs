use vstd::prelude::*;

verus! {

/// The manufacturer that a WMI stands for, or `Unknown`. A full
/// three-character code is looked up before a two-character prefix.
pub open spec fn manufacturer_name(wmi: Seq<char>) -> Seq<char> {
    match (wmi[0], wmi[1], wmi[2]) {
        ('1', 'F', 'A') => "Ford Motor Company"@,
        ('1', 'G', '1') => "Chevrolet"@,
        ('1', 'H', 'G') => "Honda"@,
        ('1', 'M', '8') => "Motor Coach Industries, Inc."@,
        ('5', 'N', '1') => "Nissan North America, Inc."@,
        ('5', 'Y', 'J') => "Tesla, Inc."@,
        ('J', 'H', 'M') => "Honda"@,
        ('J', 'N', '1') => "Nissan"@,
        ('K', 'M', 'H') => "Hyundai"@,
        ('S', 'A', 'J') => "Jaguar"@,
        ('V', 'F', '1') => "Renault"@,
        ('W', 'B', 'A') => "BMW"@,
        ('W', 'D', 'B') => "Mercedes-Benz"@,
        ('W', 'P', '0') => "Porsche"@,
        ('W', 'V', 'W') => "Volkswagen"@,
        ('Y', 'V', '1') => "Volvo Cars"@,
        ('Z', 'F', 'F') => "Ferrari"@,
        ('J', 'T', _) => "Toyota"@,
        _ => "Unknown"@,
    }
}

/// Returns the manufacturer that a WMI stands for, or `Unknown`.
pub fn map_wmi_to_manufacturer(wmi: &str) -> (r: &'static str)
    requires
        wmi@.len() == 3,
    ensures
        r@ == manufacturer_name(wmi@),
{
    let first = wmi.get_char(0);
    let second = wmi.get_char(1);
    let third = wmi.get_char(2);
    match (first, second, third) {
        ('1', 'F', 'A') => "Ford Motor Company",
        ('1', 'G', '1') => "Chevrolet",
        ('1', 'H', 'G') => "Honda",
        ('1', 'M', '8') => "Motor Coach Industries, Inc.",
        ('5', 'N', '1') => "Nissan North America, Inc.",
        ('5', 'Y', 'J') => "Tesla, Inc.",
        ('J', 'H', 'M') => "Honda",
        ('J', 'N', '1') => "Nissan",
        ('K', 'M', 'H') => "Hyundai",
        ('S', 'A', 'J') => "Jaguar",
        ('V', 'F', '1') => "Renault",
        ('W', 'B', 'A') => "BMW",
        ('W', 'D', 'B') => "Mercedes-Benz",
        ('W', 'P', '0') => "Porsche",
        ('W', 'V', 'W') => "Volkswagen",
        ('Y', 'V', '1') => "Volvo Cars",
        ('Z', 'F', 'F') => "Ferrari",
        ('J', 'T', _) => "Toyota",
        _ => "Unknown",
    }
}

} // verus!
