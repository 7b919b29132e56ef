use vin_info::{vin_char_weight, vin_position_weight, Region, Vin};

#[test]
fn character_weights() {
    let groups: [(&str, u32); 10] = [
        ("0", 0),
        ("1AJ", 1),
        ("2BKS", 2),
        ("3CLT", 3),
        ("4DMU", 4),
        ("5ENV", 5),
        ("6FW", 6),
        ("7GPX", 7),
        ("8HY", 8),
        ("9RZ", 9),
    ];
    for (chars, weight) in groups {
        for ch in chars.chars() {
            assert_eq!(vin_char_weight(ch), weight);
        }
    }
}

#[test]
fn position_weights() {
    let expected: [u32; 17] = [8, 7, 6, 5, 4, 3, 2, 10, 0, 9, 8, 7, 6, 5, 4, 3, 2];
    for (idx, weight) in expected.iter().enumerate() {
        assert_eq!(vin_position_weight(idx), *weight);
    }
}

#[test]
fn checksum_values() {
    assert_eq!(Vin::new("1M8GDM9AXKP042788").calculate_checksum(), 351);
    assert_eq!(Vin::new("5N1NJ01CXST000001").calculate_checksum(), 186);
    assert_eq!(Vin::new("11111111111111111").calculate_checksum(), 89);
}

#[test]
fn numeric_check_digit() {
    let vin = Vin::new("11111111111111111");
    assert_eq!(vin.calculate_checksum_digit(), '1');
    assert!(vin.is_checksum_valid());
}

#[test]
fn wrong_check_digit_is_reported() {
    let vin = Vin::new("WBA00000000000000");
    assert_eq!(vin.calculate_checksum(), 68);
    assert_eq!(vin.calculate_checksum_digit(), '2');
    assert!(!vin.is_checksum_valid());
}

#[test]
fn checksum_is_reproducible() {
    let vin = Vin::new("5N1NJ01CXST000001");
    assert_eq!(vin.calculate_checksum(), vin.calculate_checksum());
}

#[test]
fn checksum_ignores_check_digit_position() {
    let a = Vin::new("1M8GDM9AXKP042788");
    let b = Vin::new("1M8GDM9A0KP042788");
    assert_eq!(a.calculate_checksum(), b.calculate_checksum());
}

#[test]
fn checksum_keeps_same_weight_substitution() {
    let a = Vin::new("1M8GDM9AXKP042788");
    let b = Vin::new("AM8GDM9AXKP042788");
    assert_eq!(a.calculate_checksum(), b.calculate_checksum());
}

#[test]
fn checksum_changes_on_other_substitution() {
    let a = Vin::new("1M8GDM9AXKP042788");
    let b = Vin::new("2M8GDM9AXKP042788");
    assert_eq!(b.calculate_checksum(), a.calculate_checksum() + 8);
}

#[test]
fn sections_rejoin_to_the_vin() {
    for raw in ["1M8GDM9AXKP042788", "5N1NJ01CXST000001", "WBA00000000000000"] {
        let vin = Vin::new(raw);
        let joined = format!("{}{}{}", vin.wmi(), vin.vds(), vin.vic());
        assert_eq!(joined, raw);
    }
}

#[test]
fn regions_of_first_characters() {
    let expected = [
        ("ABCDEFGH", Region::Africa),
        ("JKLMNPR", Region::Asia),
        ("STUVWXYZ", Region::Europe),
        ("12345", Region::NorthAmerica),
        ("67", Region::Oceania),
        ("89", Region::SouthAmerica),
    ];
    for (chars, region) in expected {
        for b in chars.bytes() {
            assert_eq!(Region::from_wmi_region(b), Some(region));
        }
    }
}

#[test]
fn characters_without_region() {
    for b in "0IOQa-".bytes() {
        assert_eq!(Region::from_wmi_region(b), None);
    }
    assert_eq!(Vin::new("0M8GDM9AXKP042788").manufacturer_region(), None);
}

#[test]
fn region_names() {
    assert_eq!(Region::Africa.as_str(), "Africa");
    assert_eq!(Region::Asia.as_str(), "Asia");
    assert_eq!(Region::Europe.as_str(), "Europe");
    assert_eq!(Region::NorthAmerica.as_str(), "North America");
    assert_eq!(Region::Oceania.as_str(), "Oceania");
    assert_eq!(Region::SouthAmerica.as_str(), "South America");
}

#[test]
fn european_vin_decoding() {
    let vin = Vin::new("WBA00000000000000");
    assert_eq!(vin.manufacturer_region(), Some(Region::Europe));
    assert_eq!(vin.manufacturer_country(), "Germany");
    assert_eq!(vin.manufacturer_name(), "BMW");
}

#[test]
fn two_character_manufacturer_prefix() {
    let vin = Vin::new("JTDKB20U000000000");
    assert_eq!(vin.manufacturer_name(), "Toyota");
    assert_eq!(vin.manufacturer_country(), "Japan");
    assert_eq!(vin.manufacturer_region(), Some(Region::Asia));
}

#[test]
fn unknown_manufacturer_and_country() {
    let vin = Vin::new("8ZZ00000000000000");
    assert_eq!(vin.manufacturer_name(), "Unknown");
    assert_eq!(vin.manufacturer_country(), "Unknown");
    assert_eq!(vin.manufacturer_region(), Some(Region::SouthAmerica));
}
