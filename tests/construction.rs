use vin_info::{Vin, VinError};

#[test]
fn length_sixteen_is_rejected() {
    assert_eq!(Vin::try_new("1M8GDM9AXKP04278"), Err(VinError::InvalidLen));
}

#[test]
fn length_eighteen_is_rejected() {
    assert_eq!(Vin::try_new("1M8GDM9AXKP0427888"), Err(VinError::InvalidLen));
}

#[test]
fn empty_string_is_rejected() {
    assert_eq!(Vin::try_new(""), Err(VinError::InvalidLen));
}

#[test]
fn length_is_counted_in_bytes() {
    // seventeen characters, eighteen bytes
    assert_eq!(Vin::try_new("1M8GDM9AXKP04278é"), Err(VinError::InvalidLen));
}

#[test]
fn letter_i_is_rejected() {
    // the ninth character, at 0-based index 8
    assert_eq!(Vin::try_new("1M8GDM9AIKP042788"), Err(VinError::InvalidChar(8, 'I')));
}

#[test]
fn letters_o_and_q_are_rejected() {
    assert_eq!(Vin::try_new("OM8GDM9AXKP042788"), Err(VinError::InvalidChar(0, 'O')));
    assert_eq!(Vin::try_new("1M8GDM9AXKP04278Q"), Err(VinError::InvalidChar(16, 'Q')));
}

#[test]
fn lower_case_is_rejected() {
    assert_eq!(Vin::try_new("1m8GDM9AXKP042788"), Err(VinError::InvalidChar(1, 'm')));
}

#[test]
fn first_offending_index_wins() {
    assert_eq!(Vin::try_new("1M8G-M9AIKP04278q"), Err(VinError::InvalidChar(4, '-')));
}

#[test]
fn non_ascii_byte_is_reported_as_its_value() {
    // fifteen ASCII characters and a two-byte one make seventeen bytes
    assert_eq!(Vin::try_new("1M8GDM9AXKP0427é"), Err(VinError::InvalidChar(15, '\u{c3}')));
}

#[test]
fn valid_vin_is_accepted() {
    let vin = Vin::try_new("1M8GDM9AXKP042788").unwrap();
    assert_eq!(vin.as_str(), "1M8GDM9AXKP042788");
}

#[test]
fn error_messages() {
    assert_eq!(VinError::InvalidLen.message(), "VIN MUST be 17 characters long");
    assert_eq!(
        VinError::InvalidChar(9, 'I').message(),
        "VIN contains invalid character 'I' at idx=9"
    );
    assert_eq!(
        VinError::InvalidChar(16, 'q').message(),
        "VIN contains invalid character 'q' at idx=16"
    );
    assert_eq!(
        VinError::InvalidChar(120, 'é').message(),
        "VIN contains invalid character 'é' at idx=120"
    );
}
