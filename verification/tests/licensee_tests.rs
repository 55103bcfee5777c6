use cartridge_header::licensee::{
    licensee_name, new_licensee_name, old_licensee_name, LicenseeCode,
};

#[test]
fn old_table_known_codes() {
    assert_eq!(old_licensee_name(0x00).as_str(), "None");
    assert_eq!(old_licensee_name(0x01).as_str(), "Nintendo");
    assert_eq!(old_licensee_name(0x08).as_str(), "Capcom");
    assert_eq!(old_licensee_name(0x33).as_str(), "New licensee code should be used");
    assert_eq!(old_licensee_name(0xB4).as_str(), "Square Enix");
    assert_eq!(old_licensee_name(0xFF).as_str(), "LJN");
}

#[test]
fn old_table_missing_codes() {
    assert_eq!(old_licensee_name(0x02).as_str(), "Unknown");
    assert_eq!(old_licensee_name(0xFE).as_str(), "Unknown");
}

#[test]
fn new_table_known_codes() {
    assert_eq!(new_licensee_name(b'0', b'0').as_str(), "None");
    assert_eq!(
        new_licensee_name(b'0', b'1').as_str(),
        "Nintendo Research & Development 1"
    );
    assert_eq!(new_licensee_name(b'9', b'H').as_str(), "Bottom Up");
    assert_eq!(new_licensee_name(b'B', b'L').as_str(), "MTO");
    assert_eq!(new_licensee_name(b'D', b'K').as_str(), "Kodansha");
}

#[test]
fn new_table_missing_codes() {
    assert_eq!(new_licensee_name(b'Z', b'Z').as_str(), "Unknown");
    assert_eq!(new_licensee_name(b'1', b'0').as_str(), "Unknown");
    assert_eq!(new_licensee_name(0xC3, 0xA9).as_str(), "Unknown");
}

#[test]
fn resolution_goes_through_the_selected_table() {
    assert_eq!(
        licensee_name(LicenseeCode::Old(0x34)).as_str(),
        "Konami"
    );
    assert_eq!(
        licensee_name(LicenseeCode::New(b'3', b'4')).as_str(),
        "Konami"
    );
}
