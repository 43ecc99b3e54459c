use std::cmp::Ordering;

use ixa_fips::aspr::SettingCategory;
use ixa_fips::fips_code::ExpandedFIPSCode;
use ixa_fips::fips_code::FIPSCode;
use ixa_fips::states::USState;

#[test]
fn fields_round_trip() {
    let fips_code = FIPSCode::new(USState::TX, 123, 990101, SettingCategory::Home, 14938, 0x3ff);
    assert_eq!(fips_code.state(), USState::TX);
    assert_eq!(fips_code.county_code(), 123);
    assert_eq!(fips_code.census_tract_code(), 990101);
    assert_eq!(fips_code.category(), SettingCategory::Home);
    assert_eq!(fips_code.id(), 14938);
    assert_eq!(fips_code.data(), 0x3ff);
}

#[test]
fn nonstate_round_trip() {
    let fips_code = FIPSCode::with_state(USState::VirginIslandsOfTheUS);
    assert_eq!(fips_code.state(), USState::VirginIslandsOfTheUS);
    assert_eq!(fips_code.state_code(), 52);

    let fips_code = FIPSCode::with_state(USState::HawaiianCoast);
    assert_eq!(fips_code.state(), USState::HawaiianCoast);
    assert_eq!(fips_code.state_code(), 59);
}

#[test]
fn expanded_round_trip() {
    let fips_code = FIPSCode::new(USState::TX, 123, 990101, SettingCategory::Home, 14938, 0x01ff);
    let expanded = ExpandedFIPSCode::from_fips_code(fips_code);
    assert_eq!(expanded.to_fips_code(), fips_code);
}

#[test]
fn test_compare_non_data() {
    let fips_code_a = FIPSCode::new(USState::TX, 123, 990101, SettingCategory::Home, 14938, 0x01ff);
    let fips_code_b = FIPSCode::new(USState::TX, 123, 990101, SettingCategory::Home, 14938, 0x00ff);

    assert_eq!(fips_code_a.compare_non_data(fips_code_b), Ordering::Equal);
    assert_eq!(fips_code_a.cmp(&fips_code_b), Ordering::Greater);
}

#[test]
fn pack_expand_round_trip_all_fields() {
    let expanded = ExpandedFIPSCode {
        state: USState::AK,
        county: 1023,
        tract: 1048575,
        category: SettingCategory::CensusTract,
        id: 16383,
        data: 1023,
    };
    let packed = expanded.to_fips_code();
    assert_eq!(ExpandedFIPSCode::from_fips_code(packed), expanded);

    let zeros = ExpandedFIPSCode {
        state: USState::AL,
        county: 0,
        tract: 0,
        category: SettingCategory::Unspecified,
        id: 0,
        data: 0,
    };
    let packed = zeros.to_fips_code();
    assert_eq!(ExpandedFIPSCode::from_fips_code(packed), zeros);
}

#[test]
fn compare_non_data_orders_by_hierarchy() {
    // A larger state dominates a larger county, which dominates a larger
    // tract, and so on down the field order.
    let a = FIPSCode::new(USState::DC, 999, 999999, SettingCategory::CensusTract, 16383, 1023);
    let b = FIPSCode::new(USState::MD, 1, 0, SettingCategory::Unspecified, 0, 0);
    assert_eq!(a.compare_non_data(b), Ordering::Less);
    assert_eq!(b.compare_non_data(a), Ordering::Greater);

    let c = FIPSCode::new(USState::DC, 1, 999999, SettingCategory::Home, 0, 0);
    let d = FIPSCode::new(USState::DC, 2, 0, SettingCategory::Home, 0, 0);
    assert_eq!(c.compare_non_data(d), Ordering::Less);

    let e = FIPSCode::new(USState::DC, 1, 5, SettingCategory::Home, 7, 0);
    let f = FIPSCode::new(USState::DC, 1, 5, SettingCategory::Home, 8, 0);
    assert_eq!(e.compare_non_data(f), Ordering::Less);
    assert_eq!(e.compare_non_data(e), Ordering::Equal);
}

#[test]
fn set_data_replaces_only_the_data_region() {
    let mut fips_code = FIPSCode::new(USState::WY, 56, 123456, SettingCategory::Workplace, 99, 7);
    fips_code.set_data(1023);
    assert_eq!(fips_code.state(), USState::WY);
    assert_eq!(fips_code.county_code(), 56);
    assert_eq!(fips_code.census_tract_code(), 123456);
    assert_eq!(fips_code.category(), SettingCategory::Workplace);
    assert_eq!(fips_code.id(), 99);
    assert_eq!(fips_code.data(), 1023);

    fips_code.set_data(0);
    assert_eq!(fips_code.data(), 0);
    assert_eq!(fips_code.id(), 99);
}

#[test]
fn partial_constructors_zero_the_lower_fields() {
    let state_only = FIPSCode::with_state(USState::CA);
    assert_eq!(state_only.state(), USState::CA);
    assert_eq!(state_only.county_code(), 0);
    assert_eq!(state_only.census_tract_code(), 0);
    assert_eq!(state_only.category(), SettingCategory::Unspecified);
    assert_eq!(state_only.id(), 0);
    assert_eq!(state_only.data(), 0);

    let county = FIPSCode::with_county(USState::CA, 37);
    assert_eq!(county.county_code(), 37);
    assert_eq!(county.census_tract_code(), 0);

    let tract = FIPSCode::with_tract(USState::CA, 37, 206300);
    assert_eq!(tract.county_code(), 37);
    assert_eq!(tract.census_tract_code(), 206300);
    assert_eq!(tract.id(), 0);

    let school = FIPSCode::with_category(USState::CA, 37, 206300, SettingCategory::PublicSchool);
    assert_eq!(school.category(), SettingCategory::PublicSchool);
    assert_eq!(school.census_tract_code(), 206300);
    assert_eq!(school.id(), 0);
}

#[test]
fn codes_differing_only_in_data_stay_distinct() {
    let a = FIPSCode::new(USState::TX, 201, 223100, SettingCategory::Home, 12345, 0);
    let mut b = a;
    b.set_data(1);
    assert_eq!(a.compare_non_data(b), Ordering::Equal);
    assert_ne!(a, b);
    assert_eq!(a.cmp(&b), Ordering::Less);
}

#[test]
fn category_tags_round_trip() {
    let categories = [
        SettingCategory::Unspecified,
        SettingCategory::Home,
        SettingCategory::Workplace,
        SettingCategory::PublicSchool,
        SettingCategory::PrivateSchool,
        SettingCategory::CensusTract,
    ];
    for (tag, category) in categories.iter().enumerate() {
        assert_eq!(category.encode(), tag as u8);
        assert_eq!(SettingCategory::decode(tag as u8), Some(*category));
    }
    assert_eq!(SettingCategory::decode(6), None);
    assert_eq!(SettingCategory::decode(255), None);
    assert_eq!(SettingCategory::default(), SettingCategory::Unspecified);
}

#[test]
fn state_codes_round_trip() {
    assert_eq!(USState::TX.encode(), 48);
    assert_eq!(USState::AK.encode(), 2);
    assert_eq!(USState::DC.encode(), 11);
    assert_eq!(USState::MD.encode(), 24);
    assert_eq!(USState::decode(48), Some(USState::TX));
    assert_eq!(USState::decode(52), Some(USState::VirginIslandsOfTheUS));
    assert_eq!(USState::decode(59), Some(USState::HawaiianCoast));
    assert_eq!(USState::decode(0), None);
    assert_eq!(USState::decode(57), None);
    assert_eq!(USState::decode(60), None);
    assert_eq!(USState::decode(63), None);
    assert_eq!(USState::decode(255), None);
    assert!(USState::valid_code(1));
    assert!(USState::valid_code(56));
    assert!(!USState::valid_code(0));
    assert!(!USState::valid_code(99));
}

#[test]
fn minimal_code_keeps_its_state() {
    // The smallest recognized state code with every other field zero still
    // round-trips: the state bits sit at the top of the word.
    let minimal = FIPSCode::with_state(USState::AL);
    let explicit = FIPSCode::new(USState::AL, 0, 0, SettingCategory::Unspecified, 0, 0);
    assert_eq!(minimal, explicit);
    assert_eq!(minimal.state_code(), 1);
    // Two distinct states give distinct packed values.
    assert_ne!(FIPSCode::with_state(USState::AK), minimal);
}
