use wtfm::licenses::{License, LicenseCategory};

#[test]
fn test_license_creation() {
    let license = License::new(
        "MIT",
        "MIT License",
        LicenseCategory::Permissive,
        true,
        true,
        false,
    );
    assert_eq!(license.spdx_id, "MIT");
    assert_eq!(license.name, "MIT License");
    assert_eq!(license.category, LicenseCategory::Permissive);
    assert!(license.osi_approved);
    assert!(license.fsf_libre);
    assert!(!license.deprecated);
    assert_eq!(license.url, None);
}

#[test]
fn test_filter_methods() {
    let licenses = License::get_licenses();
    assert!(!licenses.is_empty());

    let active = License::get_active_licenses();
    assert!(active.iter().all(|l| !l.deprecated));

    let osi = License::get_osi_approved();
    assert!(osi.iter().all(|l| l.osi_approved && !l.deprecated));

    let fsf = License::get_fsf_libre();
    assert!(fsf.iter().all(|l| l.fsf_libre && !l.deprecated));
}

#[test]
fn catalog_lists_three_licenses_in_order() {
    let licenses = License::get_licenses();
    let ids: Vec<&str> = licenses.iter().map(|l| l.spdx_id.as_str()).collect();
    assert_eq!(ids, vec!["MIT", "Apache-2.0", "GPL-3.0-only"]);
    assert_eq!(licenses[2].category, LicenseCategory::Copyleft);
    assert_eq!(License::get_active_licenses().len(), 3);
    assert_eq!(licenses[1].display_name(), "Apache License 2.0");
}

#[test]
fn selection_drops_deprecated_and_unapproved() {
    let list = vec![
        License::new("A", "A", LicenseCategory::Permissive, true, false, false),
        License::new("B", "B", LicenseCategory::Copyleft, true, true, true),
        License::new("C", "C", LicenseCategory::Creative, false, true, false),
    ];
    let osi = License::select(list.clone(), wtfm::licenses::LicenseFilter::OsiApproved);
    assert_eq!(osi.len(), 1);
    assert_eq!(osi[0].spdx_id, "A");
    let fsf = License::select(list.clone(), wtfm::licenses::LicenseFilter::FsfLibre);
    assert_eq!(fsf.len(), 1);
    assert_eq!(fsf[0].spdx_id, "C");
    let active = License::select(list, wtfm::licenses::LicenseFilter::Active);
    assert_eq!(active.len(), 2);
}
