use aem_env_manager::license::{
    add_aem_license, add_aem_license_at, associate_license_with_instance_at,
    calculate_license_status, calculate_license_status_at, days_until, default_license_locations,
    delete_aem_license, expiry_instant, get_license_statistics, get_licenses_for_instance,
    imported_license, is_license_file, parse_license_content, parse_license_file,
    scanned_license_file, skips_directory, update_aem_license_at, update_license_status,
    update_license_status_at, validation_result, AemLicense, LicenseStatus,
};
use aem_env_manager::platform::TargetOs;

fn license(id: &str, expiry: Option<&str>) -> AemLicense {
    AemLicense {
        id: id.to_string(),
        name: "Test License".to_string(),
        license_key: None,
        license_file_path: None,
        product_name: "AEM".to_string(),
        product_version: None,
        customer_name: None,
        expiry_date: expiry.map(|e| e.to_string()),
        status: LicenseStatus::Unknown,
        associated_instance_id: None,
        notes: None,
        created_at: String::new(),
        updated_at: String::new(),
    }
}

// 2024-01-01T00:00:00Z
const NOW: (i64, u32) = (1704067200, 0);

#[test]
fn test_license_status_calculation() {
    let mut license = AemLicense {
        id: "test".to_string(),
        name: "Test License".to_string(),
        license_key: None,
        license_file_path: None,
        product_name: "AEM".to_string(),
        product_version: None,
        customer_name: None,
        expiry_date: Some("2099-12-31".to_string()),
        status: LicenseStatus::Unknown,
        associated_instance_id: None,
        notes: None,
        created_at: String::new(),
        updated_at: String::new(),
    };

    let (status, days) = calculate_license_status(&license, false);
    assert_eq!(status, LicenseStatus::Valid);
    assert!(days.unwrap() > 0);

    // Test expired license
    license.expiry_date = Some("2020-01-01".to_string());
    let (status, days) = calculate_license_status(&license, false);
    assert_eq!(status, LicenseStatus::Expired);
    assert!(days.unwrap() < 0);
}

#[test]
fn expiry_is_read_as_time_or_as_date() {
    assert_eq!(expiry_instant("2024-01-01T00:00:00Z"), Some((1704067200, 0)));
    assert_eq!(expiry_instant("2024-01-01T01:00:00.5+01:00"), Some((1704067200, 500000000)));
    assert_eq!(expiry_instant("2024-01-01"), Some((1704067200 + 86399, 0)));
    assert_eq!(expiry_instant("1970-01-01"), Some((86399, 0)));
    assert_eq!(expiry_instant("1969-12-31"), Some((-1, 0)));
    assert_eq!(expiry_instant("01/01/2024"), None);
    assert_eq!(expiry_instant("2024-02-30"), None);
    assert_eq!(expiry_instant(""), None);
}

#[test]
fn days_are_counted_towards_zero() {
    assert_eq!(days_until((86400, 0), (0, 0)), 1);
    assert_eq!(days_until((86399, 999999999), (0, 0)), 0);
    assert_eq!(days_until((0, 0), (86399, 999999999)), 0);
    assert_eq!(days_until((0, 0), (86400, 0)), -1);
    assert_eq!(days_until((0, 0), (86400 * 3 + 5, 0)), -3);
    assert_eq!(days_until((86400 * 31, 1), (0, 2)), 30);
    assert_eq!(days_until((i64::MAX, 0), (i64::MIN, 0)), 213503982334601);
}

#[test]
fn status_follows_the_days_left() {
    let at = |expiry: &str| calculate_license_status_at(&license("l", Some(expiry)), false, NOW);
    assert_eq!(at("2024-01-31"), (LicenseStatus::Expiring, Some(30)));
    assert_eq!(at("2024-02-01"), (LicenseStatus::Valid, Some(31)));
    assert_eq!(at("2024-01-01"), (LicenseStatus::Expiring, Some(0)));
    assert_eq!(at("2023-12-31"), (LicenseStatus::Expiring, Some(0)));
    assert_eq!(at("2023-12-30"), (LicenseStatus::Expired, Some(-1)));
    assert_eq!(at("2023-12-31T00:00:00Z"), (LicenseStatus::Expired, Some(-1)));
    assert_eq!(at("soon"), (LicenseStatus::Invalid, None));
}

#[test]
fn status_without_expiry_goes_by_the_file() {
    let mut l = license("l", None);
    assert_eq!(calculate_license_status_at(&l, true, NOW), (LicenseStatus::Unknown, None));
    l.license_file_path = Some("/x/license.properties".to_string());
    assert_eq!(calculate_license_status_at(&l, true, NOW), (LicenseStatus::Valid, None));
    assert_eq!(calculate_license_status_at(&l, false, NOW), (LicenseStatus::Unknown, None));
    update_license_status_at(&mut l, true, NOW);
    assert_eq!(l.status, LicenseStatus::Valid);
    update_license_status(&mut l, false);
    assert_eq!(l.status, LicenseStatus::Unknown);
    assert_eq!(l.name, "Test License");
}

#[test]
fn validation_messages() {
    let v = validation_result(LicenseStatus::Valid, Some(100));
    assert!(v.is_valid);
    assert_eq!(v.message, Some("License is valid".to_string()));
    assert_eq!(v.days_until_expiry, Some(100));
    let v = validation_result(LicenseStatus::Expiring, Some(12));
    assert!(v.is_valid);
    assert_eq!(v.message, Some("License will expire in 12 days".to_string()));
    let v = validation_result(LicenseStatus::Expiring, None);
    assert_eq!(v.message, Some("License will expire in 0 days".to_string()));
    let v = validation_result(LicenseStatus::Expiring, Some(-3));
    assert_eq!(v.message, Some("License will expire in -3 days".to_string()));
    let v = validation_result(LicenseStatus::Expired, Some(-3));
    assert!(!v.is_valid);
    assert_eq!(v.status, LicenseStatus::Expired);
    assert_eq!(v.message, Some("License has expired".to_string()));
    assert_eq!(validation_result(LicenseStatus::Invalid, None).message, Some("License is invalid".to_string()));
    assert_eq!(validation_result(LicenseStatus::Unknown, None).message, Some("License status unknown".to_string()));
}

#[test]
fn statistics_count_by_status() {
    let stats = get_license_statistics(&vec![
        LicenseStatus::Valid,
        LicenseStatus::Invalid,
        LicenseStatus::Expired,
        LicenseStatus::Valid,
        LicenseStatus::Unknown,
        LicenseStatus::Expiring,
    ]);
    assert_eq!(stats.total, 6);
    assert_eq!(stats.valid, 2);
    assert_eq!(stats.expiring, 1);
    assert_eq!(stats.expired, 1);
    assert_eq!(stats.unknown, 2);
    let none = get_license_statistics(&vec![]);
    assert_eq!((none.total, none.valid, none.unknown), (0, 0, 0));
}

#[test]
fn licenses_are_added_updated_and_deleted() {
    let mut all: Vec<AemLicense> = Vec::new();
    let added = add_aem_license_at(&mut all, license("", Some("2024-03-01")), "fresh".to_string(), "t0".to_string(), false, NOW).unwrap();
    assert_eq!(added.id, "fresh");
    assert_eq!(added.created_at, "t0");
    assert_eq!(added.updated_at, "t0");
    assert_eq!(added.status, LicenseStatus::Valid);
    assert_eq!(all.len(), 1);
    let kept = add_aem_license_at(&mut all, license("own", None), "unused".to_string(), "t1".to_string(), false, NOW).unwrap();
    assert_eq!(kept.id, "own");
    assert_eq!(kept.status, LicenseStatus::Unknown);
    let error = add_aem_license_at(&mut all, license("own", None), "x".to_string(), "t2".to_string(), false, NOW).unwrap_err();
    assert_eq!(error, "License with ID own already exists");
    assert_eq!(all.len(), 2);
    let random = add_aem_license(&mut all, license("", None), false).unwrap();
    assert_eq!(random.id.len(), 36);
    assert_eq!(random.created_at, random.updated_at);
    assert_eq!(all.len(), 3);

    let mut changed = license("ignored", Some("2020-01-01"));
    changed.name = "Renamed".to_string();
    let updated = update_aem_license_at(&mut all, "fresh", changed, "t3".to_string(), false, NOW).unwrap();
    assert_eq!(updated.id, "fresh");
    assert_eq!(updated.created_at, "t0");
    assert_eq!(updated.updated_at, "t3");
    assert_eq!(updated.status, LicenseStatus::Expired);
    assert_eq!(all[0].name, "Renamed");
    assert_eq!(
        update_aem_license_at(&mut all, "nope", license("", None), "t".to_string(), false, NOW).unwrap_err(),
        "License nope not found"
    );

    assert_eq!(delete_aem_license(&mut all, "own"), Ok(true));
    assert_eq!(all.len(), 2);
    assert_eq!(all[0].id, "fresh");
    assert_eq!(delete_aem_license(&mut all, "own"), Err("License own not found".to_string()));
}

#[test]
fn licenses_are_tied_to_instances() {
    let mut all = vec![license("a", None), license("b", None), license("c", None)];
    let tied = associate_license_with_instance_at(&mut all, "b", "i-1", true, "t".to_string()).unwrap();
    assert_eq!(tied.associated_instance_id, Some("i-1".to_string()));
    assert_eq!(tied.updated_at, "t");
    associate_license_with_instance_at(&mut all, "a", "i-2", true, "t".to_string()).unwrap();
    associate_license_with_instance_at(&mut all, "c", "i-1", true, "t".to_string()).unwrap();
    assert_eq!(
        associate_license_with_instance_at(&mut all, "zz", "i-1", true, "t".to_string()).unwrap_err(),
        "License zz not found"
    );
    assert_eq!(
        associate_license_with_instance_at(&mut all, "a", "i-9", false, "t".to_string()).unwrap_err(),
        "Instance i-9 not found"
    );
    assert_eq!(all[0].associated_instance_id, Some("i-2".to_string()));
    let for_one: Vec<String> = get_licenses_for_instance(&all, "i-1").into_iter().map(|l| l.id).collect();
    assert_eq!(for_one, vec!["b", "c"]);
    assert!(get_licenses_for_instance(&all, "i-3").is_empty());
}

#[test]
fn license_file_is_read() {
    let content = "# AEM license\n! another comment\n\nlicense.product.name = Adobe Experience Manager\nlicense.customer.name: ACME Corp\nlicense.product.version.major=6\nlicense.downloadID = abc-123 \nnot a property\nlicense.2=BBBB\nlicense.10 = DDDD\nlicense.1=AAAA\nlicense.03=CCCC\nkey:with=both\n";
    let parsed = parse_license_file(content);
    assert_eq!(parsed.product_name, Some("Adobe Experience Manager".to_string()));
    assert_eq!(parsed.customer_name, Some("ACME Corp".to_string()));
    assert_eq!(parsed.product_version, Some("6".to_string()));
    assert_eq!(parsed.download_id, Some("abc-123".to_string()));
    assert_eq!(parsed.license_key, Some("AAAA-BBBB-CCCC-DDDD".to_string()));
    assert_eq!(parsed.expiry_date, None);
    assert_eq!(parsed.raw_properties.len(), 9);
    assert_eq!(parsed.raw_properties[0], ("license.product.name".to_string(), "Adobe Experience Manager".to_string()));
    assert_eq!(parsed.raw_properties[8], ("key:with".to_string(), "both".to_string()));
    assert_eq!(
        parse_license_content(content),
        (
            Some("Adobe Experience Manager".to_string()),
            Some("ACME Corp".to_string()),
            Some("abc-123".to_string())
        )
    );
}

#[test]
fn license_key_and_fallback_properties() {
    let parsed = parse_license_file("license.key=K1\nlicense=K2\nproduct.name=P\nproduct.version=5\nexpiry.date=2030-01-01\ndownloadID=d\ncustomer.name=C\n");
    assert_eq!(parsed.license_key, Some("K1".to_string()));
    assert_eq!(parsed.product_name, Some("P".to_string()));
    assert_eq!(parsed.product_version, Some("5".to_string()));
    assert_eq!(parsed.expiry_date, Some("2030-01-01".to_string()));
    assert_eq!(parsed.download_id, Some("d".to_string()));
    assert_eq!(parsed.customer_name, Some("C".to_string()));
    assert_eq!(parse_license_file("license=K2").license_key, Some("K2".to_string()));
    assert_eq!(parse_license_file("").license_key, None);
    // Of two properties with one key the later counts; parts of one number keep their order.
    assert_eq!(parse_license_file("product.name=a\nproduct.name=b").product_name, Some("b".to_string()));
    assert_eq!(parse_license_file("license.1=x\nlicense.=y\nlicense.1=z\nlicense.99999999999=w").license_key, Some("y-w-x-z".to_string()));
    assert_eq!(parse_license_file("license.1a=x").license_key, None);
}

#[test]
fn license_files_by_name() {
    assert!(is_license_file("license.properties"));
    assert!(is_license_file("License.Properties"));
    assert!(is_license_file("license-dev.properties"));
    assert!(!is_license_file("aem-license.properties"));
    assert!(!is_license_file("license.txt"));
    assert!(skips_directory(".git"));
    assert!(skips_directory("Node_Modules"));
    assert!(skips_directory("target"));
    assert!(skips_directory("BUILD"));
    assert!(!skips_directory("src"));
}

#[test]
fn imported_license_is_built_from_the_file() {
    let parsed = parse_license_file("license.downloadID=d-1\nlicense.1=A\nlicense.customer.name=C");
    let l = imported_license(parsed, "/x/license.properties".to_string(), "i-1".to_string(), "Author");
    assert_eq!(l.id, "");
    assert_eq!(l.name, "Author License");
    assert_eq!(l.license_key, Some("A".to_string()));
    assert_eq!(l.license_file_path, Some("/x/license.properties".to_string()));
    assert_eq!(l.product_name, "AEM");
    assert_eq!(l.customer_name, Some("C".to_string()));
    assert_eq!(l.status, LicenseStatus::Unknown);
    assert_eq!(l.associated_instance_id, Some("i-1".to_string()));
    assert_eq!(l.notes, Some("Download ID: d-1".to_string()));
    let parsed = parse_license_file("license.product.name=X");
    let l = imported_license(parsed, "/p".to_string(), "i".to_string(), "n");
    assert_eq!(l.product_name, "X");
    assert_eq!(l.notes, None);
}

#[test]
fn license_locations_and_found_files() {
    let home = Some("/home/u".to_string());
    let linux = default_license_locations(TargetOs::Linux, &home);
    assert_eq!(linux.len(), 9);
    assert_eq!(linux[0], "/home/u/aem");
    assert_eq!(linux[5], "/home/u/Development/AEM");
    assert_eq!(linux[8], "/opt/Adobe");
    assert_eq!(default_license_locations(TargetOs::MacOS, &None), vec!["/opt/aem", "/opt/Adobe", "/Applications/Adobe"]);
    assert_eq!(default_license_locations(TargetOs::Windows, &None)[2], "C:\\Program Files\\Adobe");
    let found = scanned_license_file(
        "/a/license.properties".to_string(),
        "license.properties".to_string(),
        &Some("product.name=P\ndownloadID=7".to_string()),
        "a".to_string(),
    );
    assert_eq!(found.product_name, Some("P".to_string()));
    assert_eq!(found.customer_name, None);
    assert_eq!(found.download_id, Some("7".to_string()));
    assert_eq!(found.parent_directory, "a");
    let unread = scanned_license_file("/p".to_string(), "n".to_string(), &None, "d".to_string());
    assert_eq!(unread.product_name, None);
}
