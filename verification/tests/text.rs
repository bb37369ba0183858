use fennec::cli::{FoxCloudApiArgs, FoxCloudConnectionArgs};
use fennec::fox_cloud::{build_signature, CloudError, Response};
use fennec::foxess::WorkingMode;
use fennec::frank_energie::Resolution;
use fennec::text::{decimal, hex, two_digits};

#[test]
fn decimal_text() {
    assert_eq!(decimal(0), "0");
    assert_eq!(decimal(1_763_414_100_000), "1763414100000");
    assert_eq!(decimal(-42), "-42");
    assert_eq!(decimal(i64::MIN), i64::MIN.to_string());
    assert_eq!(two_digits(5), "05");
    assert_eq!(two_digits(123), "123");
}

#[test]
fn hex_text() {
    assert_eq!(hex(&[0x00, 0x0f, 0xa5, 0xff]), "000fa5ff");
    assert_eq!(hex(&[]), "");
}

#[test]
fn signature_is_md5_of_the_signed_text() {
    let (timestamp, signature) = build_signature("key", "op/v0/device/list", 1_700_000_000_123);
    assert_eq!(timestamp, "1700000000123");
    let expected = format!(
        "{:x}",
        md5::compute(r"/op/v0/device/list\r\nkey\r\n1700000000123".as_bytes())
    );
    assert_eq!(signature, expected);
    assert_eq!(signature.len(), 32);
}

#[test]
fn cloud_responses() {
    let ok = Response { error_code: 0, message: None, result: 5 };
    assert_eq!(ok.into_result(), Ok(5));
    let failed = Response { error_code: 40257, message: Some("illegal".to_string()), result: 0 };
    let error = failed.into_result().unwrap_err();
    assert_eq!(error, CloudError { error_code: 40257, message: Some("illegal".to_string()) });
    assert_eq!(error.describe(), r#"FoxESS Cloud error 40257 ("illegal")"#);
    let bare = CloudError { error_code: -1, message: None };
    assert_eq!(bare.describe(), "FoxESS Cloud error -1");
}

#[test]
fn mode_names() {
    assert_eq!(WorkingMode::LoadPriority.title(), "Load priority");
    assert_eq!(WorkingMode::LoadPriority.api_name(), "Feedin");
    assert_eq!(WorkingMode::BatteryPriority.api_name(), "Backup");
    assert_eq!(Resolution::Quarterly.api_name(), "PT15M");
    assert_eq!(Resolution::Hourly.api_name(), "PT60M");
}

#[test]
fn cloud_client_signs_with_its_key() {
    let api = FoxCloudApiArgs { api_key: "key".to_string(), serial_number: "SN1".to_string() };
    let scouting = FoxCloudConnectionArgs { api: api.clone(), scout: true };
    assert_eq!(scouting.client(), None);
    let connection = FoxCloudConnectionArgs { api, scout: false };
    let client = connection.client().unwrap();
    assert_eq!(client.api_key, "key");
    assert_eq!(client.serial_number, "SN1");
    let (timestamp, signature) = client.build_signature("op/v0/device/list");
    let expected = format!(
        "{:x}",
        md5::compute(format!(r"/op/v0/device/list\r\nkey\r\n{timestamp}").as_bytes())
    );
    assert_eq!(signature, expected);
}
