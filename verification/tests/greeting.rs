use tcp_proxy::greeting::{app_version, check_greeting, validate_protocol};

#[test]
fn test_app_version() {
    let data = [0, 0, 0, 0, 4, 1, 2, 0xA, 1];
    let data_2 = [0, 0, 0, 0, 4, 0, 0, 0, 1];

    assert_eq!("v1.2.2561", app_version(&data));
    assert_eq!("v0.0.1", app_version(&data_2));
}

#[test]
fn test_validate_protocol() {
    let data = [0, 0, 0, 0, 4, 1, 2, 1, 2];
    let invalid_data = [0, 0, 0, 0, 0];

    assert_eq!(Ok(()), validate_protocol(&data));
    assert_eq!(
        Err("Invalid protocol version"),
        validate_protocol(&invalid_data)
    );
}

#[test]
fn validate_ignores_other_fields() {
    // only the offset-4 byte decides: any other field values are accepted
    assert_eq!(Ok(()), validate_protocol(&[0xFF, 0xFF, 0xFF, 0xFF, 4, 0xFF, 0xFF, 0xFF, 0xFF]));
    assert_eq!(Ok(()), validate_protocol(&[0x17, 0x03, 0x03, 0, 4]));

    // every other offset-4 value is rejected
    for v in 0u8..=255 {
        let buf = [0, 0, 0, 0, v, 1, 2, 3, 4];
        if v == 4 {
            assert_eq!(Ok(()), validate_protocol(&buf));
        } else {
            assert_eq!(Err("Invalid protocol version"), validate_protocol(&buf));
        }
    }
}

#[test]
fn app_version_extremes() {
    assert_eq!("v255.255.65535", app_version(&[0, 0, 0, 0, 4, 255, 255, 255, 255]));
    assert_eq!("v0.0.0", app_version(&[0, 0, 0, 0, 4, 0, 0, 0, 0]));
    assert_eq!("v10.200.256", app_version(&[0, 0, 0, 0, 4, 10, 200, 1, 0]));
}

#[test]
fn check_greeting_reports_version_or_rejects() {
    let valid = [0x17, 0x03, 0x03, 0, 4, 1, 2, 0xA, 1];
    assert_eq!(Ok("v1.2.2561".to_string()), check_greeting(&valid));

    let invalid = [0x17, 0x03, 0x03, 0, 5, 1, 2, 0xA, 1];
    assert_eq!(Err("Invalid greeting packet"), check_greeting(&invalid));
}
