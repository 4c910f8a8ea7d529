use eventstore_core::package::{Credentials, Package, PackageError, MAX_PACKAGE_SIZE};

fn roundtrip(pkg: &Package) -> Package {
    let bytes = pkg.serialize().expect("serialize");
    Package::parse(&bytes).expect("parse")
}

#[test]
fn round_trip_plain_package() {
    let pkg = Package::with_payload(0x82, 7, None, vec![1, 2, 3, 4]);
    let back = roundtrip(&pkg);
    assert_eq!(back.cmd, 0x82);
    assert_eq!(back.correlation, 7);
    assert!(back.creds_opt.is_none());
    assert_eq!(back.payload, vec![1, 2, 3, 4]);
}

#[test]
fn round_trip_authenticated_package() {
    let creds = Credentials::new(b"login".to_vec(), b"s3cr3t".to_vec());
    let pkg = Package::with_payload(0xB0, 0xDEADBEEF_CAFEBABE_0123456789ABCDEF, Some(creds), vec![9, 8, 7]);
    let back = roundtrip(&pkg);
    assert_eq!(back.cmd, 0xB0);
    assert_eq!(back.correlation, 0xDEADBEEF_CAFEBABE_0123456789ABCDEF);
    let c = back.creds_opt.expect("credentials");
    assert_eq!(c.login, b"login".to_vec());
    assert_eq!(c.password, b"s3cr3t".to_vec());
    assert_eq!(back.payload, vec![9, 8, 7]);
}

#[test]
fn round_trip_empty_payload_and_empty_credentials() {
    let creds = Credentials::new(Vec::new(), Vec::new());
    let pkg = Package::with_payload(0x01, 0, Some(creds), Vec::new());
    let back = roundtrip(&pkg);
    assert_eq!(back.correlation, 0);
    let c = back.creds_opt.expect("credentials");
    assert!(c.login.is_empty());
    assert!(c.password.is_empty());
    assert!(back.payload.is_empty());
}

#[test]
fn serialize_rejects_long_login() {
    let creds = Credentials::new(vec![0u8; 256], b"pw".to_vec());
    let pkg = Package::with_payload(0x82, 1, Some(creds), Vec::new());
    assert_eq!(pkg.serialize(), Err(PackageError::CredentialsTooLong));
}

#[test]
fn serialize_rejects_long_password() {
    let creds = Credentials::new(b"user".to_vec(), vec![0u8; 256]);
    let pkg = Package::with_payload(0x82, 1, Some(creds), Vec::new());
    assert_eq!(pkg.serialize(), Err(PackageError::CredentialsTooLong));
}

#[test]
fn serialize_accepts_255_byte_credentials() {
    let creds = Credentials::new(vec![7u8; 255], vec![8u8; 255]);
    let pkg = Package::with_payload(0x82, 1, Some(creds), Vec::new());
    let back = roundtrip(&pkg);
    let c = back.creds_opt.expect("credentials");
    assert_eq!(c.login.len(), 255);
    assert_eq!(c.password.len(), 255);
}

#[test]
fn wire_layout_is_exact() {
    // length prefix (LE), command, flags, 16-byte big-endian correlation id,
    // then the payload.
    let pkg = Package::with_payload(0x82, 0x0102, None, vec![0xAA, 0xBB]);
    let bytes = pkg.serialize().expect("serialize");
    let mut expected = vec![20u8, 0, 0, 0, 0x82, 0x00];
    expected.extend_from_slice(&[0u8; 14]);
    expected.extend_from_slice(&[0x01, 0x02]);
    expected.extend_from_slice(&[0xAA, 0xBB]);
    assert_eq!(bytes, expected);
}

#[test]
fn authenticated_wire_layout_is_exact() {
    let creds = Credentials::new(vec![0x11], vec![0x22, 0x33]);
    let pkg = Package::with_payload(0xC5, 1, Some(creds), vec![0x44]);
    let bytes = pkg.serialize().expect("serialize");
    // 18 header bytes + 2 + 1 + 2 credential bytes + 1 payload byte = 24.
    let mut expected = vec![24u8, 0, 0, 0, 0xC5, 0x01];
    expected.extend_from_slice(&[0u8; 15]);
    expected.extend_from_slice(&[0x01]); // correlation id = 1, big-endian
    expected.extend_from_slice(&[1, 0x11, 2, 0x22, 0x33]); // credentials
    expected.extend_from_slice(&[0x44]);
    assert_eq!(bytes, expected);
}

#[test]
fn parse_rejects_short_frame() {
    assert!(matches!(Package::parse(&vec![1, 0]), Err(PackageError::Malformed)));
    assert!(matches!(Package::parse(&Vec::new()), Err(PackageError::Malformed)));
}

#[test]
fn parse_rejects_wrong_length_prefix() {
    let pkg = Package::with_payload(0x82, 7, None, vec![1]);
    let mut bytes = pkg.serialize().expect("serialize");
    bytes[0] = bytes[0] + 1;
    assert!(matches!(Package::parse(&bytes), Err(PackageError::Malformed)));
}

#[test]
fn parse_rejects_truncated_contents() {
    // A consistent prefix but fewer than 18 content bytes.
    let bytes = vec![3u8, 0, 0, 0, 0x82, 0x00, 0x01];
    assert!(matches!(Package::parse(&bytes), Err(PackageError::Malformed)));
}

#[test]
fn parse_rejects_oversize_frame() {
    let over = (MAX_PACKAGE_SIZE as u32) + 1;
    let bytes = vec![
        (over & 0xFF) as u8,
        ((over >> 8) & 0xFF) as u8,
        ((over >> 16) & 0xFF) as u8,
        ((over >> 24) & 0xFF) as u8,
    ];
    assert!(matches!(Package::parse(&bytes), Err(PackageError::FrameTooLarge)));
}

#[test]
fn parse_rejects_undefined_flag_bits() {
    let pkg = Package::with_payload(0x82, 7, None, Vec::new());
    let mut bytes = pkg.serialize().expect("serialize");
    bytes[5] = 0x02;
    assert!(matches!(Package::parse(&bytes), Err(PackageError::Malformed)));
}

#[test]
fn parse_rejects_truncated_credentials() {
    // flags bit 0 set, but the login length runs past the frame.
    let mut contents = vec![0x82u8, 0x01];
    contents.extend_from_slice(&[0u8; 16]);
    contents.push(200); // login length, but no login bytes follow
    let mut bytes = vec![contents.len() as u8, 0, 0, 0];
    bytes.extend_from_slice(&contents);
    assert!(matches!(Package::parse(&bytes), Err(PackageError::Malformed)));
}

#[test]
fn credentials_network_size_counts_length_bytes() {
    let creds = Credentials::new(b"ab".to_vec(), b"cde".to_vec());
    assert_eq!(creds.network_size(), 7);
}

#[test]
fn package_network_size_matches_the_frame() {
    let creds = Credentials::new(b"ab".to_vec(), b"c".to_vec());
    let pkg = Package::with_payload(0x82, 1, Some(creds), vec![0; 10]);
    // 18 header bytes + 5 credential bytes + 10 payload bytes.
    assert_eq!(pkg.network_size(), 33);
    let bytes = pkg.serialize().expect("serialize");
    assert_eq!(bytes.len(), 4 + pkg.network_size());
}
