use wtbridge::cli::pair_cert_key;
use wtbridge::client::normalize_client_target;
use wtbridge::client::parse_cert_hash;
use wtbridge::client::CertHashError;

#[test]
fn a_valid_hash_decodes_to_thirty_two_bytes() {
    let hex_str = "00112233445566778899aabbccddeeff00112233445566778899AABBCCDDEEFF";
    let d = parse_cert_hash(&hex_str.as_bytes().to_vec()).unwrap();
    assert_eq!(d, hex::decode(hex_str).unwrap());
    assert_eq!(d.len(), 32);
    assert_eq!(&d[..4], &[0x00, 0x11, 0x22, 0x33]);
}

#[test]
fn odd_length_input_is_rejected() {
    let r = parse_cert_hash(&b"abc".to_vec());
    assert_eq!(r, Err(CertHashError::OddLength));
}

#[test]
fn non_hex_bytes_are_rejected() {
    let r = parse_cert_hash(&b"zz".to_vec());
    assert_eq!(r, Err(CertHashError::InvalidChar));
    let r = parse_cert_hash(&"gg00112233445566778899aabbccddeeff00112233445566778899aabbccdd".as_bytes().to_vec());
    assert_eq!(r, Err(CertHashError::InvalidChar));
}

#[test]
fn a_hash_of_the_wrong_size_is_rejected() {
    let r = parse_cert_hash(&b"abcd".to_vec());
    assert_eq!(r, Err(CertHashError::WrongLength));
    let r = parse_cert_hash(&Vec::new());
    assert_eq!(r, Err(CertHashError::WrongLength));
}

#[test]
fn client_targets_gain_the_scheme_when_missing() {
    let r = normalize_client_target(&b"example.com:34433".to_vec());
    assert_eq!(r, b"https://example.com:34433".to_vec());
    let r = normalize_client_target(&b"https://example.com:34433".to_vec());
    assert_eq!(r, b"https://example.com:34433".to_vec());
}

#[test]
fn cert_and_key_paths_pair_only_when_both_are_given() {
    let p = pair_cert_key(Some("c.pem".to_string()), Some("k.pem".to_string()));
    assert_eq!(p, Some(("c.pem".to_string(), "k.pem".to_string())));
    assert_eq!(pair_cert_key(Some("c.pem".to_string()), None), None);
    assert_eq!(pair_cert_key(None, Some("k.pem".to_string())), None);
    assert_eq!(pair_cert_key(None, None), None);
}
