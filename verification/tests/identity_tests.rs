use base64::engine::general_purpose::STANDARD;
use base64::Engine;
use wtbridge::identity::Identity;
use x509_parser::certificate::X509Certificate;
use x509_parser::prelude::FromDer;

fn self_signed_parts() -> (wtransport::Identity, Vec<Vec<u8>>, Vec<u8>) {
    let wt = wtransport::Identity::self_signed(&["localhost", "127.0.0.1", "::1"]).unwrap();
    let chain: Vec<Vec<u8>> = wt
        .certificate_chain()
        .as_slice()
        .iter()
        .map(|c| c.der().to_vec())
        .collect();
    let key = wt.private_key().secret_der().to_vec();
    (wt, chain, key)
}

#[test]
fn from_der_chain_reads_the_x509_validity_window() {
    let (_, chain, key) = self_signed_parts();
    let leaf = chain[0].clone();
    let id = Identity::from_der_chain(chain, key).expect("valid DER chain");
    let (_, x) = X509Certificate::from_der(&leaf).unwrap();
    assert_eq!(id.not_before_ts(), x.validity.not_before.timestamp());
    assert_eq!(id.not_after_ts(), x.validity.not_after.timestamp());
}

#[test]
fn from_der_chain_rejects_an_empty_chain_and_junk_der() {
    assert!(Identity::from_der_chain(Vec::new(), Vec::new()).is_none());
    assert!(Identity::from_der_chain(vec![vec![0u8, 1, 2, 3]], Vec::new()).is_none());
}

#[test]
fn fingerprint_is_the_sha256_of_the_leaf() {
    let (wt, chain, key) = self_signed_parts();
    let id = Identity::from_der_chain(chain, key).unwrap();
    let expected = wt.certificate_chain().as_slice()[0].hash().as_ref().to_vec();
    assert_eq!(id.fingerprint().unwrap(), expected);
    assert_eq!(id.fingerprint().unwrap().len(), 32);
}

#[test]
fn fingerprint_b64_matches_the_standard_encoding() {
    let (wt, chain, key) = self_signed_parts();
    let id = Identity::from_der_chain(chain, key).unwrap();
    let expected = STANDARD.encode(wt.certificate_chain().as_slice()[0].hash().as_ref());
    assert_eq!(id.fingerprint_b64().unwrap(), expected);
}

#[test]
fn persisted_and_reloaded_identity_keeps_its_fingerprint() {
    let rt = tokio::runtime::Runtime::new().unwrap();
    let (wt, chain, key) = self_signed_parts();
    let id = Identity::from_der_chain(chain, key).unwrap();
    let cert_path = "/tmp/wtbridge_test_roundtrip_cert.pem";
    let key_path = "/tmp/wtbridge_test_roundtrip_key.pem";
    rt.block_on(async {
        wt.certificate_chain().store_pemfile(cert_path).await.unwrap();
        wt.private_key().store_secret_pemfile(key_path).await.unwrap();
    });
    let reloaded = rt
        .block_on(wtransport::Identity::load_pemfiles(cert_path, key_path))
        .unwrap();
    let chain2: Vec<Vec<u8>> = reloaded
        .certificate_chain()
        .as_slice()
        .iter()
        .map(|c| c.der().to_vec())
        .collect();
    let key2 = reloaded.private_key().secret_der().to_vec();
    let id2 = Identity::from_der_chain(chain2, key2).unwrap();
    assert_eq!(id.fingerprint().unwrap(), id2.fingerprint().unwrap());
    assert_eq!(id.fingerprint_b64().unwrap(), id2.fingerprint_b64().unwrap());
}

#[test]
fn validity_bounds_are_inclusive() {
    let id = Identity::new(vec![vec![1u8]], Vec::new(), 100, 200).unwrap();
    assert!(!id.is_valid_at(99));
    assert!(id.is_valid_at(100));
    assert!(id.is_valid_at(150));
    assert!(id.is_valid_at(200));
    assert!(!id.is_valid_at(201));
}

#[test]
fn new_rejects_an_empty_chain() {
    assert!(Identity::new(Vec::new(), Vec::new(), 0, 0).is_none());
}

#[test]
fn accessors_return_the_given_parts() {
    let id = Identity::new(vec![vec![1u8, 2], vec![3u8]], vec![9u8, 9], -5, 7).unwrap();
    assert_eq!(id.chain_len(), 2);
    assert_eq!(id.leaf_der().as_slice(), &[1u8, 2]);
    assert_eq!(id.cert_der(1).as_slice(), &[3u8]);
    assert_eq!(id.key_der().as_slice(), &[9u8, 9]);
    assert_eq!(id.not_before_ts(), -5);
    assert_eq!(id.not_after_ts(), 7);
}
