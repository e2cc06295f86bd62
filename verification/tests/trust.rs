use deepspace_quic::trust::{
    configure_client, root_certificates, trusted_roots, CertificateRead, CertificateRejected,
    CertificateUnreadable, ClientConfigError,
};

fn self_signed_der() -> Vec<u8> {
    let cert = rcgen::generate_simple_self_signed(vec!["localhost".to_string()]).unwrap();
    cert.cert.der().to_vec()
}

#[test]
fn roots_from_valid_certificates() {
    let a = self_signed_der();
    let b = self_signed_der();
    let store = trusted_roots(&[a.as_slice(), b.as_slice()]).unwrap();
    assert_eq!(store.len(), 2);
}

#[test]
fn roots_from_no_certificates_are_empty() {
    let store = trusted_roots(&[]).unwrap();
    assert_eq!(store.len(), 0);
}

#[test]
fn roots_stop_at_first_rejected_certificate() {
    let good = self_signed_der();
    let bad: &[u8] = &[0x30, 0x03, 0x02, 0x01, 0x00];
    assert_eq!(
        trusted_roots(&[good.as_slice(), bad, good.as_slice()]).unwrap_err(),
        CertificateRejected { index: 1 }
    );
    assert_eq!(trusted_roots(&[b"not a certificate"]).unwrap_err(), CertificateRejected { index: 0 });
}

#[test]
fn client_config_with_valid_certificate() {
    let good = self_signed_der();
    assert!(configure_client(&[good.as_slice()]).is_ok());
}

#[test]
fn client_config_needs_a_certificate() {
    assert_eq!(configure_client(&[]).unwrap_err(), ClientConfigError::NoRootCertificates);
}

#[test]
fn client_config_reports_rejected_certificate() {
    let good = self_signed_der();
    let err = configure_client(&[good.as_slice(), &[1, 2, 3]]).unwrap_err();
    assert_eq!(err, ClientConfigError::RejectedCertificate { index: 1 });
}

#[test]
fn ca_certificate_is_trusted() {
    assert_eq!(root_certificates(true, CertificateRead::Read(vec![1, 2, 3])), Ok(vec![vec![1, 2, 3]]));
    assert_eq!(root_certificates(false, CertificateRead::Read(vec![9])), Ok(vec![vec![9]]));
}

#[test]
fn unreadable_ca_certificate_is_an_error() {
    assert_eq!(root_certificates(true, CertificateRead::NotFound), Err(CertificateUnreadable));
    assert_eq!(root_certificates(true, CertificateRead::Failed), Err(CertificateUnreadable));
}

#[test]
fn missing_local_certificate_trusts_nothing() {
    assert_eq!(root_certificates(false, CertificateRead::NotFound), Ok(Vec::new()));
    assert_eq!(root_certificates(false, CertificateRead::Failed), Ok(Vec::new()));
}
