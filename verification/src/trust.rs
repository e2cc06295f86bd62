use vstd::prelude::*;

use rustls::client::VerifierBuilderError;
use rustls::pki_types::CertificateDer;
use rustls::RootCertStore;
use std::sync::Arc;

verus! {

#[verifier::external_type_specification]
#[verifier::external_body]
pub struct ExRootCertStore(RootCertStore);

#[verifier::external_type_specification]
#[verifier::external_body]
pub struct ExRustlsError(rustls::Error);

#[verifier::external_type_specification]
#[verifier::external_body]
pub struct ExVerifierBuilderError(VerifierBuilderError);

#[verifier::external_type_specification]
#[verifier::external_body]
pub struct ExClientConfig(quinn_proto::ClientConfig);

/// The trust anchor (subject, subject public key info, name constraints, each
/// DER-encoded) that webpki's `anchor_from_trusted_cert` makes of a
/// DER-encoded certificate, or `None` where it rejects the certificate.
pub uninterp spec fn trust_anchor_of(der: Seq<u8>) -> Option<(Seq<u8>, Seq<u8>, Option<Seq<u8>>)>;

/// The trust anchors that a `rustls::RootCertStore` holds, in order.
pub uninterp spec fn root_store_anchors(store: RootCertStore) -> Seq<(Seq<u8>, Seq<u8>, Option<Seq<u8>>)>;

/// The trust anchors that a QUIC client configuration verifies servers
/// against: those of the root store its webpki server verifier was built over.
pub uninterp spec fn client_config_anchors(config: quinn_proto::ClientConfig) -> Seq<(Seq<u8>, Seq<u8>, Option<Seq<u8>>)>;

/// `rustls::RootCertStore::empty`: a store with no anchors.
#[verifier::external_body]
fn empty_root_store() -> (store: RootCertStore)
    ensures
        root_store_anchors(store) == Seq::<(Seq<u8>, Seq<u8>, Option<Seq<u8>>)>::empty(),
{
    RootCertStore::empty()
}

/// `rustls::RootCertStore::add` on a DER-encoded certificate. Its source
/// parses the certificate with `anchor_from_trusted_cert`; on success it
/// pushes the anchor and returns `Ok`, on failure it returns the error and
/// leaves the store as it was.
#[verifier::external_body]
fn root_store_add(store: &mut RootCertStore, der: &[u8]) -> (added: Result<(), rustls::Error>)
    ensures
        added is Ok <==> trust_anchor_of(der@) is Some,
        added is Ok ==> root_store_anchors(*final(store)) == root_store_anchors(*old(store)).push(
            trust_anchor_of(der@)->Some_0,
        ),
        added is Err ==> root_store_anchors(*final(store)) == root_store_anchors(*old(store)),
{
    store.add(CertificateDer::from(der))
}

/// `quinn_proto::ClientConfig::with_root_certificates`. Its source builds a
/// webpki server verifier over exactly the store passed in, which fails
/// exactly when the store holds no anchor; the configuration it returns then
/// verifies servers against the store's anchors. Nothing else is said of it.
#[verifier::external_body]
fn client_config_with_roots(store: RootCertStore) -> (config: Result<
    quinn_proto::ClientConfig,
    VerifierBuilderError,
>)
    ensures
        config is Err <==> root_store_anchors(store).len() == 0,
        config matches Ok(c) ==> client_config_anchors(c) == root_store_anchors(store),
{
    quinn_proto::ClientConfig::with_root_certificates(Arc::new(store))
}

/// The bytes of each certificate.
pub open spec fn cert_bytes(certs: Seq<&[u8]>) -> Seq<Seq<u8>> {
    certs.map_values(|c: &[u8]| c@)
}

/// Whether webpki accepts a DER-encoded certificate as a trust anchor.
pub open spec fn accepted(der: Seq<u8>) -> bool {
    trust_anchor_of(der) is Some
}

/// Whether the first `n` certificates are all accepted.
pub open spec fn all_accepted(certs: Seq<Seq<u8>>, n: int) -> bool {
    forall|j: int| 0 <= j < n ==> #[trigger] accepted(certs[j])
}

/// The anchors made of certificates that are all accepted.
pub open spec fn anchors_of(certs: Seq<Seq<u8>>) -> Seq<(Seq<u8>, Seq<u8>, Option<Seq<u8>>)> {
    certs.map_values(|c: Seq<u8>| trust_anchor_of(c)->Some_0)
}

/// The first certificate that was not accepted as a trust anchor.
#[derive(Clone, Copy, Debug, PartialEq, Eq)]
pub struct CertificateRejected {
    pub index: usize,
}

/// Why a client configuration could not be built.
#[derive(Clone, Copy, Debug, PartialEq, Eq)]
pub enum ClientConfigError {
    /// The certificate at `index` is not a valid trust anchor (and all before it are).
    RejectedCertificate { index: usize },
    /// No certificate was given, so nothing could verify a server.
    NoRootCertificates,
}

/// A root store trusting exactly the given DER-encoded certificates, in order;
/// stops at the first certificate that is not a valid trust anchor.
pub fn trusted_roots(server_certs: &[&[u8]]) -> (roots: Result<RootCertStore, CertificateRejected>)
    ensures
        roots is Ok <==> all_accepted(cert_bytes(server_certs@), server_certs@.len() as int),
        roots matches Ok(store) ==> root_store_anchors(store) == anchors_of(cert_bytes(server_certs@)),
        roots matches Err(e) ==> {
            &&& e.index < server_certs@.len()
            &&& !accepted(server_certs@[e.index as int]@)
            &&& all_accepted(cert_bytes(server_certs@), e.index as int)
        },
{
    let ghost certs = cert_bytes(server_certs@);
    let mut store = empty_root_store();
    let mut i: usize = 0;
    assert(anchors_of(certs.take(0)) =~= Seq::<(Seq<u8>, Seq<u8>, Option<Seq<u8>>)>::empty());
    while i < server_certs.len()
        invariant
            certs == cert_bytes(server_certs@),
            i <= server_certs@.len(),
            all_accepted(certs, i as int),
            root_store_anchors(store) == anchors_of(certs.take(i as int)),
        decreases server_certs@.len() - i,
    {
        let der: &[u8] = server_certs[i];
        assert(certs[i as int] == der@);
        match root_store_add(&mut store, der) {
            Ok(()) => {},
            Err(_) => {
                assert(!accepted(certs[i as int]));
                return Err(CertificateRejected { index: i });
            },
        }
        assert(anchors_of(certs.take(i + 1)) =~= anchors_of(certs.take(i as int)).push(
            trust_anchor_of(der@)->Some_0,
        ));
        assert(accepted(certs[i as int]));
        i = i + 1;
    }
    assert(certs.take(i as int) =~= certs);
    Ok(store)
}

/// A QUIC client configuration that trusts exactly the given DER-encoded
/// server certificates.
pub fn configure_client(server_certs: &[&[u8]]) -> (config: Result<
    quinn_proto::ClientConfig,
    ClientConfigError,
>)
    ensures
        config is Ok <==> server_certs@.len() > 0 && all_accepted(
            cert_bytes(server_certs@),
            server_certs@.len() as int,
        ),
        config == Err::<quinn_proto::ClientConfig, ClientConfigError>(
            ClientConfigError::NoRootCertificates,
        ) <==> server_certs@.len() == 0,
        config matches Err(ClientConfigError::RejectedCertificate { index }) ==> {
            &&& index < server_certs@.len()
            &&& !accepted(server_certs@[index as int]@)
            &&& all_accepted(cert_bytes(server_certs@), index as int)
        },
        config matches Ok(c) ==> client_config_anchors(c) == anchors_of(cert_bytes(server_certs@)),
{
    let store = match trusted_roots(server_certs) {
        Ok(store) => store,
        Err(rejected) => {
            return Err(ClientConfigError::RejectedCertificate { index: rejected.index });
        },
    };
    proof {
        assert(anchors_of(cert_bytes(server_certs@)).len() == server_certs@.len());
    }
    match client_config_with_roots(store) {
        Ok(config) => Ok(config),
        Err(_) => Err(ClientConfigError::NoRootCertificates),
    }
}

/// What came of reading a DER certificate file.
#[derive(Clone, Debug, PartialEq, Eq)]
pub enum CertificateRead {
    /// The file's bytes.
    Read(Vec<u8>),
    /// There is no such file.
    NotFound,
    /// The file could not be read for another reason.
    Failed,
}

/// The file named by the certificate-authority option could not be read.
#[derive(Clone, Copy, Debug, PartialEq, Eq)]
pub struct CertificateUnreadable;

/// The certificates the client trusts, from one certificate file: the one
/// named by the certificate-authority option (`from_ca_option`), whose read
/// must succeed, or else the local server certificate, which may be missing
/// or unreadable, in which case no certificate is trusted.
pub fn root_certificates(from_ca_option: bool, read: CertificateRead) -> (certs: Result<
    Vec<Vec<u8>>,
    CertificateUnreadable,
>)
    ensures
        certs is Err <==> from_ca_option && !(read is Read),
        read matches CertificateRead::Read(c) ==> certs matches Ok(v) && v@.len() == 1 && v@[0]@ == c@,
        !(read is Read) ==> (certs matches Ok(v) ==> v@.len() == 0),
{
    match read {
        CertificateRead::Read(cert) => {
            let mut certs: Vec<Vec<u8>> = Vec::new();
            certs.push(cert);
            Ok(certs)
        },
        CertificateRead::NotFound | CertificateRead::Failed => {
            if from_ca_option {
                Err(CertificateUnreadable)
            } else {
                Ok(Vec::new())
            }
        },
    }
}

} // verus!
