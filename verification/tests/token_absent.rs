use signing_broker::error::{BrokerError, Failure, StatusClass};
use signing_broker::token::{module_file_name, Platform};

#[test]
fn each_system_has_its_module_file() {
    assert_eq!(module_file_name(Platform::Linux), Some("libeToken.so"));
    assert_eq!(module_file_name(Platform::Windows), Some("IDPrimeTokenEngine.dll"));
    assert_eq!(module_file_name(Platform::MacOs), Some("libsofthsm2.dylib"));
    assert_eq!(module_file_name(Platform::Other), None);
}

#[test]
fn failures_are_classed_for_the_transport() {
    let server = [BrokerError::ModuleNotFound, BrokerError::NoTokenPresent, BrokerError::ChannelClosed];
    let client = [
        BrokerError::AuthFailure,
        BrokerError::CertificateNotFound,
        BrokerError::CertificateMismatch,
        BrokerError::PrivateKeyNotFound,
        BrokerError::UnsupportedKeyType,
        BrokerError::UnsupportedAlgorithm,
        BrokerError::MalformedTimestamp,
        BrokerError::StaleRequest,
        BrokerError::SignatureInvalid,
        BrokerError::NoPendingRequest,
    ];
    for kind in server {
        assert_eq!(kind.status_class(), StatusClass::ServerError);
    }
    for kind in client {
        assert_eq!(kind.status_class(), StatusClass::ClientError);
    }
}

#[test]
fn a_failure_keeps_its_kind_and_its_words() {
    let failure = Failure::new(BrokerError::AuthFailure, "wrong PIN");
    assert_eq!(failure.kind, BrokerError::AuthFailure);
    assert_eq!(failure.detail, "wrong PIN");
}
