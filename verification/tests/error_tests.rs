use nft_fetch::state::FetchError;

#[test]
fn invalid_identifier_is_a_client_error() {
    let error = FetchError::InvalidIdentifier;
    assert_eq!(error.kind(), "InvalidIdentifier");
    assert_eq!(error.status_code(), 400);
    assert_eq!(error.message(), "Failed to read the mint identifier.");
}

#[test]
fn account_fetch_failure() {
    let error = FetchError::FailedToGetAccountData;
    assert_eq!(error.kind(), "AccountFetchFailed");
    assert_eq!(error.status_code(), 500);
    assert_eq!(error.message(), "Failed to get mint account data.");
}

#[test]
fn decode_failure() {
    let error = FetchError::FailedToDeserializeData;
    assert_eq!(error.kind(), "DecodeFailed");
    assert_eq!(error.status_code(), 500);
    assert_eq!(error.message(), "Failed to deserialize mint account data.");
}

#[test]
fn enrichment_fetch_failure() {
    let error = FetchError::FailedToFetchUriData;
    assert_eq!(error.kind(), "EnrichmentFetchFailed");
    assert_eq!(error.status_code(), 500);
    assert_eq!(error.message(), "Failed to retrieve uri data.");
}

#[test]
fn missing_configuration() {
    let error = FetchError::ConfigurationMissing;
    assert_eq!(error.kind(), "ConfigurationMissing");
    assert_eq!(error.status_code(), 500);
    assert_eq!(error.message(), "Failed to find the network configuration.");
}
