use nft_fetch::pipeline::accepts_status;
use nft_fetch::pipeline::assemble;
use nft_fetch::pipeline::step;
use nft_fetch::pipeline::Action;
use nft_fetch::pipeline::EnrichmentReply;
use nft_fetch::pipeline::Event;
use nft_fetch::pipeline::PipelineState;
use nft_fetch::pipeline::Stage;
use nft_fetch::state::FetchError;
use nft_fetch::state::UriData;
use solana_program::pubkey::Pubkey;

const MINT: &str = "So11111111111111111111111111111111111111112";

const NODE: &str = "https://rpc.example.org";

fn account_bytes(uri: &str) -> Vec<u8> {
    let mut out = vec![4u8];
    out.extend_from_slice(&[7u8; 32]);
    out.extend_from_slice(&[8u8; 32]);
    out.extend_from_slice(&32u32.to_le_bytes());
    out.extend_from_slice(b"X");
    out.resize(out.len() + 31, 0);
    out.extend_from_slice(&10u32.to_le_bytes());
    out.extend_from_slice(b"X");
    out.resize(out.len() + 9, 0);
    out.extend_from_slice(&200u32.to_le_bytes());
    out.extend_from_slice(uri.as_bytes());
    out.resize(out.len() + 200 - uri.len(), 0);
    out.extend_from_slice(&500u16.to_le_bytes());
    out.resize(679, 0);
    out
}

fn document() -> UriData {
    UriData {
        name: String::from("X"),
        symbol: String::from("X"),
        description: String::from("d"),
        seller_fee_basis_points: 500,
        image: String::from("i"),
        external_url: String::from("e"),
        attributes: vec![],
        properties: serde_json::Value::Object(serde_json::Map::new()),
    }
}

fn started(id: &str, network: &str, mainnet_url: Option<&str>) -> (PipelineState, Action) {
    let state = PipelineState::new(
        String::from(id),
        String::from(network),
        mainnet_url.map(String::from),
    );
    step(state, Event::Proceed).unwrap()
}

fn fetching() -> PipelineState {
    started(MINT, "Mainnet", Some(NODE)).0
}

fn decoding(account: Vec<u8>) -> PipelineState {
    step(fetching(), Event::LedgerReplied { account: Some(account) }).unwrap().0
}

fn enriching() -> PipelineState {
    step(decoding(account_bytes("https://example.com/meta.json")), Event::Proceed).unwrap().0
}

fn failed_with(next: &(PipelineState, Action)) -> Option<FetchError> {
    match next {
        (PipelineState::Failed { error }, Action::Reject) => Some(*error),
        _ => None,
    }
}

#[test]
fn request_starts_in_the_first_stage() {
    let state = PipelineState::new(String::from(MINT), String::from("Mainnet"), None);
    assert_eq!(state.stage(), Stage::Deriving);
    assert!(matches!(
        &state,
        PipelineState::Deriving { id, network, mainnet_url }
            if id == MINT && network == "Mainnet" && mainnet_url.is_none()
    ));
}

#[test]
fn start_asks_for_the_metadata_account() {
    let (state, action) = started(MINT, "Mainnet", Some(NODE));
    assert_eq!(state.stage(), Stage::Fetching);
    assert!(matches!(&state, PipelineState::Fetching { network } if network == "Mainnet"));
    let mint = MINT.parse::<Pubkey>().unwrap();
    let expected = mpl_token_metadata::pda::find_metadata_account(&mint).0;
    match action {
        Action::FetchAccount { url, address } => {
            assert_eq!(url, NODE);
            assert_eq!(address.to_bytes(), expected.to_bytes());
            assert_eq!(address.to_text(), expected.to_string());
        }
        other => panic!("unexpected action {:?}", other),
    }
}

#[test]
fn start_resolves_the_node_of_the_named_network() {
    match started(MINT, "Devnet", Some(NODE)).1 {
        Action::FetchAccount { url, .. } => assert_eq!(url, "https://api.devnet.solana.com"),
        other => panic!("unexpected action {:?}", other),
    }
    match started(MINT, "Localnet", Some(NODE)).1 {
        Action::FetchAccount { url, .. } => assert_eq!(url, "http://localhost:8899"),
        other => panic!("unexpected action {:?}", other),
    }
    match started(MINT, "Testnet", Some(NODE)).1 {
        Action::FetchAccount { url, .. } => assert_eq!(url, "https://api.testnet.solana.com"),
        other => panic!("unexpected action {:?}", other),
    }
}

#[test]
fn unknown_network_goes_to_the_primary_node() {
    let (state, action) = started(MINT, "Elsewhere", Some(NODE));
    assert!(matches!(&state, PipelineState::Fetching { network } if network == "Elsewhere"));
    match action {
        Action::FetchAccount { url, .. } => assert_eq!(url, NODE),
        other => panic!("unexpected action {:?}", other),
    }
}

#[test]
fn invalid_identifier_ends_the_request() {
    let next = started("3Kz...valid58", "Mainnet", Some(NODE));
    assert_eq!(failed_with(&next), Some(FetchError::InvalidIdentifier));
    assert_eq!(FetchError::InvalidIdentifier.status_code(), 400);
}

#[test]
fn invalid_identifier_is_reported_before_missing_configuration() {
    let next = started("not a key", "Mainnet", None);
    assert_eq!(failed_with(&next), Some(FetchError::InvalidIdentifier));
}

#[test]
fn missing_configuration_ends_the_request() {
    let next = started(MINT, "Mainnet", None);
    assert_eq!(failed_with(&next), Some(FetchError::ConfigurationMissing));
    let next = started(MINT, "Devnet", None);
    assert_eq!(failed_with(&next), Some(FetchError::ConfigurationMissing));
}

#[test]
fn ledger_failure_ends_the_request() {
    let next = step(fetching(), Event::LedgerReplied { account: None }).unwrap();
    assert_eq!(failed_with(&next), Some(FetchError::FailedToGetAccountData));
    assert_eq!(next.0.stage(), Stage::Failed);
}

#[test]
fn fetched_bytes_are_kept_for_decoding() {
    let bytes = account_bytes("https://example.com/meta.json");
    let (state, action) = step(fetching(), Event::LedgerReplied { account: Some(bytes.clone()) }).unwrap();
    assert!(matches!(action, Action::Continue));
    assert!(matches!(
        &state,
        PipelineState::Decoding { network, account } if network == "Mainnet" && *account == bytes
    ));
}

#[test]
fn decoded_record_asks_for_its_document() {
    let (state, action) =
        step(decoding(account_bytes("https://example.com/meta.json")), Event::Proceed).unwrap();
    assert_eq!(state.stage(), Stage::Enriching);
    assert!(matches!(action, Action::FetchDocument { uri } if uri == "https://example.com/meta.json"));
    match state {
        PipelineState::Enriching { network, metadata } => {
            assert_eq!(network, "Mainnet");
            assert_eq!(metadata.data.uri, "https://example.com/meta.json");
            assert_eq!(metadata.edition_nonce, None);
        }
        other => panic!("unexpected state {:?}", other),
    }
}

#[test]
fn short_account_ends_the_request() {
    let next = step(decoding(vec![1, 2, 3, 4, 5, 6, 7]), Event::Proceed).unwrap();
    assert_eq!(failed_with(&next), Some(FetchError::FailedToDeserializeData));
    assert_eq!(FetchError::FailedToDeserializeData.status_code(), 500);
    assert_eq!(FetchError::FailedToDeserializeData.kind(), "DecodeFailed");
}

#[test]
fn whole_request_yields_the_joined_response() {
    let state = PipelineState::new(String::from(MINT), String::from("Mainnet"), Some(String::from(NODE)));
    let (state, action) = step(state, Event::Proceed).unwrap();
    assert!(matches!(action, Action::FetchAccount { .. }));
    let account = account_bytes("https://example.com/meta.json");
    let (state, action) = step(state, Event::LedgerReplied { account: Some(account) }).unwrap();
    assert!(matches!(action, Action::Continue));
    let (state, action) = step(state, Event::Proceed).unwrap();
    assert!(matches!(action, Action::FetchDocument { .. }));
    let reply = EnrichmentReply::Answered { status: 200, document: Some(document()) };
    let (state, action) = step(state, Event::EnrichmentReplied { reply }).unwrap();
    assert!(matches!(action, Action::Respond));
    assert_eq!(state.stage(), Stage::Assembled);
    match state {
        PipelineState::Assembled { response } => {
            assert_eq!(response.network, "Mainnet");
            assert_eq!(response.metadata.edition_nonce, None);
            assert_eq!(response.metadata.token_standard, None);
            assert_eq!(response.metadata.data.name, "X");
            assert_eq!(response.metadata.data.seller_fee_basis_points, 500);
            assert_eq!(response.uri_data.name, "X");
            assert_eq!(response.uri_data.description, "d");
            assert_eq!(response.uri_data.seller_fee_basis_points, 500);
            assert_eq!(response.uri_data.image, "i");
            assert_eq!(response.uri_data.external_url, "e");
            assert!(response.uri_data.attributes.is_empty());
            assert_eq!(response.uri_data.properties, serde_json::Value::Object(serde_json::Map::new()));
        }
        other => panic!("unexpected state {:?}", other),
    }
}

#[test]
fn unreachable_document_ends_the_request() {
    let reply = EnrichmentReply::Unreachable;
    let next = step(enriching(), Event::EnrichmentReplied { reply }).unwrap();
    assert_eq!(failed_with(&next), Some(FetchError::FailedToFetchUriData));
    assert_eq!(FetchError::FailedToFetchUriData.kind(), "EnrichmentFetchFailed");
}

#[test]
fn status_404_ends_the_request() {
    let reply = EnrichmentReply::Answered { status: 404, document: None };
    let next = step(enriching(), Event::EnrichmentReplied { reply }).unwrap();
    assert_eq!(failed_with(&next), Some(FetchError::FailedToFetchUriData));
}

#[test]
fn other_status_ends_the_request_even_with_a_document() {
    let reply = EnrichmentReply::Answered { status: 201, document: Some(document()) };
    let next = step(enriching(), Event::EnrichmentReplied { reply }).unwrap();
    assert_eq!(failed_with(&next), Some(FetchError::FailedToFetchUriData));
    let reply = EnrichmentReply::Answered { status: 500, document: Some(document()) };
    let next = step(enriching(), Event::EnrichmentReplied { reply }).unwrap();
    assert_eq!(failed_with(&next), Some(FetchError::FailedToFetchUriData));
}

#[test]
fn body_that_is_no_document_ends_the_request() {
    let reply = EnrichmentReply::Answered { status: 200, document: None };
    let next = step(enriching(), Event::EnrichmentReplied { reply }).unwrap();
    assert_eq!(failed_with(&next), Some(FetchError::FailedToFetchUriData));
}

#[test]
fn event_of_another_stage_makes_no_step() {
    assert!(step(fetching(), Event::Proceed).is_none());
    assert!(step(fetching(), Event::EnrichmentReplied { reply: EnrichmentReply::Unreachable }).is_none());
    assert!(step(enriching(), Event::Proceed).is_none());
    assert!(step(enriching(), Event::LedgerReplied { account: None }).is_none());
    assert!(step(decoding(vec![]), Event::LedgerReplied { account: None }).is_none());
    let fresh = PipelineState::new(String::from(MINT), String::from("Mainnet"), None);
    assert!(step(fresh, Event::LedgerReplied { account: None }).is_none());
}

#[test]
fn final_stages_make_no_step() {
    let failed = step(fetching(), Event::LedgerReplied { account: None }).unwrap().0;
    assert!(step(failed, Event::Proceed).is_none());
    let reply = EnrichmentReply::Answered { status: 200, document: Some(document()) };
    let assembled = step(enriching(), Event::EnrichmentReplied { reply }).unwrap().0;
    assert_eq!(assembled.stage(), Stage::Assembled);
    assert!(step(assembled, Event::Proceed).is_none());
}

#[test]
fn only_status_200_is_accepted() {
    assert!(accepts_status(200));
    assert!(!accepts_status(201));
    assert!(!accepts_status(204));
    assert!(!accepts_status(404));
    assert!(!accepts_status(0));
}

#[test]
fn assembling_changes_nothing() {
    let metadata = match enriching() {
        PipelineState::Enriching { metadata, .. } => metadata,
        other => panic!("unexpected state {:?}", other),
    };
    let kept = metadata.clone();
    let mut uri_data = document();
    uri_data.attributes = vec![serde_json::Value::from(3), serde_json::Value::Null];
    let response = assemble(String::from("Some Net"), metadata, uri_data);
    assert_eq!(response.network, "Some Net");
    assert_eq!(response.metadata, kept);
    assert_eq!(response.uri_data.attributes, vec![serde_json::Value::from(3), serde_json::Value::Null]);
    assert_eq!(response.uri_data.name, "X");
}

#[test]
fn account_of_any_length_is_decoded() {
    for length in [324usize, 325, 500, 678, 680, 1000] {
        let mut account = account_bytes("https://example.com/meta.json");
        account.resize(length, 0);
        let (state, action) = step(decoding(account), Event::Proceed).unwrap();
        assert_eq!(state.stage(), Stage::Enriching, "{}", length);
        assert!(matches!(action, Action::FetchDocument { uri } if uri == "https://example.com/meta.json"));
    }
}

#[test]
fn unknown_trailing_bytes_leave_optional_fields_absent() {
    let mut account = account_bytes("https://example.com/meta.json");
    account.truncate(324);
    account.extend_from_slice(&[0xAB, 0xCD, 1, 2, 3, 0xFF, 0, 1, 9]);
    let (state, _) = step(decoding(account), Event::Proceed).unwrap();
    let reply = EnrichmentReply::Answered { status: 200, document: Some(document()) };
    let (state, action) = step(state, Event::EnrichmentReplied { reply }).unwrap();
    assert!(matches!(action, Action::Respond));
    match state {
        PipelineState::Assembled { response } => {
            assert_eq!(response.metadata.data.name, "X");
            assert_eq!(response.metadata.data.uri, "https://example.com/meta.json");
            assert_eq!(response.metadata.data.seller_fee_basis_points, 500);
            assert_eq!(response.metadata.edition_nonce, None);
            assert_eq!(response.metadata.token_standard, None);
            assert_eq!(response.metadata.collection, None);
            assert_eq!(response.metadata.uses, None);
            assert_eq!(response.metadata.collection_details, None);
            assert_eq!(response.uri_data.name, "X");
        }
        other => panic!("unexpected state {:?}", other),
    }
}

#[test]
fn unknown_nested_tag_ends_the_request() {
    let mut account = account_bytes("https://example.com/meta.json");
    account[324] = 0;
    account[325] = 1;
    account[326] = 9;
    let next = step(decoding(account), Event::Proceed).unwrap();
    assert_eq!(failed_with(&next), Some(FetchError::FailedToDeserializeData));
}

#[test]
fn incomplete_mandatory_fields_end_the_request() {
    let mut account = account_bytes("https://example.com/meta.json");
    account.truncate(323);
    let next = step(decoding(account), Event::Proceed).unwrap();
    assert_eq!(failed_with(&next), Some(FetchError::FailedToDeserializeData));
}
