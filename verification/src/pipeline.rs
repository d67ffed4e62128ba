//! The pipeline of a request, as a state machine.
//!
//! A request passes through five stages in a fixed order: deriving the
//! metadata address, fetching the account from the ledger, decoding it,
//! fetching the enrichment document, and the assembled response. Any of the
//! first four can end the request in a failure instead. The machine decides;
//! its driver performs the action that each step hands out and hands back
//! what came of it.

use crate::address::base58_key;
use crate::address::metadata_address;
use crate::address::MetadataAddress;
use crate::address::TokenIdentifier;
use crate::decode::decode;
use crate::decode::holds_record;
use crate::decode::record_in;
use crate::network::network_named;
use crate::network::node_url;
use crate::network::Network;
use crate::state::FetchAccountResponse;
use crate::state::FetchError;
use crate::state::MetadataWrapper;
use crate::state::UriData;
use vstd::prelude::*;

verus! {

/// The HTTP status with which an enrichment document is accepted.
pub const STATUS_OK: u16 = 200;

/// A stage of the pipeline.
#[derive(Clone, Copy, Debug, PartialEq, Eq, Structural)]
pub enum Stage {
    Deriving,
    Fetching,
    Decoding,
    Enriching,
    Assembled,
    Failed,
}

impl Stage {
    /// The place of the stage in the order of the pipeline.
    pub open spec fn rank(self) -> nat {
        match self {
            Stage::Deriving => 0,
            Stage::Fetching => 1,
            Stage::Decoding => 2,
            Stage::Enriching => 3,
            Stage::Assembled => 4,
            Stage::Failed => 5,
        }
    }

    /// Whether the pipeline ends in the stage.
    pub open spec fn is_final(self) -> bool {
        self == Stage::Assembled || self == Stage::Failed
    }
}

/// The state of a request.
#[derive(Debug)]
pub enum PipelineState {
    /// The request as it came, with the configured URL of the primary
    /// network.
    Deriving { id: String, network: String, mainnet_url: Option<String> },
    /// The account is being fetched.
    Fetching { network: String },
    /// The bytes of the account are at hand.
    Decoding { network: String, account: Vec<u8> },
    /// The record is decoded and its document is being fetched.
    Enriching { network: String, metadata: MetadataWrapper },
    /// The response is complete.
    Assembled { response: FetchAccountResponse },
    /// The request has failed. No part of a record is kept.
    Failed { error: FetchError },
}

/// What came of fetching the enrichment document.
#[derive(Debug)]
pub enum EnrichmentReply {
    /// No HTTP answer came.
    Unreachable,
    /// An answer came with the status `status`. `document` is what its body
    /// holds, or `None` where the body is no document of the expected shape.
    Answered { status: u16, document: Option<UriData> },
}

/// What the driver hands to the machine.
#[derive(Debug)]
pub enum Event {
    /// A stage that needs nothing from outside may go on.
    Proceed,
    /// The ledger fetch has ended: with the bytes of the account, or with
    /// `None` for any failure.
    LedgerReplied { account: Option<Vec<u8>> },
    /// The enrichment fetch has ended.
    EnrichmentReplied { reply: EnrichmentReply },
}

/// What the machine asks of the driver.
#[derive(Debug)]
pub enum Action {
    /// Nothing from outside is needed: hand back `Proceed`.
    Continue,
    /// Read the account at `address` from the node at `url`.
    FetchAccount { url: String, address: MetadataAddress },
    /// Issue one GET to `uri`.
    FetchDocument { uri: String },
    /// Send the response that the state holds.
    Respond,
    /// Report the failure that the state holds.
    Reject,
}

impl PipelineState {
    /// The stage that the state is in.
    pub open spec fn stage_of(self) -> Stage {
        match self {
            PipelineState::Deriving { .. } => Stage::Deriving,
            PipelineState::Fetching { .. } => Stage::Fetching,
            PipelineState::Decoding { .. } => Stage::Decoding,
            PipelineState::Enriching { .. } => Stage::Enriching,
            PipelineState::Assembled { .. } => Stage::Assembled,
            PipelineState::Failed { .. } => Stage::Failed,
        }
    }

    /// The state in which a request starts.
    pub fn new(id: String, network: String, mainnet_url: Option<String>) -> (r: PipelineState)
        ensures
            r == (PipelineState::Deriving { id, network, mainnet_url }),
    {
        PipelineState::Deriving { id, network, mainnet_url }
    }

    /// The stage that the state is in.
    pub fn stage(&self) -> (r: Stage)
        ensures
            r == self.stage_of(),
    {
        match self {
            PipelineState::Deriving { .. } => Stage::Deriving,
            PipelineState::Fetching { .. } => Stage::Fetching,
            PipelineState::Decoding { .. } => Stage::Decoding,
            PipelineState::Enriching { .. } => Stage::Enriching,
            PipelineState::Assembled { .. } => Stage::Assembled,
            PipelineState::Failed { .. } => Stage::Failed,
        }
    }
}

/// The state and the action of a request that fails with `error`.
pub open spec fn failure(error: FetchError) -> (PipelineState, Action) {
    (PipelineState::Failed { error }, Action::Reject)
}

/// Whether `next` is what a request owes at its start. The identifier is
/// read first, then the node of the network is resolved, then the metadata
/// address is derived; the first of these that fails decides the failure.
pub open spec fn is_started(
    id: String,
    network: String,
    mainnet_url: Option<String>,
    next: (PipelineState, Action),
) -> bool {
    match base58_key(id@) {
        None => next == failure(FetchError::InvalidIdentifier),
        Some(key) => match mainnet_url {
            None => next == failure(FetchError::ConfigurationMissing),
            Some(mainnet) => match metadata_address(key) {
                None => next == failure(FetchError::InvalidIdentifier),
                Some(derived) => {
                    &&& next.0 == (PipelineState::Fetching { network })
                    &&& next.1 matches Action::FetchAccount { url, address }
                    &&& url@ == node_url(network_named(network@), mainnet@)
                    &&& address@ == derived
                },
            },
        },
    }
}

/// Whether `next` is what the end of the ledger fetch owes: the bytes are
/// kept for decoding, and any failure ends the request.
pub open spec fn is_fetched(
    network: String,
    account: Option<Vec<u8>>,
    next: (PipelineState, Action),
) -> bool {
    match account {
        Some(bytes) => next == (PipelineState::Decoding { network, account: bytes }, Action::Continue),
        None => next == failure(FetchError::FailedToGetAccountData),
    }
}

/// Whether `next` is what decoding owes: the record that the bytes hold and
/// the fetch of its document, or a failure where they hold none.
pub open spec fn is_examined(
    network: String,
    account: Vec<u8>,
    next: (PipelineState, Action),
) -> bool {
    if holds_record(account@) {
        &&& next.0 matches PipelineState::Enriching { network: kept, metadata }
        &&& kept == network
        &&& metadata@ == record_in(account@)
        &&& next.1 matches Action::FetchDocument { uri }
        &&& uri@ == metadata@.data.uri
    } else {
        next == failure(FetchError::FailedToDeserializeData)
    }
}

/// Whether `reply` brings a document: an answer with status 200 whose body
/// holds one.
pub open spec fn brings_document(reply: EnrichmentReply) -> bool {
    reply matches EnrichmentReply::Answered { status, document } && status == STATUS_OK
        && document is Some
}

/// Whether `next` is what the end of the enrichment fetch owes: the whole
/// response, or a failure where the reply brings no document.
pub open spec fn is_enriched(
    network: String,
    metadata: MetadataWrapper,
    reply: EnrichmentReply,
    next: (PipelineState, Action),
) -> bool {
    if brings_document(reply) {
        next == (
            PipelineState::Assembled {
                response: FetchAccountResponse {
                    network,
                    metadata,
                    uri_data: reply->document->0,
                },
            },
            Action::Respond,
        )
    } else {
        next == failure(FetchError::FailedToFetchUriData)
    }
}

/// Whether `r` is what a step from `state` on `event` owes. Each stage
/// awaits one kind of event; on any other, and in a final stage, there is no
/// step.
pub open spec fn is_step(
    state: PipelineState,
    event: Event,
    r: Option<(PipelineState, Action)>,
) -> bool {
    match (state, event) {
        (PipelineState::Deriving { id, network, mainnet_url }, Event::Proceed) => r is Some
            && is_started(id, network, mainnet_url, r->0),
        (PipelineState::Fetching { network }, Event::LedgerReplied { account }) => r is Some
            && is_fetched(network, account, r->0),
        (PipelineState::Decoding { network, account }, Event::Proceed) => r is Some
            && is_examined(network, account, r->0),
        (PipelineState::Enriching { network, metadata }, Event::EnrichmentReplied { reply }) => r
            is Some && is_enriched(network, metadata, reply, r->0),
        _ => r is None,
    }
}

/// The response that joins the network as the request named it, the record
/// and the document, each unchanged.
pub fn assemble(network: String, metadata: MetadataWrapper, uri_data: UriData) -> (r:
    FetchAccountResponse)
    ensures
        r == (FetchAccountResponse { network, metadata, uri_data }),
{
    FetchAccountResponse { network, metadata, uri_data }
}

/// Whether an enrichment document is accepted with the HTTP status
/// `status`.
pub fn accepts_status(status: u16) -> (r: bool)
    ensures
        r == (status == STATUS_OK),
{
    status == STATUS_OK
}

/// The state and the action of a request that fails with `error`.
fn fail(error: FetchError) -> (r: (PipelineState, Action))
    ensures
        r == failure(error),
{
    (PipelineState::Failed { error }, Action::Reject)
}

/// Starts a request: reads the identifier, resolves the node of the network
/// and derives the metadata address.
pub fn start(id: String, network: String, mainnet_url: Option<String>) -> (next: (
    PipelineState,
    Action,
))
    ensures
        is_started(id, network, mainnet_url, next),
{
    let identifier = match TokenIdentifier::parse(id.as_str()) {
        Ok(identifier) => identifier,
        Err(error) => {
            return fail(error);
        },
    };
    let url = match Network::named(network.as_str()).get_network_url(mainnet_url) {
        Ok(url) => url,
        Err(error) => {
            return fail(error);
        },
    };
    match crate::address::derive(&identifier) {
        Some(address) => (
            PipelineState::Fetching { network },
            Action::FetchAccount { url, address },
        ),
        None => fail(FetchError::InvalidIdentifier),
    }
}

/// Takes the outcome of the ledger fetch.
pub fn on_account(network: String, account: Option<Vec<u8>>) -> (next: (PipelineState, Action))
    ensures
        is_fetched(network, account, next),
{
    match account {
        Some(bytes) => (PipelineState::Decoding { network, account: bytes }, Action::Continue),
        None => fail(FetchError::FailedToGetAccountData),
    }
}

/// Decodes the account and asks for the document of its record.
pub fn examine(network: String, account: Vec<u8>) -> (next: (PipelineState, Action))
    ensures
        is_examined(network, account, next),
{
    match decode(account.as_slice()) {
        Ok(metadata) => {
            let uri = metadata.data.uri.clone();
            (PipelineState::Enriching { network, metadata }, Action::FetchDocument { uri })
        },
        Err(error) => fail(error),
    }
}

/// Takes the outcome of the enrichment fetch.
pub fn on_document(network: String, metadata: MetadataWrapper, reply: EnrichmentReply) -> (next: (
    PipelineState,
    Action,
))
    ensures
        is_enriched(network, metadata, reply, next),
{
    match reply {
        EnrichmentReply::Answered { status, document } => {
            if accepts_status(status) {
                match document {
                    Some(uri_data) => (
                        PipelineState::Assembled {
                            response: assemble(network, metadata, uri_data),
                        },
                        Action::Respond,
                    ),
                    None => fail(FetchError::FailedToFetchUriData),
                }
            } else {
                fail(FetchError::FailedToFetchUriData)
            }
        },
        EnrichmentReply::Unreachable => fail(FetchError::FailedToFetchUriData),
    }
}

/// One step of the machine: from a state and the event that its stage
/// awaits to the next state and the action to perform. On any other event,
/// and in a final stage, there is no step.
pub fn step(state: PipelineState, event: Event) -> (r: Option<(PipelineState, Action)>)
    ensures
        is_step(state, event, r),
{
    match state {
        PipelineState::Deriving { id, network, mainnet_url } => match event {
            Event::Proceed => Some(start(id, network, mainnet_url)),
            _ => None,
        },
        PipelineState::Fetching { network } => match event {
            Event::LedgerReplied { account } => Some(on_account(network, account)),
            _ => None,
        },
        PipelineState::Decoding { network, account } => match event {
            Event::Proceed => Some(examine(network, account)),
            _ => None,
        },
        PipelineState::Enriching { network, metadata } => match event {
            Event::EnrichmentReplied { reply } => Some(on_document(network, metadata, reply)),
            _ => None,
        },
        _ => None,
    }
}

/// The pipeline only moves forward: a step leaves a stage that is not final
/// and reaches either the stage that follows it or the failure.
pub proof fn steps_go_forward(
    state: PipelineState,
    event: Event,
    next: PipelineState,
    action: Action,
)
    requires
        is_step(state, event, Some((next, action))),
    ensures
        !state.stage_of().is_final(),
        next.stage_of().rank() > state.stage_of().rank(),
        next.stage_of() == Stage::Failed || next.stage_of().rank() == state.stage_of().rank() + 1,
{
}

/// A final stage is never left: from an assembled response or a failure
/// there is no step, whatever the event.
pub proof fn final_stages_rest(state: PipelineState, event: Event, r: Option<(PipelineState, Action)>)
    requires
        state.stage_of().is_final(),
        is_step(state, event, r),
    ensures
        r is None,
{
}

/// The action that a step hands out is the one that the stage reached calls
/// for.
pub proof fn action_fits_stage(
    state: PipelineState,
    event: Event,
    next: PipelineState,
    action: Action,
)
    requires
        is_step(state, event, Some((next, action))),
    ensures
        match next.stage_of() {
            Stage::Deriving => false,
            Stage::Fetching => action is FetchAccount,
            Stage::Decoding => action is Continue,
            Stage::Enriching => action is FetchDocument,
            Stage::Assembled => action is Respond,
            Stage::Failed => action is Reject,
        },
{
}

/// A ledger fetch that failed ends the request with
/// `FailedToGetAccountData`; nothing is decoded.
pub proof fn ledger_failure_ends_request(
    state: PipelineState,
    r: Option<(PipelineState, Action)>,
)
    requires
        state is Fetching,
        is_step(state, Event::LedgerReplied { account: None }, r),
    ensures
        r == Some(failure(FetchError::FailedToGetAccountData)),
{
}

/// Decoding is reached from a ledger fetch that brought bytes, with those
/// bytes, and in no other way.
pub proof fn decoding_follows_fetched_bytes(
    state: PipelineState,
    event: Event,
    next: PipelineState,
    action: Action,
)
    requires
        is_step(state, event, Some((next, action))),
        next is Decoding,
    ensures
        state is Fetching,
        event == (Event::LedgerReplied { account: Some(next->Decoding_account) }),
        next->Decoding_network == state->Fetching_network,
{
}

/// An account too short for the mandatory fields ends the request with
/// `FailedToDeserializeData`.
pub proof fn short_account_ends_request(
    state: PipelineState,
    r: Option<(PipelineState, Action)>,
)
    requires
        state is Decoding,
        state->Decoding_account@.len() < crate::decode::MANDATORY_MIN_LEN,
        is_step(state, Event::Proceed, r),
    ensures
        r == Some(failure(FetchError::FailedToDeserializeData)),
{
    crate::decode::short_bytes_hold_no_record(state->Decoding_account@);
}

/// An enrichment fetch that brought no document ends the request with
/// `FailedToFetchUriData`: where no answer came, where the status is not
/// 200 (404, say), and where the body is no document. The failure holds no
/// part of the record.
pub proof fn enrichment_failure_ends_request(
    state: PipelineState,
    reply: EnrichmentReply,
    r: Option<(PipelineState, Action)>,
)
    requires
        state is Enriching,
        reply is Unreachable || reply->status != STATUS_OK || reply->document is None,
        is_step(state, Event::EnrichmentReplied { reply }, r),
    ensures
        r == Some(failure(FetchError::FailedToFetchUriData)),
{
}

/// A response joins what the request named, what was decoded and what was
/// fetched, each unchanged.
pub proof fn response_joins_unchanged(
    state: PipelineState,
    event: Event,
    next: PipelineState,
    action: Action,
)
    requires
        is_step(state, event, Some((next, action))),
        next is Assembled,
    ensures
        state is Enriching,
        event is EnrichmentReplied,
        brings_document(event->reply),
        next->response.network == state->Enriching_network,
        next->response.metadata == state->metadata,
        next->response.uri_data == event->reply->document->0,
{
}

/// A failure names the stage in which it arose.
pub proof fn failure_names_its_stage(
    state: PipelineState,
    event: Event,
    next: PipelineState,
    action: Action,
)
    requires
        is_step(state, event, Some((next, action))),
        next is Failed,
    ensures
        match state.stage_of() {
            Stage::Deriving => next->error == FetchError::InvalidIdentifier || next->error
                == FetchError::ConfigurationMissing,
            Stage::Fetching => next->error == FetchError::FailedToGetAccountData,
            Stage::Decoding => next->error == FetchError::FailedToDeserializeData,
            Stage::Enriching => next->error == FetchError::FailedToFetchUriData,
            _ => false,
        },
{
}

/// A request that takes four steps has passed every stage but the last:
/// the identifier was read, its node and address were found, and the ledger
/// brought an account that holds a record. Where the enrichment fetch
/// brought a document too, the request ends in the response that joins the
/// name of the network as the request gave it, that record and that
/// document; where it did not, the request fails.
pub proof fn four_steps_end_a_request(
    id: String,
    network: String,
    mainnet_url: Option<String>,
    account: Option<Vec<u8>>,
    reply: EnrichmentReply,
    fetching: (PipelineState, Action),
    decoding: (PipelineState, Action),
    enriching: (PipelineState, Action),
    last: (PipelineState, Action),
)
    requires
        is_step(PipelineState::Deriving { id, network, mainnet_url }, Event::Proceed, Some(fetching)),
        is_step(fetching.0, Event::LedgerReplied { account }, Some(decoding)),
        is_step(decoding.0, Event::Proceed, Some(enriching)),
        is_step(enriching.0, Event::EnrichmentReplied { reply }, Some(last)),
    ensures
        base58_key(id@) is Some,
        mainnet_url is Some,
        metadata_address(base58_key(id@)->0) is Some,
        account is Some,
        holds_record(account->0@),
        brings_document(reply) ==> {
            &&& last.0 is Assembled
            &&& last.1 is Respond
            &&& last.0->response.network == network
            &&& last.0->response.metadata@ == record_in(account->0@)
            &&& last.0->response.uri_data == reply->document->0
        },
        !brings_document(reply) ==> last == failure(FetchError::FailedToFetchUriData),
{
}

} // verus!
