//! The error type of the indexer, one variant per failure domain.

use vstd::prelude::*;
use vstd::std_specs::convert::FromSpecImpl;
use vstd::string::StringExecFns;

verus! {

/// The error of the RPC client, carried as it is.
#[verifier::external_type_specification]
#[verifier::external_body]
pub struct ExRpcError(bitcoincore_rpc::Error);

/// The error of the HTTP client, carried as it is.
#[verifier::external_type_specification]
#[verifier::external_body]
pub struct ExTransportError(reqwest::Error);

/// Why a block could not be indexed, or why the indexer could not start.
#[derive(Debug)]
pub enum IndexerError {
    /// A query to the chain-data provider failed.
    BitcoinRPC(bitcoincore_rpc::Error),
    /// The notification could not be transported.
    Network(reqwest::Error),
    /// The time in a block header cannot be represented as a UTC instant.
    InvalidTimestamp,
    /// A locking script encodes no address.
    ScriptParsing(String),
    /// The notification sink answered with a status other than success.
    WebhookFailed(String),
    /// The starting height lies outside the chain.
    InvalidStartBlock(String),
}

/// Model of an [`IndexerError`]: its messages as sequences of characters.
pub enum IndexerErrorView {
    BitcoinRPC(bitcoincore_rpc::Error),
    Network(reqwest::Error),
    InvalidTimestamp,
    ScriptParsing(Seq<char>),
    WebhookFailed(Seq<char>),
    InvalidStartBlock(Seq<char>),
}

impl View for IndexerError {
    type V = IndexerErrorView;

    open spec fn view(&self) -> IndexerErrorView {
        match self {
            IndexerError::BitcoinRPC(e) => IndexerErrorView::BitcoinRPC(*e),
            IndexerError::Network(e) => IndexerErrorView::Network(*e),
            IndexerError::InvalidTimestamp => IndexerErrorView::InvalidTimestamp,
            IndexerError::ScriptParsing(msg) => IndexerErrorView::ScriptParsing(msg@),
            IndexerError::WebhookFailed(msg) => IndexerErrorView::WebhookFailed(msg@),
            IndexerError::InvalidStartBlock(msg) => IndexerErrorView::InvalidStartBlock(msg@),
        }
    }
}

/// `text` begins with `prefix`.
pub open spec fn has_prefix(text: Seq<char>, prefix: Seq<char>) -> bool {
    prefix.len() <= text.len() && text.subrange(0, prefix.len() as int) == prefix
}

/// Writes a `bitcoincore_rpc::Error` with its `Display` impl. The text
/// depends on what the error holds, so nothing is stated of it.
#[verifier::external_body]
fn rpc_error_text(err: &bitcoincore_rpc::Error) -> (text: String) {
    err.to_string()
}

/// Writes a `reqwest::Error` with its `Display` impl. The text depends on
/// what the error holds, so nothing is stated of it.
#[verifier::external_body]
fn transport_error_text(err: &reqwest::Error) -> (text: String) {
    err.to_string()
}

impl IndexerError {
    /// The message for a person to read: a prefix that names the failure
    /// domain, then the detail.
    pub fn message(&self) -> (text: String)
        ensures
            match self {
                IndexerError::BitcoinRPC(_) => has_prefix(text@, "Bitcoin RPC error: "@),
                IndexerError::Network(_) => has_prefix(text@, "Network error: "@),
                IndexerError::InvalidTimestamp => text@ == "Invalid timestamp"@,
                IndexerError::ScriptParsing(msg) => text@ == "Script parsing error: "@ + msg@,
                IndexerError::WebhookFailed(msg) => text@ == "Webhook failed: "@ + msg@,
                IndexerError::InvalidStartBlock(msg) => text@ == "Invalid start block: "@ + msg@,
            },
    {
        match self {
            IndexerError::BitcoinRPC(e) => {
                let detail = rpc_error_text(e);
                let text = String::from_str("Bitcoin RPC error: ").concat(detail.as_str());
                assert(text@.subrange(0, "Bitcoin RPC error: "@.len() as int)
                    =~= "Bitcoin RPC error: "@);
                text
            },
            IndexerError::Network(e) => {
                let detail = transport_error_text(e);
                let text = String::from_str("Network error: ").concat(detail.as_str());
                assert(text@.subrange(0, "Network error: "@.len() as int) =~= "Network error: "@);
                text
            },
            IndexerError::InvalidTimestamp => String::from_str("Invalid timestamp"),
            IndexerError::ScriptParsing(msg) => String::from_str("Script parsing error: ").concat(
                msg.as_str(),
            ),
            IndexerError::WebhookFailed(msg) => String::from_str("Webhook failed: ").concat(
                msg.as_str(),
            ),
            IndexerError::InvalidStartBlock(msg) => String::from_str("Invalid start block: ").concat(
                msg.as_str(),
            ),
        }
    }
}

impl From<bitcoincore_rpc::Error> for IndexerError {
    fn from(err: bitcoincore_rpc::Error) -> (e: IndexerError) {
        IndexerError::BitcoinRPC(err)
    }
}

impl FromSpecImpl<bitcoincore_rpc::Error> for IndexerError {
    open spec fn obeys_from_spec() -> bool {
        true
    }

    open spec fn from_spec(err: bitcoincore_rpc::Error) -> IndexerError {
        IndexerError::BitcoinRPC(err)
    }
}

impl From<reqwest::Error> for IndexerError {
    fn from(err: reqwest::Error) -> (e: IndexerError) {
        IndexerError::Network(err)
    }
}

impl FromSpecImpl<reqwest::Error> for IndexerError {
    open spec fn obeys_from_spec() -> bool {
        true
    }

    open spec fn from_spec(err: reqwest::Error) -> IndexerError {
        IndexerError::Network(err)
    }
}

} // verus!
