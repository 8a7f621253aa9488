//! The connector to Solana: a placeholder that takes spot orders for
//! simulation and refuses bundles.

use vstd::prelude::*;

verus! {

/// Why the connector refused.
#[derive(Clone, Copy, Debug, PartialEq, Eq, Structural)]
pub enum SolanaConnectorError {
    JitoUnsupported,
}

impl SolanaConnectorError {
    /// The text of the error.
    pub fn message(&self) -> (text: String)
        ensures
            text@ == "jito bundle submission not yet implemented"@,
    {
        String::from_str("jito bundle submission not yet implemented")
    }
}

/// What an executor on Solana offers. A transaction is given as its bytes.
pub trait SolanaExecutor {
    fn submit_bundle(&self, txs: Vec<Vec<u8>>) -> Result<(), SolanaConnectorError>;

    fn place_spot_order(&self, market: String, size: u64) -> Result<(), SolanaConnectorError>;
}

/// The placeholder for a bundle relay, with the endpoint it would talk to.
#[derive(Debug, PartialEq, Eq)]
pub struct JitoPlaceholder {
    pub url: String,
}

impl JitoPlaceholder {
    pub fn new(url: &str) -> (placeholder: JitoPlaceholder)
        ensures
            placeholder.url@ == url@,
    {
        JitoPlaceholder { url: String::from_str(url) }
    }
}

impl SolanaExecutor for JitoPlaceholder {
    /// Refuses every bundle.
    fn submit_bundle(&self, txs: Vec<Vec<u8>>) -> (r: Result<(), SolanaConnectorError>)
        ensures
            r == Err::<(), SolanaConnectorError>(SolanaConnectorError::JitoUnsupported),
    {
        Err(SolanaConnectorError::JitoUnsupported)
    }

    /// Accepts every order; nothing is placed.
    fn place_spot_order(&self, market: String, size: u64) -> (r: Result<(), SolanaConnectorError>)
        ensures
            r is Ok,
    {
        Ok(())
    }
}

} // verus!
