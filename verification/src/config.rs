//! What the lifecycle has to be told before it can reach a ledger.

use vstd::prelude::*;
use crate::error::LifecycleError;

verus! {

/// How durable a confirmation has to be before the ledger reports it.
#[derive(Clone, Copy, Debug, PartialEq, Eq, Structural)]
pub enum Commitment {
    /// Fastest and least durable: a later rollback may undo it.
    Processed,
    /// Between the two.
    Confirmed,
    /// Slowest and most durable.
    Finalized,
}

/// Where the ledger is reached, and how durable its confirmations are to be.
#[derive(Clone, Debug, PartialEq, Eq)]
pub struct GatewayConfig {
    /// The URL of the endpoint.
    pub endpoint: String,
    /// The commitment level asked for.
    pub commitment: Commitment,
}

impl Commitment {
    /// The level used where none is chosen: `Processed`, for responsiveness.
    pub open spec fn standard() -> Commitment {
        Commitment::Processed
    }

    /// The place of the level in the order of durability: 0 for `Processed`,
    /// 1 for `Confirmed`, 2 for `Finalized`.
    pub open spec fn durability(self) -> int {
        match self {
            Commitment::Processed => 0,
            Commitment::Confirmed => 1,
            Commitment::Finalized => 2,
        }
    }

    /// Whether a confirmation at this level is at least as durable as one at
    /// `other`.
    pub fn at_least(&self, other: &Commitment) -> (durable: bool)
        ensures
            durable == (self.durability() >= other.durability()),
    {
        match (self, other) {
            (_, Commitment::Processed) => true,
            (Commitment::Processed, _) => false,
            (_, Commitment::Confirmed) => true,
            (Commitment::Finalized, Commitment::Finalized) => true,
            (Commitment::Confirmed, Commitment::Finalized) => false,
        }
    }
}

impl Default for Commitment {
    fn default() -> (commitment: Commitment)
        ensures
            commitment == Commitment::standard(),
    {
        Commitment::Processed
    }
}

/// Checks what the process was configured with. An empty endpoint or an
/// empty signer key is a `ConfigurationError`; the key itself is not kept.
/// Where no commitment level is chosen, `Processed` is.
pub fn configure(endpoint: &str, signer_key: &str, commitment: Option<Commitment>) -> (configured:
    Result<GatewayConfig, LifecycleError>)
    ensures
        match configured {
            Ok(config) => {
                &&& endpoint@.len() > 0
                &&& signer_key@.len() > 0
                &&& config.endpoint@ == endpoint@
                &&& config.commitment == match commitment {
                    Some(chosen) => chosen,
                    None => Commitment::standard(),
                }
            },
            Err(error) => error == LifecycleError::ConfigurationError && (endpoint@.len() == 0
                || signer_key@.len() == 0),
        },
{
    if endpoint.is_empty() || signer_key.is_empty() {
        return Err(LifecycleError::ConfigurationError);
    }
    let commitment = match commitment {
        Some(chosen) => chosen,
        None => Commitment::Processed,
    };
    Ok(GatewayConfig { endpoint: endpoint.to_owned(), commitment })
}

} // verus!
