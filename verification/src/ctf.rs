//! Routing decisions of the Conditional Token Framework client: which contract
//! address each constructor binds, whether the negative-risk adapter is there
//! for the two-argument calls, and how a mined transaction's receipt becomes a
//! response or an error.
use crate::types::{Address, B256};
use vstd::prelude::*;

verus! {

/// The contract addresses configured for a chain.
#[derive(Clone, Copy, Debug, PartialEq, Eq)]
pub struct ContractConfig {
    pub conditional_tokens: Address,
    /// The first-version negative-risk adapter, with its two-argument calls.
    pub neg_risk_adapter: Option<Address>,
    /// The second-version collateral adapter of standard markets.
    pub ctf_collateral_adapter: Option<Address>,
    /// The second-version collateral adapter of negative-risk markets.
    pub neg_risk_ctf_collateral_adapter: Option<Address>,
}

/// The contract operations that send a transaction.
#[derive(Clone, Copy, Debug, PartialEq, Eq, Structural)]
pub enum TxOperation {
    Split,
    Merge,
    Redeem,
    NegRiskSplit,
    NegRiskMerge,
    NegRiskRedeem,
}

/// Why a contract operation failed.
#[derive(Clone, Copy, Debug, PartialEq, Eq)]
pub enum CtfError {
    /// No configuration for the chain; `neg_risk` tells which lookup failed.
    ConfigNotFound { chain_id: u64, neg_risk: bool },
    /// The chain has no second-version collateral adapter for standard markets.
    StandardAdapterNotConfigured { chain_id: u64 },
    /// The chain has no first-version negative-risk adapter.
    NegRiskAdapterMissing { chain_id: u64 },
    /// The chain has no second-version collateral adapter for negative-risk markets.
    NegRiskV2AdapterNotConfigured { chain_id: u64 },
    /// A two-argument split or merge on a client without the first-version adapter.
    NegRiskAdapterNotConfigured,
    /// A negative-risk redeem on a client without the first-version adapter.
    NegRiskAdapterNotAvailable,
    /// The transaction was mined but reverted.
    Reverted { operation: TxOperation, transaction_hash: B256, block_number: u64 },
    /// The receipt carries no block number.
    BlockNumberMissing,
}

/// The transaction and block of a successful operation.
#[derive(Clone, Copy, Debug, PartialEq, Eq)]
pub struct TransactionResponse {
    pub transaction_hash: B256,
    pub block_number: u64,
}

/// Client for interacting with the Conditional Token Framework contract: the
/// address the five-argument calls go to and, when configured, the
/// first-version negative-risk adapter for the two-argument calls.
#[derive(Clone, Copy, Debug, PartialEq, Eq)]
pub struct Client {
    pub contract: Address,
    pub neg_risk_adapter: Option<Address>,
}

/// What `Client::new` gives for the standard configuration of the chain.
pub open spec fn new_client(config: Option<ContractConfig>, chain_id: u64) -> Result<Client, CtfError> {
    match config {
        None => Err(CtfError::ConfigNotFound { chain_id, neg_risk: false }),
        Some(c) => Ok(Client { contract: c.conditional_tokens, neg_risk_adapter: None }),
    }
}

/// What `Client::with_neg_risk` gives for the negative-risk configuration of the chain.
pub open spec fn neg_risk_client(config: Option<ContractConfig>, chain_id: u64) -> Result<
    Client,
    CtfError,
> {
    match config {
        None => Err(CtfError::ConfigNotFound { chain_id, neg_risk: true }),
        Some(c) => match c.neg_risk_adapter {
            None => Err(CtfError::NegRiskAdapterMissing { chain_id }),
            Some(a) => Ok(Client { contract: c.conditional_tokens, neg_risk_adapter: Some(a) }),
        },
    }
}

/// What `Client::with_neg_risk_v2` gives for the negative-risk configuration of the chain.
pub open spec fn neg_risk_v2_client(config: Option<ContractConfig>, chain_id: u64) -> Result<
    Client,
    CtfError,
> {
    match config {
        None => Err(CtfError::ConfigNotFound { chain_id, neg_risk: true }),
        Some(c) => match c.neg_risk_ctf_collateral_adapter {
            None => Err(CtfError::NegRiskV2AdapterNotConfigured { chain_id }),
            Some(a) => Ok(Client { contract: a, neg_risk_adapter: None }),
        },
    }
}

/// What `Client::with_standard_v2` gives for the standard configuration of the chain.
pub open spec fn standard_v2_client(config: Option<ContractConfig>, chain_id: u64) -> Result<
    Client,
    CtfError,
> {
    match config {
        None => Err(CtfError::ConfigNotFound { chain_id, neg_risk: false }),
        Some(c) => match c.ctf_collateral_adapter {
            None => Err(CtfError::StandardAdapterNotConfigured { chain_id }),
            Some(a) => Ok(Client { contract: a, neg_risk_adapter: None }),
        },
    }
}

/// Where a two-argument negative-risk operation is sent, or why it cannot be.
pub open spec fn neg_risk_target(client: Client, operation: TxOperation) -> Result<Address, CtfError> {
    match client.neg_risk_adapter {
        Some(a) => Ok(a),
        None => if operation == TxOperation::NegRiskRedeem {
            Err(CtfError::NegRiskAdapterNotAvailable)
        } else {
            Err(CtfError::NegRiskAdapterNotConfigured)
        },
    }
}

/// What a mined transaction's receipt makes of an operation.
pub open spec fn transaction_result(
    operation: TxOperation,
    transaction_hash: B256,
    succeeded: bool,
    block_number: Option<u64>,
) -> Result<TransactionResponse, CtfError> {
    if !succeeded {
        Err(
            CtfError::Reverted {
                operation,
                transaction_hash,
                block_number: block_number.unwrap_or(0),
            },
        )
    } else {
        match block_number {
            None => Err(CtfError::BlockNumberMissing),
            Some(b) => Ok(TransactionResponse { transaction_hash, block_number: b }),
        }
    }
}

impl Client {
    /// Creates a new CTF client for the chain, from its standard contract
    /// configuration (`None` when the chain has none).
    pub fn new(config: Option<ContractConfig>, chain_id: u64) -> (r: Result<Client, CtfError>)
        ensures
            r == new_client(config, chain_id),
    {
        match config {
            None => Err(CtfError::ConfigNotFound { chain_id, neg_risk: false }),
            Some(c) => Ok(Client { contract: c.conditional_tokens, neg_risk_adapter: None }),
        }
    }

    /// Creates a new CTF client with `NegRisk` adapter support, from the chain's
    /// negative-risk contract configuration; an error when the chain has no
    /// configuration or no `NegRisk` adapter.
    pub fn with_neg_risk(config: Option<ContractConfig>, chain_id: u64) -> (r: Result<Client, CtfError>)
        ensures
            r == neg_risk_client(config, chain_id),
    {
        let c = match config {
            None => return Err(CtfError::ConfigNotFound { chain_id, neg_risk: true }),
            Some(c) => c,
        };
        match c.neg_risk_adapter {
            None => Err(CtfError::NegRiskAdapterMissing { chain_id }),
            Some(a) => Ok(Client { contract: c.conditional_tokens, neg_risk_adapter: Some(a) }),
        }
    }

    /// Creates a CTF client whose five-argument calls go through the
    /// second-version negative-risk collateral adapter; it has no first-version
    /// adapter, so the two-argument calls are refused.
    pub fn with_neg_risk_v2(config: Option<ContractConfig>, chain_id: u64) -> (r: Result<
        Client,
        CtfError,
    >)
        ensures
            r == neg_risk_v2_client(config, chain_id),
    {
        let c = match config {
            None => return Err(CtfError::ConfigNotFound { chain_id, neg_risk: true }),
            Some(c) => c,
        };
        let adapter = match c.neg_risk_ctf_collateral_adapter {
            None => return Err(CtfError::NegRiskV2AdapterNotConfigured { chain_id }),
            Some(a) => a,
        };
        Ok(Client { contract: adapter, neg_risk_adapter: None })
    }

    /// Creates a CTF client whose five-argument calls go through the
    /// second-version collateral adapter of standard markets.
    pub fn with_standard_v2(config: Option<ContractConfig>, chain_id: u64) -> (r: Result<
        Client,
        CtfError,
    >)
        ensures
            r == standard_v2_client(config, chain_id),
    {
        let c = match config {
            None => return Err(CtfError::ConfigNotFound { chain_id, neg_risk: false }),
            Some(c) => c,
        };
        let adapter = match c.ctf_collateral_adapter {
            None => return Err(CtfError::StandardAdapterNotConfigured { chain_id }),
            Some(a) => a,
        };
        Ok(Client { contract: adapter, neg_risk_adapter: None })
    }

    /// The address that the five-argument calls (ids, split, merge, redeem) go to.
    pub fn contract_address(&self) -> (r: Address)
        ensures
            r == self.contract,
    {
        self.contract
    }

    /// The first-version negative-risk adapter that a two-argument operation
    /// goes to, or the error it fails with when the client has none.
    pub fn neg_risk_adapter_for(&self, operation: TxOperation) -> (r: Result<Address, CtfError>)
        ensures
            r == neg_risk_target(*self, operation),
    {
        match self.neg_risk_adapter {
            Some(a) => Ok(a),
            None => {
                if operation == TxOperation::NegRiskRedeem {
                    Err(CtfError::NegRiskAdapterNotAvailable)
                } else {
                    Err(CtfError::NegRiskAdapterNotConfigured)
                }
            },
        }
    }

    /// Turns the receipt of a mined transaction into the operation's response:
    /// an error when it reverted or carries no block number.
    pub fn transaction_outcome(
        operation: TxOperation,
        transaction_hash: B256,
        succeeded: bool,
        block_number: Option<u64>,
    ) -> (r: Result<TransactionResponse, CtfError>)
        ensures
            r == transaction_result(operation, transaction_hash, succeeded, block_number),
    {
        if !succeeded {
            return Err(
                CtfError::Reverted {
                    operation,
                    transaction_hash,
                    block_number: block_number.unwrap_or(0),
                },
            );
        }
        match block_number {
            None => Err(CtfError::BlockNumberMissing),
            Some(b) => Ok(TransactionResponse { transaction_hash, block_number: b }),
        }
    }
}

/// Only a client made by `with_neg_risk` can make the two-argument
/// negative-risk calls, and every such client can: one made by `new`,
/// `with_neg_risk_v2` or `with_standard_v2` refuses every one of them.
pub proof fn law_only_v1_neg_risk_clients_reach_the_adapter(
    config: Option<ContractConfig>,
    chain_id: u64,
    operation: TxOperation,
)
    ensures
        new_client(config, chain_id) matches Ok(c) ==> neg_risk_target(c, operation) is Err,
        neg_risk_v2_client(config, chain_id) matches Ok(c) ==> neg_risk_target(c, operation) is Err,
        standard_v2_client(config, chain_id) matches Ok(c) ==> neg_risk_target(c, operation) is Err,
        neg_risk_client(config, chain_id) matches Ok(c) ==> neg_risk_target(c, operation) == Ok::<
            Address,
            CtfError,
        >(config->0.neg_risk_adapter->0),
        neg_risk_client(config, chain_id) is Ok <==> (config is Some && config->0.neg_risk_adapter is Some),
{
}

/// The second-version clients send their five-argument calls to the collateral
/// adapters, never to the conditional-tokens contract named in the configuration
/// (unless the configuration gives the same address to both).
pub proof fn law_v2_clients_bind_the_adapters(config: ContractConfig, chain_id: u64)
    ensures
        neg_risk_v2_client(Some(config), chain_id) matches Ok(c) ==> Some(c.contract)
            == config.neg_risk_ctf_collateral_adapter,
        standard_v2_client(Some(config), chain_id) matches Ok(c) ==> Some(c.contract)
            == config.ctf_collateral_adapter,
        new_client(Some(config), chain_id) matches Ok(c) ==> c.contract == config.conditional_tokens,
{
}

/// A receipt gives a response exactly when the transaction succeeded and the
/// receipt has a block number, and the response names that transaction and block.
pub proof fn law_receipt_outcome(
    operation: TxOperation,
    transaction_hash: B256,
    succeeded: bool,
    block_number: Option<u64>,
)
    ensures
        transaction_result(operation, transaction_hash, succeeded, block_number) is Ok <==> (succeeded
            && block_number is Some),
        transaction_result(operation, transaction_hash, succeeded, block_number) matches Ok(resp)
            ==> resp.transaction_hash == transaction_hash && Some(resp.block_number) == block_number,
{
}

} // verus!
