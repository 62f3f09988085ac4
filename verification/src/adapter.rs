//! The values exchanged with chain adapters: identities, simulated
//! outcomes, receipts and errors.

use vstd::prelude::*;
use crate::transaction::{Address, AgentId, Chain};

verus! {

/// The result of authenticating an agent on a chain.
#[derive(Debug)]
pub struct AgentIdentity {
    pub agent_id: AgentId,
    pub chain: Chain,
    pub address: Address,
    pub reputation: Option<u8>,
}

/// The predicted outcome of simulating a transaction before execution:
/// balance changes by address (one entry per address), logs, and whether
/// it would succeed.
#[derive(Debug)]
pub struct SimulationOutcome {
    pub balance_changes: Vec<(String, i64)>,
    pub logs: Vec<String>,
    pub success: bool,
}

/// The receipt of a transaction executed on chain.
#[derive(Debug)]
pub struct ExecutionReceipt {
    pub tx_hash: String,
    pub block_number: Option<u64>,
    pub success: bool,
}

/// Why a chain adapter failed.
#[derive(Debug)]
pub enum TrustAdapterError {
    AuthenticationFailed(String),
    SimulationFailed(String),
    ExecutionFailed(String),
    SettlementFailed(String),
    UnsupportedChain(String),
    RpcError(String),
}

/// A chain adapter: what the firewall asks of a chain before and after it
/// lets a transfer through. A transfer is given by its sender, receiver and
/// amount.
pub trait TrustAdapter {
    /// Resolves the on-chain identity of an agent's address.
    fn authenticate(&self, address: &Address) -> Result<AgentIdentity, TrustAdapterError>;

    /// Simulates a transfer and predicts its balance changes.
    fn verify(&self, from: &Address, to: &Address, amount: u64) -> Result<SimulationOutcome, TrustAdapterError>;

    /// Submits a transfer on chain and returns its receipt.
    fn execute(&self, from: &Address, to: &Address, amount: u64) -> Result<ExecutionReceipt, TrustAdapterError>;

    /// Records an executed transfer.
    fn settle(&self, receipt: &ExecutionReceipt) -> Result<(), TrustAdapterError>;

    /// The name of the chain the adapter targets.
    fn chain_name(&self) -> &str;

    /// The chain the adapter targets.
    fn chain(&self) -> Chain;
}

} // verus!
