//! The rules the policy engine evaluates.

use vstd::prelude::*;
use crate::transaction::Address;

verus! {

/// One rule of the policy engine. Floating-point parameters are held as
/// their IEEE-754 bit patterns and carried unchanged.
#[derive(Debug)]
pub enum PolicyRule {
    AmountLimit { max_per_transaction: u64, max_per_24h: Option<u64>, currency: String },
    Destination { allowlist: Vec<Address>, blocklist: Vec<Address> },
    Frequency { max_transactions_per_hour: u32 },
    HITL { trigger_above: u64, timeout_seconds: u64 },
    Reputation { minimum_score: u8, elevated_limit_multiplier_bits: Option<u64> },
    TxTypeAllowlist { allowed: Vec<String> },
    StakeWeighted { base_limit: u64, min_stake: u64, stake_multiplier_bits: u64, depth_decay_factor_bits: u64 },
    Geofence { lat_min_bits: u64, lon_min_bits: u64, lat_max_bits: u64, lon_max_bits: u64 },
    SpeedLimit { max_speed_mps_bits: u64 },
    EnergyBudget { max_joules_24h: u64 },
    OperatingHours { min_hour: u8, max_hour: u8 },
}

/// The name of a rule's kind.
pub open spec fn rule_name_of(r: PolicyRule) -> Seq<char> {
    match r {
        PolicyRule::AmountLimit { .. } => "amount_limit"@,
        PolicyRule::Destination { .. } => "destination"@,
        PolicyRule::Frequency { .. } => "frequency"@,
        PolicyRule::HITL { .. } => "hitl"@,
        PolicyRule::Reputation { .. } => "reputation"@,
        PolicyRule::TxTypeAllowlist { .. } => "tx_type_allowlist"@,
        PolicyRule::StakeWeighted { .. } => "stake_weighted"@,
        PolicyRule::Geofence { .. } => "geofence"@,
        PolicyRule::SpeedLimit { .. } => "speed_limit"@,
        PolicyRule::EnergyBudget { .. } => "energy_budget"@,
        PolicyRule::OperatingHours { .. } => "operating_hours"@,
    }
}

impl PolicyRule {
    /// The name of the rule's kind, in snake case.
    pub fn rule_name(&self) -> (n: &'static str)
        ensures
            n@ == rule_name_of(*self),
    {
        match self {
            PolicyRule::AmountLimit { .. } => "amount_limit",
            PolicyRule::Destination { .. } => "destination",
            PolicyRule::Frequency { .. } => "frequency",
            PolicyRule::HITL { .. } => "hitl",
            PolicyRule::Reputation { .. } => "reputation",
            PolicyRule::TxTypeAllowlist { .. } => "tx_type_allowlist",
            PolicyRule::StakeWeighted { .. } => "stake_weighted",
            PolicyRule::Geofence { .. } => "geofence",
            PolicyRule::SpeedLimit { .. } => "speed_limit",
            PolicyRule::EnergyBudget { .. } => "energy_budget",
            PolicyRule::OperatingHours { .. } => "operating_hours",
        }
    }
}

} // verus!
