//! Chain-agnostic identifiers shared by every module.

use vstd::prelude::*;

verus! {

/// A settlement chain.
#[derive(Debug, Clone, Copy, PartialEq, Eq, Structural, Hash)]
pub enum Chain {
    Ethereum,
    Base,
    Solana,
    Polygon,
    Arbitrum,
    Celo,
    ZkSync,
    Robinhood,
}

/// An on-chain address, kept as the text the agent supplied.
#[derive(Debug)]
pub struct Address(pub String);

impl Address {
    pub fn new(s: &str) -> (a: Address)
        ensures
            a.0@ == s@,
    {
        Address(s.to_owned())
    }

    pub fn as_str(&self) -> (s: &str)
        ensures
            s@ == self.0@,
    {
        self.0.as_str()
    }
}

impl Clone for Address {
    fn clone(&self) -> (res: Self)
        ensures
            res == *self,
    {
        Address(self.0.clone())
    }
}

/// The identifier of an agent.
#[derive(Debug)]
pub struct AgentId(pub String);

impl AgentId {
    pub fn new(s: &str) -> (a: AgentId)
        ensures
            a.0@ == s@,
    {
        AgentId(s.to_owned())
    }

    pub fn as_str(&self) -> (s: &str)
        ensures
            s@ == self.0@,
    {
        self.0.as_str()
    }
}

impl Clone for AgentId {
    fn clone(&self) -> (res: Self)
        ensures
            res == *self,
    {
        AgentId(self.0.clone())
    }
}

} // verus!
