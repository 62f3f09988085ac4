//! Trust signals: risk scores produced by outside providers, and the bands
//! the policy engine reads them in.

use vstd::prelude::*;
use crate::transaction::Address;

verus! {

/// A trust signal for an address: 0 is trusted, 100 is high risk.
#[derive(Debug, Clone, Copy, PartialEq, Eq, Structural)]
pub struct RiskScore(pub u8);

/// Low risk: at most 25.
pub open spec fn low_risk(v: u8) -> bool {
    v <= 25
}

/// Medium risk: above 25 and at most 60.
pub open spec fn medium_risk(v: u8) -> bool {
    25 < v <= 60
}

/// High risk: above 60.
pub open spec fn high_risk(v: u8) -> bool {
    v > 60
}

impl RiskScore {
    /// A score, capped at 100.
    pub fn new(score: u8) -> (s: Self)
        ensures
            s.0 == (if score <= 100 { score } else { 100 }),
    {
        if score <= 100 { RiskScore(score) } else { RiskScore(100) }
    }

    pub fn is_low_risk(&self) -> (r: bool)
        ensures
            r == low_risk(self.0),
    {
        self.0 <= 25
    }

    pub fn is_medium_risk(&self) -> (r: bool)
        ensures
            r == medium_risk(self.0),
    {
        self.0 > 25 && self.0 <= 60
    }

    pub fn is_high_risk(&self) -> (r: bool)
        ensures
            r == high_risk(self.0),
    {
        self.0 > 60
    }

    pub fn value(&self) -> (v: u8)
        ensures
            v == self.0,
    {
        self.0
    }
}

/// Every score falls in exactly one band: low, medium or high.
pub proof fn lemma_risk_bands_partition(s: RiskScore)
    ensures
        low_risk(s.0) || medium_risk(s.0) || high_risk(s.0),
        !(low_risk(s.0) && medium_risk(s.0)),
        !(low_risk(s.0) && high_risk(s.0)),
        !(medium_risk(s.0) && high_risk(s.0)),
{
}

/// A score built from any input never exceeds 100.
pub proof fn lemma_new_score_in_range(score: u8, s: RiskScore)
    requires
        s.0 == (if score <= 100 { score } else { 100 }),
    ensures
        s.0 <= 100,
        score <= 100 ==> s.0 == score,
{
}

/// Why a trust-signal provider could not answer.
#[derive(Debug)]
pub enum TrustSignalError {
    ProviderError(String),
    Timeout,
    RateLimited,
}

/// The Webacy trust-signal client.
#[derive(Debug)]
pub struct WebacyClient {
    pub api_key: String,
    pub base_url: String,
}

impl WebacyClient {
    /// A client of the public Webacy API.
    pub fn new(api_key: &str) -> (c: Self)
        ensures
            c.api_key@ == api_key@,
            c.base_url@ == "https://api.webacy.com"@,
    {
        WebacyClient { api_key: api_key.to_owned(), base_url: "https://api.webacy.com".to_owned() }
    }

    /// The same client talking to another base URL.
    pub fn with_base_url(self, base_url: &str) -> (c: Self)
        ensures
            c.api_key == self.api_key,
            c.base_url@ == base_url@,
    {
        WebacyClient { base_url: base_url.to_owned(), ..self }
    }
}

/// A source of trust signals about addresses (a reputation service or an
/// internal model).
pub trait TrustSignalProvider {
    /// The signal for `address`: a risk score from 0 to 100.
    fn address_risk(&self, address: &Address) -> (r: Result<RiskScore, TrustSignalError>)
        ensures
            r matches Ok(s) ==> s.0 <= 100;

    /// The provider's name.
    fn provider_name(&self) -> &str;
}

impl TrustSignalProvider for WebacyClient {
    /// Every address is reported as trusted (score 0).
    fn address_risk(&self, address: &Address) -> (r: Result<RiskScore, TrustSignalError>)
        ensures
            r == Ok::<RiskScore, TrustSignalError>(RiskScore(0)),
    {
        Ok(RiskScore::new(0))
    }

    fn provider_name(&self) -> (n: &str)
        ensures
            n@ == "Webacy"@,
    {
        "Webacy"
    }
}

} // verus!
