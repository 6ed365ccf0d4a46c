//! The fixed client configuration and the certificate trust policy.
//!
//! One configuration value is built before any request and never changed:
//! a 10-second per-request timeout, no redirects, and a fixed user-agent
//! string. Certificate verification is a pluggable strategy; the policy
//! this tool ships accepts every certificate, deliberately — it probes
//! endpoints whose certificate validity is not the property under test.

use vstd::prelude::*;
use vstd::string::StringExecFns;

verus! {

/// Per-request timeout in seconds, connect and read combined.
pub const TIMEOUT_SECS: u64 = 10;

/// How many redirects are followed: none. A 3xx answer is judged as the
/// literal response it is.
pub const MAX_REDIRECTS: u32 = 0;

/// The fixed User-Agent header sent with every request.
pub open spec fn spec_user_agent() -> Seq<char> {
    "mini-health-check/0.1"@
}

/// The fixed User-Agent header, as an owned string.
pub fn user_agent() -> (s: String)
    ensures
        s@ == spec_user_agent(),
{
    String::from_str("mini-health-check/0.1")
}

/// The one HTTP client configuration: built once at startup, immutable for
/// the life of the process, reused for every request.
pub struct ClientConfig {
    /// Total wall time allowed for one request, in seconds.
    pub timeout_secs: u64,
    /// How many redirects the client may follow.
    pub max_redirects: u32,
    /// The User-Agent header value.
    pub user_agent: String,
}

/// A well-formed configuration carries exactly the fixed options.
pub open spec fn config_wf(c: ClientConfig) -> bool {
    &&& c.timeout_secs == TIMEOUT_SECS
    &&& c.max_redirects == MAX_REDIRECTS
    &&& c.user_agent@ == spec_user_agent()
}

impl ClientConfig {
    /// Builds the fixed configuration: 10-second timeout, zero redirects,
    /// the fixed user-agent string.
    pub fn new() -> (c: ClientConfig)
        ensures
            config_wf(c),
            c.timeout_secs == 10,
            c.max_redirects == 0,
    {
        ClientConfig { timeout_secs: TIMEOUT_SECS, max_redirects: MAX_REDIRECTS, user_agent: user_agent() }
    }
}

/// A pluggable server-certificate verification strategy: one decision,
/// from the presented chain (DER bytes, end entity first), the server name
/// and the present time, to accept or reject. A stricter strategy can
/// replace the default without touching any call site.
pub trait CertificatePolicy {
    /// Which presentations the policy accepts.
    spec fn spec_accepts(&self, chain: Seq<Seq<u8>>, server_name: Seq<u8>, now_secs: u64) -> bool;

    /// Decides whether a presented certificate chain is trusted for this
    /// server name at this time.
    fn accepts(&self, chain: &Vec<Vec<u8>>, server_name: &Vec<u8>, now_secs: u64) -> (r: bool)
        ensures
            r == self.spec_accepts(chain.deep_view(), server_name@, now_secs),
    ;
}

/// The deliberate trust policy of this tool: every certificate is
/// accepted, whatever its chain, name, expiry or issuer.
pub struct AcceptAllCertificates;

impl CertificatePolicy for AcceptAllCertificates {
    open spec fn spec_accepts(
        &self,
        chain: Seq<Seq<u8>>,
        server_name: Seq<u8>,
        now_secs: u64,
    ) -> bool {
        true
    }

    fn accepts(&self, chain: &Vec<Vec<u8>>, server_name: &Vec<u8>, now_secs: u64) -> (r: bool) {
        true
    }
}

/// Certificate bypass: the accept-all policy accepts every presentation,
/// so certificate validity never influences a health verdict — an expired,
/// self-signed or mismatched certificate leaves the status code as the
/// only thing judged.
pub proof fn lemma_accept_all(
    policy: AcceptAllCertificates,
    chain: Seq<Seq<u8>>,
    server_name: Seq<u8>,
    now_secs: u64,
)
    ensures
        policy.spec_accepts(chain, server_name, now_secs),
{
}

} // verus!
