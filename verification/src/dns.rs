//! DNS provider configuration consumed by the install plan.

use vstd::prelude::*;

verus! {

/// The supported DNS providers.
#[derive(Clone, Copy, PartialEq, Eq, Structural, Debug)]
pub enum Kind {
    Cloudflare,
    QoveryDns,
}

/// Credentials of the Cloudflare provider.
#[derive(Clone, Debug)]
pub struct CloudflareDnsConfig {
    pub cloudflare_email: String,
    pub cloudflare_api_token: String,
}

/// Endpoint and credentials of the managed DNS provider.
#[derive(Clone, Debug)]
pub struct QoveryDnsConfig {
    pub api_url: String,
    pub api_key: String,
}

/// The configuration of the DNS provider in use.
#[derive(Clone, Debug)]
pub enum DnsProviderConfiguration {
    Cloudflare(CloudflareDnsConfig),
    QoveryDns(QoveryDnsConfig),
}

impl DnsProviderConfiguration {
    /// The name of the certificate-manager configuration matching this
    /// provider.
    pub open spec fn cert_manager_config_name(self) -> Seq<char> {
        match self {
            DnsProviderConfiguration::Cloudflare(_) => "cloudflare"@,
            DnsProviderConfiguration::QoveryDns(_) => "pdns"@,
        }
    }

    /// The name of the certificate-manager configuration matching this
    /// provider: `cloudflare` or `pdns`.
    pub fn get_cert_manager_config_name(&self) -> (r: String)
        ensures
            r@ == self.cert_manager_config_name(),
    {
        match self {
            DnsProviderConfiguration::Cloudflare(_) => String::from_str("cloudflare"),
            DnsProviderConfiguration::QoveryDns(_) => String::from_str("pdns"),
        }
    }
}

} // verus!
