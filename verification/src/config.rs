//! Server configuration for client authentication.

use vstd::prelude::*;

verus! {

/// Configuration used to initialize the server's authentication data and Docker connection
pub struct DeimosConfig {
    /// Address to bind to, as written in the configuration
    pub bind: String,
    pub port: u16,
    pub cert: DeimosAuthenticationConfig,
}

/// Paths of the certificates and key used to authenticate connections
pub struct DeimosAuthenticationConfig {
    /// Path to the X.509 certificate used as the CA when authenticating client connections
    pub ca_root: String,
    /// Path to public X.509 certificate to present to clients
    pub identity_cert: String,
    /// Path to the server's private key file
    pub identity_key: String,
}

impl Default for DeimosAuthenticationConfig {
    fn default() -> (conf: Self)
        ensures
            conf.ca_root@ == "./ca_cert.pem"@,
            conf.identity_cert@ == "./identity.pem"@,
            conf.identity_key@ == "./identity_key.pem"@,
    {
        DeimosAuthenticationConfig {
            ca_root: "./ca_cert.pem".to_owned(),
            identity_cert: "./identity.pem".to_owned(),
            identity_key: "./identity_key.pem".to_owned(),
        }
    }
}

} // verus!
