//! The portal's configuration, as read from its configuration files.

use vstd::prelude::*;

verus! {

/// Where and how to reach the SurrealDB server.
#[derive(Debug, Clone, Eq, PartialEq, Default)]
pub struct SurrealConf {
    pub address: String,
    pub tls: bool,
    pub namespace: String,
    pub database: String,
    pub username: String,
    pub password: String,
}

/// Where the portal listens.
#[derive(Debug, Clone, Eq, PartialEq, Default)]
pub struct PortalConf {
    pub telnet: String,
}

/// The whole configuration.
#[derive(Debug, Clone, Eq, PartialEq, Default)]
pub struct TotalConf {
    pub surreal: SurrealConf,
    pub portal: PortalConf,
}

} // verus!
