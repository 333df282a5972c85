//! Node-configuration value types. Loading configuration — files, flags,
//! environment — lives in the embedding layer; these are the plain shapes
//! it fills in, and the one merging rule that is pure logic.

use vstd::prelude::*;

verus! {

/// Format to use when logging.
#[derive(Debug, Clone, Copy, Hash)]
pub enum LogFormat {
    /// Verbose, human-readable output. Not recommended in production.
    Pretty,
    /// Compact output.
    Compact,
    /// Structured json output, for log collectors.
    Json,
}

impl Default for LogFormat {
    fn default() -> (r: Self)
        ensures
            r is Pretty,
    {
        LogFormat::Pretty
    }
}

/// How the object-store credentials are obtained.
#[derive(Debug, Clone)]
pub enum ObjectStoreCredentials {
    /// Use the standard environment variables of the cloud provider.
    AwsEnv,
}

/// Which kind of metadata store the client connects to.
#[derive(Debug, Clone)]
pub enum MetadataStoreClient {
    /// Connects to an embedded metadata store run by nodes that carry the
    /// metadata-store role.
    Embedded { addresses: Vec<String> },
    /// Uses an external etcd cluster; addresses are formatted as
    /// `host:port`.
    Etcd { addresses: Vec<String> },
    /// Uses an object store bucket.
    ObjectStore { credentials: ObjectStoreCredentials, bucket: String },
}

/// Rejected configuration shapes.
#[derive(Debug, Clone, Copy, PartialEq, Eq, Structural)]
pub enum ConfigError {
    /// Both the legacy single address and an explicit address list were
    /// configured for the embedded metadata store.
    ConflictingEmbeddedAddresses,
}

/// The advertised address assumed when none is configured.
pub const DEFAULT_ADVERTISED_ADDRESS: &'static str = "http://127.0.0.1:5122/";

/// Whether the configured address list still holds exactly the default
/// advertised address, i.e. was never explicitly set.
pub open spec fn spec_is_default_singleton(addresses: Seq<String>) -> bool {
    addresses.len() == 1 && addresses[0]@ == DEFAULT_ADVERTISED_ADDRESS@
}

impl MetadataStoreClient {
    /// Merge the legacy single-address field of the embedded metadata
    /// store client with its address list: with no legacy address the list
    /// stands as configured; a legacy address replaces the list only while
    /// the list still holds exactly the default advertised address; a
    /// legacy address next to an explicitly configured list is a conflict
    /// and rejected.
    pub fn merge_embedded_addresses(address: Option<String>, addresses: Vec<String>) -> (r: Result<
        Vec<String>,
        ConfigError,
    >)
        ensures
            match address {
                Option::None => r == Ok::<Vec<String>, ConfigError>(addresses),
                Option::Some(a) => {
                    if spec_is_default_singleton(addresses@) {
                        r is Ok && r->Ok_0@ == seq![a]
                    } else {
                        r == Err::<Vec<String>, ConfigError>(
                            ConfigError::ConflictingEmbeddedAddresses,
                        )
                    }
                },
            },
    {
        match address {
            None => Ok(addresses),
            Some(a) => {
                let default_address: String = DEFAULT_ADVERTISED_ADDRESS.to_owned();
                if addresses.len() == 1 && addresses[0] == default_address {
                    let mut only: Vec<String> = Vec::new();
                    only.push(a);
                    proof {
                        assert(only@ =~= seq![a]);
                    }
                    Ok(only)
                } else {
                    Err(ConfigError::ConflictingEmbeddedAddresses)
                }
            },
        }
    }
}

} // verus!
