//! Layered configuration resolver for a blockchain-indexing service.
//!
//! Raw, optional values arrive from two places: command-line flags backed by
//! environment variables, and an optional configuration file. The resolver
//! merges them field by field (command line wins), coerces the merged values
//! into domain types, looks the dapp contract address up by name in a
//! registry, and either returns a fully populated configuration or the first
//! error in a fixed check order. There is no partially valid configuration.
//!
//! Reading the process arguments, the environment and the file, and
//! resolving the shared chain configuration into a registry, happen outside
//! this crate; the resolver itself is pure and fully specified.

pub mod address;
pub mod config;
pub mod epoch;
pub mod error;
pub mod laws;
pub mod registry;

pub use address::Address;
pub use config::FileConfig;
pub use config::IndexerConfig;
pub use config::IndexerEnvCLIConfig;
pub use config::IndexerFileConfig;
pub use epoch::U256;
pub use error::ConfigError;
pub use error::ConfigField;
pub use registry::ContractRegistry;
