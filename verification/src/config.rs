use vstd::prelude::*;

use crate::address::Address;
use crate::epoch::U256;
use crate::error::{ConfigError, ConfigField};
use crate::registry::ContractRegistry;

verus! {

/// Raw values gathered from the command-line flags and their same-named
/// environment-variable fallbacks (the flag wins over the variable; that
/// precedence belongs to the collaborator parser). Every field is optional;
/// no validation happens at this stage.
///
/// `dapp_contract_address` is declared on the command line but the merge
/// stage never reads it: the resolved address always comes from the
/// `contract_name` registry lookup. `indexer_config_path` only locates the
/// configuration file and is not part of the resolved configuration either.
#[derive(Clone, Debug)]
pub struct IndexerEnvCLIConfig {
    pub dapp_contract_address: Option<String>,
    pub contract_name: Option<String>,
    pub indexer_config_path: Option<String>,
    pub state_server_endpoint: Option<String>,
    pub interval: Option<u64>,
    pub initial_epoch: Option<u64>,
    pub postgres_endpoint: Option<String>,
    pub mm_endpoint: Option<String>,
    pub session_id: Option<String>,
}

/// Raw fallback values from the optional configuration file. A file does not
/// need to be complete: every field defaults to absent, and an absent file
/// leaves all of them absent. The file has no `contract_name` entry, and its
/// `dapp_contract_address` entry, like the flag, is never read by the merge.
#[derive(Clone, Debug, Default)]
pub struct IndexerFileConfig {
    pub dapp_contract_address: Option<String>,
    pub state_server_endpoint: Option<String>,
    pub interval: Option<u64>,
    pub initial_epoch: Option<u64>,
    pub postgres_endpoint: Option<String>,
    pub mm_endpoint: Option<String>,
    pub session_id: Option<String>,
}

/// The whole configuration file: one nested section holding the indexer
/// fields. Unknown keys are the file loader's business and are ignored.
#[derive(Clone, Debug, Default)]
pub struct FileConfig {
    pub indexer_config: IndexerFileConfig,
}

/// The final configuration: fully populated or never constructed. It is
/// built exactly once at startup and immutable thereafter.
#[derive(Clone, Debug, PartialEq)]
pub struct IndexerConfig {
    pub dapp_contract_address: Address,
    pub state_server_endpoint: String,
    pub initial_epoch: U256,
    pub interval: u64,
    pub mm_endpoint: String,
    pub postgres_endpoint: String,
    pub session_id: String,
}

/// The ordered fallback for one field: the command-line/environment value if
/// present, else the file value, else nothing.
pub open spec fn spec_first_present<T>(cli: Option<T>, file: Option<T>) -> Option<T> {
    if cli is Some {
        cli
    } else {
        file
    }
}

/// The merged value of a string field, as the sequence of characters it
/// carries.
pub open spec fn merged_string(cli: Option<String>, file: Option<String>) -> Option<Seq<char>> {
    match spec_first_present(cli, file) {
        Some(v) => Some(v@),
        None => None,
    }
}

/// The merged value of a 64-bit unsigned field.
pub open spec fn merged_u64(cli: Option<u64>, file: Option<u64>) -> Option<u64> {
    spec_first_present(cli, file)
}

/// The ordered fallback applied to every directly-suppliable field: the
/// command-line/environment value wins, the file value is the fallback.
pub fn first_present<T>(cli: Option<T>, file: Option<T>) -> (r: Option<T>)
    ensures
        r == spec_first_present(cli, file),
{
    match cli {
        Some(v) => Some(v),
        None => file,
    }
}

/// The contract name used for the address lookup: the supplied one, or the
/// static default when none was supplied.
pub open spec fn spec_contract_name(cli: IndexerEnvCLIConfig) -> Seq<char> {
    match cli.contract_name {
        Some(name) => name@,
        None => "CartesiDApp"@,
    }
}

/// Whether the sources leave `field` without a value.
pub open spec fn field_unsupplied(
    cli: IndexerEnvCLIConfig,
    file: IndexerFileConfig,
    field: ConfigField,
) -> bool {
    match field {
        ConfigField::StateServerEndpoint => merged_string(
            cli.state_server_endpoint,
            file.state_server_endpoint,
        ) is None,
        ConfigField::InitialEpoch => merged_u64(cli.initial_epoch, file.initial_epoch) is None,
        ConfigField::Interval => merged_u64(cli.interval, file.interval) is None,
        ConfigField::MmEndpoint => merged_string(cli.mm_endpoint, file.mm_endpoint) is None,
        ConfigField::PostgresEndpoint => merged_string(
            cli.postgres_endpoint,
            file.postgres_endpoint,
        ) is None,
        ConfigField::SessionId => merged_string(cli.session_id, file.session_id) is None,
    }
}

/// The first required field, in the fixed check order, that no source
/// supplies; `None` when every required field has a value.
pub open spec fn spec_first_missing(cli: IndexerEnvCLIConfig, file: IndexerFileConfig) -> Option<
    ConfigField,
> {
    if field_unsupplied(cli, file, ConfigField::StateServerEndpoint) {
        Some(ConfigField::StateServerEndpoint)
    } else if field_unsupplied(cli, file, ConfigField::InitialEpoch) {
        Some(ConfigField::InitialEpoch)
    } else if field_unsupplied(cli, file, ConfigField::Interval) {
        Some(ConfigField::Interval)
    } else if field_unsupplied(cli, file, ConfigField::MmEndpoint) {
        Some(ConfigField::MmEndpoint)
    } else if field_unsupplied(cli, file, ConfigField::PostgresEndpoint) {
        Some(ConfigField::PostgresEndpoint)
    } else if field_unsupplied(cli, file, ConfigField::SessionId) {
        Some(ConfigField::SessionId)
    } else {
        None
    }
}

/// Whether resolution succeeds on these inputs: the contract name is
/// registered and every required field has a value from some source.
pub open spec fn resolution_succeeds(
    cli: IndexerEnvCLIConfig,
    file: IndexerFileConfig,
    registry: ContractRegistry,
) -> bool {
    &&& registry.contracts().contains_key(spec_contract_name(cli))
    &&& spec_first_missing(cli, file) is None
}

impl IndexerConfig {
    /// Merges the two raw sources and validates the result: the registry
    /// lookup by contract name first, then each required field in the fixed
    /// check order, command line winning over the file. Returns the fully
    /// populated configuration, or the first error met and nothing partial.
    pub fn resolve(
        cli: IndexerEnvCLIConfig,
        file: IndexerFileConfig,
        registry: &ContractRegistry,
    ) -> (r: Result<IndexerConfig, ConfigError>)
        ensures
            r is Ok <==> resolution_succeeds(cli, file, *registry),
            match r {
                Ok(c) => {
                    &&& c.dapp_contract_address == registry.contracts()[spec_contract_name(cli)]
                    &&& merged_string(cli.state_server_endpoint, file.state_server_endpoint)
                        == Some(c.state_server_endpoint@)
                    &&& merged_u64(cli.initial_epoch, file.initial_epoch) matches Some(e)
                        && c.initial_epoch.as_nat() == e as nat
                    &&& merged_u64(cli.interval, file.interval) == Some(c.interval)
                    &&& merged_string(cli.mm_endpoint, file.mm_endpoint) == Some(c.mm_endpoint@)
                    &&& merged_string(cli.postgres_endpoint, file.postgres_endpoint) == Some(
                        c.postgres_endpoint@,
                    )
                    &&& merged_string(cli.session_id, file.session_id) == Some(c.session_id@)
                },
                Err(e) => match e {
                    ConfigError::ContractNotFound { contract_name } => {
                        &&& contract_name@ == spec_contract_name(cli)
                        &&& !registry.contracts().contains_key(spec_contract_name(cli))
                    },
                    ConfigError::MissingField { field } => {
                        &&& registry.contracts().contains_key(spec_contract_name(cli))
                        &&& spec_first_missing(cli, file) == Some(field)
                    },
                },
            },
    {
        let contract_name: String = match &cli.contract_name {
            Some(name) => name.clone(),
            None => "CartesiDApp".to_owned(),
        };

        let dapp_contract_address: Address = match registry.lookup(&contract_name) {
            Some(address) => address,
            None => {
                return Err(ConfigError::ContractNotFound { contract_name });
            },
        };

        let state_server_endpoint: String = match first_present(
            cli.state_server_endpoint,
            file.state_server_endpoint,
        ) {
            Some(v) => v,
            None => {
                return Err(
                    ConfigError::MissingField { field: ConfigField::StateServerEndpoint },
                );
            },
        };

        let initial_epoch: U256 = match first_present(cli.initial_epoch, file.initial_epoch) {
            Some(v) => U256::from_u64(v),
            None => {
                return Err(ConfigError::MissingField { field: ConfigField::InitialEpoch });
            },
        };

        let interval: u64 = match first_present(cli.interval, file.interval) {
            Some(v) => v,
            None => {
                return Err(ConfigError::MissingField { field: ConfigField::Interval });
            },
        };

        let mm_endpoint: String = match first_present(cli.mm_endpoint, file.mm_endpoint) {
            Some(v) => v,
            None => {
                return Err(ConfigError::MissingField { field: ConfigField::MmEndpoint });
            },
        };

        let postgres_endpoint: String = match first_present(
            cli.postgres_endpoint,
            file.postgres_endpoint,
        ) {
            Some(v) => v,
            None => {
                return Err(ConfigError::MissingField { field: ConfigField::PostgresEndpoint });
            },
        };

        let session_id: String = match first_present(cli.session_id, file.session_id) {
            Some(v) => v,
            None => {
                return Err(ConfigError::MissingField { field: ConfigField::SessionId });
            },
        };

        Ok(
            IndexerConfig {
                dapp_contract_address,
                state_server_endpoint,
                initial_epoch,
                interval,
                mm_endpoint,
                postgres_endpoint,
                session_id,
            },
        )
    }
}

} // verus!
