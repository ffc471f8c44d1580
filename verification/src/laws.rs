use vstd::prelude::*;

use crate::config::{
    field_unsupplied, merged_string, merged_u64, resolution_succeeds, spec_contract_name,
    spec_first_missing, IndexerEnvCLIConfig, IndexerFileConfig,
};
use crate::error::{check_order, ConfigField};
use crate::registry::ContractRegistry;

verus! {

/// A field that no source supplies makes resolution fail, and the field the
/// failure names is the unsupplied field that comes first in the fixed check
/// order: no later field's absence is ever reported before it.
pub proof fn lemma_unsupplied_field_fails(
    cli: IndexerEnvCLIConfig,
    file: IndexerFileConfig,
    registry: ContractRegistry,
    field: ConfigField,
)
    requires
        field_unsupplied(cli, file, field),
    ensures
        !resolution_succeeds(cli, file, registry),
        spec_first_missing(cli, file) matches Some(reported) && field_unsupplied(
            cli,
            file,
            reported,
        ) && check_order(reported) <= check_order(field),
{
}

/// The reported field is minimal over every unsupplied field, not only the
/// one picked above: whatever field the sources leave empty, the report
/// never names a field that comes after it in the fixed check order.
pub proof fn lemma_first_missing_is_minimal(cli: IndexerEnvCLIConfig, file: IndexerFileConfig)
    ensures
        spec_first_missing(cli, file) matches Some(reported) ==> field_unsupplied(
            cli,
            file,
            reported,
        ) && forall|other: ConfigField|
            field_unsupplied(cli, file, other) ==> check_order(reported) <= check_order(other),
{
    if spec_first_missing(cli, file) is Some {
        let reported = spec_first_missing(cli, file)->Some_0;
        assert forall|other: ConfigField| field_unsupplied(cli, file, other) implies check_order(
            reported,
        ) <= check_order(other) by {
            lemma_unsupplied_field_fails(cli, file, arbitrary(), other);
        }
    }
}

/// A value from the command line or the environment always wins: for every
/// field it is the merged value, whatever the file supplies.
pub proof fn lemma_cli_value_wins(cli: IndexerEnvCLIConfig, file: IndexerFileConfig)
    ensures
        cli.state_server_endpoint matches Some(v) ==> merged_string(
            cli.state_server_endpoint,
            file.state_server_endpoint,
        ) == Some(v@),
        cli.initial_epoch matches Some(v) ==> merged_u64(cli.initial_epoch, file.initial_epoch)
            == Some(v),
        cli.interval matches Some(v) ==> merged_u64(cli.interval, file.interval) == Some(v),
        cli.mm_endpoint matches Some(v) ==> merged_string(cli.mm_endpoint, file.mm_endpoint)
            == Some(v@),
        cli.postgres_endpoint matches Some(v) ==> merged_string(
            cli.postgres_endpoint,
            file.postgres_endpoint,
        ) == Some(v@),
        cli.session_id matches Some(v) ==> merged_string(cli.session_id, file.session_id) == Some(
            v@,
        ),
{
}

/// A value only the file supplies is used verbatim: for every field it is
/// the merged value whenever the command line and the environment are
/// silent.
pub proof fn lemma_file_value_used(cli: IndexerEnvCLIConfig, file: IndexerFileConfig)
    ensures
        cli.state_server_endpoint is None ==> (file.state_server_endpoint matches Some(v)
            ==> merged_string(cli.state_server_endpoint, file.state_server_endpoint) == Some(v@)),
        cli.initial_epoch is None ==> (file.initial_epoch matches Some(v) ==> merged_u64(
            cli.initial_epoch,
            file.initial_epoch,
        ) == Some(v)),
        cli.interval is None ==> (file.interval matches Some(v) ==> merged_u64(
            cli.interval,
            file.interval,
        ) == Some(v)),
        cli.mm_endpoint is None ==> (file.mm_endpoint matches Some(v) ==> merged_string(
            cli.mm_endpoint,
            file.mm_endpoint,
        ) == Some(v@)),
        cli.postgres_endpoint is None ==> (file.postgres_endpoint matches Some(v)
            ==> merged_string(cli.postgres_endpoint, file.postgres_endpoint) == Some(v@)),
        cli.session_id is None ==> (file.session_id matches Some(v) ==> merged_string(
            cli.session_id,
            file.session_id,
        ) == Some(v@)),
{
}

/// With no contract name supplied, the lookup uses the static default name.
pub proof fn lemma_default_contract_name(cli: IndexerEnvCLIConfig)
    requires
        cli.contract_name is None,
    ensures
        spec_contract_name(cli) == "CartesiDApp"@,
{
}

/// A contract name the registry does not know makes resolution fail whatever
/// the required fields hold; by the resolver's contract the failure is the
/// lookup/key error carrying that name, never a missing-field error.
pub proof fn lemma_unknown_contract_fails(
    cli: IndexerEnvCLIConfig,
    file: IndexerFileConfig,
    registry: ContractRegistry,
)
    requires
        !registry.contracts().contains_key(spec_contract_name(cli)),
    ensures
        !resolution_succeeds(cli, file, registry),
{
}

} // verus!
