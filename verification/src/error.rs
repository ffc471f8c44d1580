use vstd::prelude::*;

verus! {

/// The six directly-suppliable required fields, in the fixed order in which
/// resolution checks them.
#[derive(Clone, Copy, Debug, PartialEq, Eq, Structural)]
pub enum ConfigField {
    StateServerEndpoint,
    InitialEpoch,
    Interval,
    MmEndpoint,
    PostgresEndpoint,
    SessionId,
}

/// The position of a field in the fixed check order.
pub open spec fn check_order(field: ConfigField) -> int {
    match field {
        ConfigField::StateServerEndpoint => 0,
        ConfigField::InitialEpoch => 1,
        ConfigField::Interval => 2,
        ConfigField::MmEndpoint => 3,
        ConfigField::PostgresEndpoint => 4,
        ConfigField::SessionId => 5,
    }
}

/// The message that names a missing field.
pub open spec fn spec_field_message(field: ConfigField) -> Seq<char> {
    match field {
        ConfigField::StateServerEndpoint => "Must specify state server endpoint"@,
        ConfigField::InitialEpoch => "Must specify initial epoch"@,
        ConfigField::Interval => "Must specify interval"@,
        ConfigField::MmEndpoint => "Must specify machine manager endpoint"@,
        ConfigField::PostgresEndpoint => "Must specify postgres endpoint"@,
        ConfigField::SessionId => "Must specify session id endpoint"@,
    }
}

impl ConfigField {
    /// The human-readable message naming this field as missing.
    pub fn message(&self) -> (r: &'static str)
        ensures
            r@ == spec_field_message(*self),
    {
        match self {
            ConfigField::StateServerEndpoint => "Must specify state server endpoint",
            ConfigField::InitialEpoch => "Must specify initial epoch",
            ConfigField::Interval => "Must specify interval",
            ConfigField::MmEndpoint => "Must specify machine manager endpoint",
            ConfigField::PostgresEndpoint => "Must specify postgres endpoint",
            ConfigField::SessionId => "Must specify session id endpoint",
        }
    }
}

/// Why resolution failed. Resolution is all-or-nothing: the first error in
/// the fixed check order is returned and nothing partial ever is.
#[derive(Clone, Debug)]
pub enum ConfigError {
    /// The contract name (supplied or defaulted) is not in the registry: a
    /// lookup/key error, distinct from a missing required field.
    ContractNotFound { contract_name: String },
    /// A required field was supplied by no source.
    MissingField { field: ConfigField },
}

impl ConfigError {
    /// The human-readable message naming the missing field or resource.
    pub fn message(&self) -> (r: String)
        ensures
            match *self {
                ConfigError::ContractNotFound { contract_name } => r@
                    == "Contract address not registered for name: "@ + contract_name@,
                ConfigError::MissingField { field } => r@ == spec_field_message(field),
            },
    {
        match self {
            ConfigError::ContractNotFound { contract_name } => "Contract address not registered for name: ".to_owned().concat(
                contract_name.as_str(),
            ),
            ConfigError::MissingField { field } => field.message().to_owned(),
        }
    }
}

} // verus!
