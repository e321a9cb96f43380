use vstd::prelude::*;
use vstd::string::*;

verus! {

/// The name of the environment variable that holds the configuration.
pub const CONFIG_VAR: &'static str = "CONFIG";

/// The configuration used when the variable is absent.
pub const DEFAULT_CONFIG: &'static str = "default-config";

/// What precedes the configuration in the report line.
pub const LOADED_PREFIX: &'static str = "Loaded config: ";

/// The configuration in force: the variable's value when it was set, the
/// default otherwise. This never fails.
pub fn resolve_config(from_env: Option<String>) -> (r: String)
    ensures
        match from_env {
            Some(v) => r@ == v@,
            None => r@ == DEFAULT_CONFIG@,
        },
{
    match from_env {
        Some(v) => v,
        None => String::from_str(DEFAULT_CONFIG),
    }
}

/// The report line for a configuration value.
pub fn config_message(config: &str) -> (r: String)
    ensures
        r@ == LOADED_PREFIX@ + config@,
{
    let mut line = String::from_str(LOADED_PREFIX);
    line.append(config);
    line
}

/// The number held by an optional value, read with an unchecked extraction
/// that stands behind a presence check, so the extraction is only reached
/// when a number is there.
pub fn guarded_number(maybe_number: Option<i32>) -> (r: Option<i32>)
    ensures
        r == maybe_number,
{
    if maybe_number.is_some() {
        Some(maybe_number.unwrap())
    } else {
        None
    }
}

} // verus!
