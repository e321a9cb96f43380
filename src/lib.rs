//! Small, deliberately insecure code patterns (a hardcoded secret, a shell
//! command assembled from untrusted text, an unchecked parse, a manual
//! ownership round trip), with the computing part of each stated and proved.
mod command;
mod config;
mod credentials;
mod payload;
mod raw;

pub use command::{
    command_text, launch_report, FAILED_PREFIX, LIST_PREFIX, RAN_PREFIX, SHELL,
    SHELL_COMMAND_FLAG,
};
pub use config::{
    config_message, guarded_number, resolve_config, CONFIG_VAR, DEFAULT_CONFIG, LOADED_PREFIX,
};
pub use credentials::{credential_message, CONNECT_PREFIX, DB_PASSWORD};
pub use payload::{insecure_deserialize_demo, json_string_map, parse_payload, PayloadError};
pub use raw::{
    lemma_reconstruct_once, lemma_write_keeps_detached, raw_pointer_demo, raw_round_trip, OwnedInt, RawAddress, SlotHeap, INITIAL_VALUE, UPDATED_VALUE,
};
