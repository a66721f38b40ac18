//! An in-process sink for log events: a bounded store of the most recent
//! records, filtered by two independent verbosity thresholds, one for events
//! that come from the `cursive_core` namespace and one for everything else.
//!
//! The library holds no global state. The policy, the store and the
//! activation flag are plain values that the caller owns and guards with
//! whatever locks it likes.

pub mod level;
pub mod logger;
pub mod policy;
pub mod record;
pub mod store;

pub use crate::level::{Level, LevelFilter};
pub use crate::logger::{
    get_logger, init, log, log_at, reserve_logs, Activation, CursiveLogger, Event, Metadata,
    INTERNAL_PREFIX,
};
pub use crate::policy::{
    set_ext_filter_level, set_filter_levels_with_env, set_int_filter_level, set_log_size,
    LevelPolicy, DEFAULT_LOG_SIZE, GLOBAL_ENV_VAR, INTERNAL_ENV_VAR,
};
pub use crate::record::Record;
pub use crate::store::LogStore;
