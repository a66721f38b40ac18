//! The level policy: one threshold for events from inside the
//! `cursive_core` namespace, one for all others, and the size that the
//! store is to be given.

use crate::level::{level_filter_from_str, parse_level_filter, LevelFilter};
use vstd::prelude::*;

verus! {

/// Size of the log queue when none was asked for.
pub const DEFAULT_LOG_SIZE: usize = 1000;

/// Name of the environment variable that sets both thresholds.
pub const GLOBAL_ENV_VAR: &'static str = "RUST_LOG";

/// Name of the environment variable that sets the internal threshold alone.
pub const INTERNAL_ENV_VAR: &'static str = "CURSIVE_LOG";

/// The two thresholds and the configured size of the log queue.
#[derive(Clone, Copy, PartialEq, Eq, Structural, Debug)]
pub struct LevelPolicy {
    /// Threshold for events from within `cursive_core`.
    pub int_filter_level: LevelFilter,
    /// Threshold for events from anywhere else.
    pub ext_filter_level: LevelFilter,
    /// Size that the log queue is given when the logger is handed out.
    pub log_size: usize,
}

impl LevelPolicy {
    /// The policy that lets everything through, with the default size.
    pub open spec fn initial() -> LevelPolicy {
        LevelPolicy {
            int_filter_level: LevelFilter::Trace,
            ext_filter_level: LevelFilter::Trace,
            log_size: DEFAULT_LOG_SIZE,
        }
    }

    /// A policy that lets everything through, with the default size.
    pub fn new() -> (policy: LevelPolicy)
        ensures
            policy == LevelPolicy::initial(),
    {
        LevelPolicy {
            int_filter_level: LevelFilter::Trace,
            ext_filter_level: LevelFilter::Trace,
            log_size: DEFAULT_LOG_SIZE,
        }
    }

    /// The policy after the two environment values were taken in: a global
    /// value sets both thresholds, an internal value then sets the internal
    /// one. A missing value changes nothing.
    pub open spec fn with_env_levels(
        self,
        global: Option<LevelFilter>,
        internal: Option<LevelFilter>,
    ) -> LevelPolicy {
        LevelPolicy {
            int_filter_level: match internal {
                Some(level) => level,
                None => match global {
                    Some(level) => level,
                    None => self.int_filter_level,
                },
            },
            ext_filter_level: match global {
                Some(level) => level,
                None => self.ext_filter_level,
            },
            log_size: self.log_size,
        }
    }

    /// The least restrictive of the two thresholds: what the logging facade
    /// has to let through for both to see their events.
    pub open spec fn spec_max_level(&self) -> LevelFilter {
        self.int_filter_level.max(self.ext_filter_level)
    }

    /// The least restrictive of the two thresholds.
    #[verifier::when_used_as_spec(spec_max_level)]
    pub fn max_level(&self) -> (ceiling: LevelFilter)
        ensures
            ceiling == self.spec_max_level(),
    {
        self.int_filter_level.max(self.ext_filter_level)
    }
}

/// What the text of an environment variable asks for: nothing when the
/// variable is unset or its text names no threshold.
pub open spec fn env_level(value: Option<&str>) -> Option<LevelFilter> {
    match value {
        Some(text) => parse_level_filter(text@),
        None => None,
    }
}

/// Sets the internal log filter level.
pub fn set_int_filter_level(policy: &mut LevelPolicy, level: LevelFilter)
    ensures
        final(policy).int_filter_level == level,
        final(policy).ext_filter_level == old(policy).ext_filter_level,
        final(policy).log_size == old(policy).log_size,
{
    policy.int_filter_level = level;
}

/// Sets the external log filter level.
pub fn set_ext_filter_level(policy: &mut LevelPolicy, level: LevelFilter)
    ensures
        final(policy).int_filter_level == old(policy).int_filter_level,
        final(policy).ext_filter_level == level,
        final(policy).log_size == old(policy).log_size,
{
    policy.ext_filter_level = level;
}

/// Sets the size that the log queue is given when the logger is next
/// handed out. A queue that already has its size is not touched: grow it
/// with `reserve_logs`.
pub fn set_log_size(policy: &mut LevelPolicy, log_size: usize)
    ensures
        final(policy).int_filter_level == old(policy).int_filter_level,
        final(policy).ext_filter_level == old(policy).ext_filter_level,
        final(policy).log_size == log_size,
{
    policy.log_size = log_size;
}

/// Sets the thresholds from the values of the two environment variables
/// `RUST_LOG` and `CURSIVE_LOG`, each `None` when the variable is unset.
///
/// If `rust_log` names a threshold, both thresholds are set to it. If
/// `cursive_log` names one, the internal threshold is set to it, whatever
/// `rust_log` said. Text that names no threshold is ignored.
pub fn set_filter_levels_with_env(
    policy: &mut LevelPolicy,
    rust_log: Option<&str>,
    cursive_log: Option<&str>,
)
    ensures
        *final(policy) == old(policy).with_env_levels(env_level(rust_log), env_level(cursive_log)),
{
    if let Some(text) = rust_log {
        if let Some(filter_level) = level_filter_from_str(text) {
            set_int_filter_level(policy, filter_level);
            set_ext_filter_level(policy, filter_level);
        }
    }
    if let Some(text) = cursive_log {
        if let Some(filter_level) = level_filter_from_str(text) {
            set_int_filter_level(policy, filter_level);
        }
    }
}

/// The internal variable takes precedence: where both values name a
/// threshold, the internal threshold is the one that `cursive_log` names
/// and the external threshold the one that `rust_log` names.
pub proof fn lemma_internal_value_takes_precedence(
    policy: LevelPolicy,
    rust_log: Option<&str>,
    cursive_log: Option<&str>,
)
    requires
        env_level(rust_log) is Some,
        env_level(cursive_log) is Some,
    ensures
        policy.with_env_levels(env_level(rust_log), env_level(cursive_log)).int_filter_level
            == env_level(cursive_log)->0,
        policy.with_env_levels(env_level(rust_log), env_level(cursive_log)).ext_filter_level
            == env_level(rust_log)->0,
{
}

/// Text that names no threshold is ignored: where `rust_log` names none,
/// the external threshold stays as it was, and where `cursive_log` names
/// none either, the whole policy does.
pub proof fn lemma_unparseable_value_is_ignored(
    policy: LevelPolicy,
    rust_log: Option<&str>,
    cursive_log: Option<&str>,
)
    requires
        env_level(rust_log) is None,
    ensures
        policy.with_env_levels(env_level(rust_log), env_level(cursive_log)).ext_filter_level
            == policy.ext_filter_level,
        env_level(cursive_log) is None ==> policy.with_env_levels(
            env_level(rust_log),
            env_level(cursive_log),
        ) == policy,
{
}

} // verus!
