//! The sink: it decides which events are admitted and appends those to the
//! store. Also the one-time activation that binds the sink to the logging
//! facade.

use crate::level::{Level, LevelFilter};
use crate::policy::LevelPolicy;
use crate::record::{timestamp, Record};
use crate::store::{grown, pushed, LogStore};
use vstd::prelude::*;

verus! {

/// Events whose target begins with this come from inside the library.
pub const INTERNAL_PREFIX: &'static str = "cursive_core::";

/// What is known of an event before its message is rendered.
#[derive(Clone, Copy, Debug)]
pub struct Metadata<'a> {
    /// Severity of the event.
    pub level: Level,
    /// Source tag of the event, by convention the path of the module that
    /// emitted it.
    pub target: &'a str,
}

/// One emitted event with its rendered message.
#[derive(Debug)]
pub struct Event<'a> {
    /// Severity and source of the event.
    pub metadata: Metadata<'a>,
    /// Message content, already rendered to text.
    pub message: String,
}

/// Whether the logging facade has been given its sink. `Registered` is
/// final: a process registers one sink and never takes it back.
#[derive(Clone, Copy, PartialEq, Eq, Structural, Debug)]
pub enum Activation {
    Unregistered,
    Registered,
}

/// Saves admitted log records in a `LogStore`.
#[derive(Clone, Copy, Debug)]
pub struct CursiveLogger;

/// An event is internal when its target lies in the `cursive_core`
/// namespace.
pub open spec fn is_internal(target: Seq<char>) -> bool {
    INTERNAL_PREFIX@.is_prefix_of(target)
}

/// The threshold that applies to an event with the given target.
pub open spec fn threshold_for(policy: LevelPolicy, target: Seq<char>) -> LevelFilter {
    if is_internal(target) {
        policy.int_filter_level
    } else {
        policy.ext_filter_level
    }
}

/// An event is admitted when its level passes the threshold for its
/// target.
pub open spec fn admitted(policy: LevelPolicy, metadata: Metadata) -> bool {
    threshold_for(policy, metadata.target@).admits(metadata.level)
}

/// The record that is stored for `event` when it is logged at `time`.
pub open spec fn record_of(event: Event, time: time::OffsetDateTime) -> Record {
    Record { level: event.metadata.level, time, message: event.message }
}

/// Tests with `str::starts_with` whether `text` begins with `prefix`.
///
/// Trusted: the result is true exactly when the characters of `prefix` are
/// the first characters of `text`.
#[verifier::external_body]
fn starts_with(text: &str, prefix: &str) -> (b: bool)
    ensures
        b == prefix@.is_prefix_of(text@),
{
    text.starts_with(prefix)
}

impl Activation {
    /// Whether a sink may still be registered.
    pub open spec fn spec_can_register(&self) -> bool {
        *self == Activation::Unregistered
    }

    /// Whether a sink may still be registered.
    #[verifier::when_used_as_spec(spec_can_register)]
    pub fn can_register(&self) -> (b: bool)
        ensures
            b == self.spec_can_register(),
    {
        match self {
            Activation::Unregistered => true,
            Activation::Registered => false,
        }
    }
}

/// Log a record in the log queue, stamped with `time`.
pub fn log_at(store: &mut LogStore, record: Event, time: time::OffsetDateTime)
    ensures
        final(store).capacity() == old(store).capacity(),
        final(store)@.len() <= final(store).capacity(),
        final(store)@ == pushed(
            old(store)@,
            old(store).capacity() as nat,
            record_of(record, time),
        ),
{
    store.push(Record { level: record.metadata.level, time, message: record.message });
}

/// Log a record in the log queue, stamped with the current time: the local
/// time where the local offset can be determined, UTC where it cannot.
pub fn log(store: &mut LogStore, record: Event)
    ensures
        final(store).capacity() == old(store).capacity(),
        final(store)@.len() <= final(store).capacity(),
        exists|time: time::OffsetDateTime|
            final(store)@ == pushed(
                old(store)@,
                old(store).capacity() as nat,
                #[trigger] record_of(record, time),
            ),
{
    log_at(store, record, timestamp());
}

impl CursiveLogger {
    /// Whether an event with this metadata is admitted: whether its level
    /// passes the internal threshold if its target begins with
    /// `cursive_core::`, the external threshold if not.
    pub fn enabled(&self, policy: &LevelPolicy, metadata: &Metadata) -> (b: bool)
        ensures
            b == admitted(*policy, *metadata),
    {
        if starts_with(metadata.target, INTERNAL_PREFIX) {
            policy.int_filter_level.admits(metadata.level)
        } else {
            policy.ext_filter_level.admits(metadata.level)
        }
    }

    /// Logs `record` if it is admitted, and drops it if not.
    pub fn log(&self, policy: &LevelPolicy, store: &mut LogStore, record: Event)
        ensures
            final(store).capacity() == old(store).capacity(),
            final(store)@.len() <= final(store).capacity(),
            !admitted(*policy, record.metadata) ==> final(store)@ == old(store)@,
            admitted(*policy, record.metadata) ==> exists|time: time::OffsetDateTime|
                final(store)@ == pushed(
                    old(store)@,
                    old(store).capacity() as nat,
                    #[trigger] record_of(record, time),
                ),
    {
        if self.enabled(policy, &record.metadata) {
            log(store, record);
        } else {
            proof {
                use_type_invariant(&*store);
            }
        }
    }

    /// Does nothing: a record is in the store as soon as it is logged.
    pub fn flush(&self) {
    }
}

/// Raises the capacity of the log queue to `n` records where it is below
/// that, and reserves the memory for them. Calling it again with the same
/// `n` changes nothing.
pub fn reserve_logs(store: &mut LogStore, n: usize)
    ensures
        final(store)@ == old(store)@,
        final(store).capacity() == grown(old(store).capacity(), n),
        final(store)@.len() <= final(store).capacity(),
{
    store.grow(n);
}

/// Return a logger that stores records in the log queue, after giving the
/// queue the configured size. Register it with the logging facade
/// yourself.
///
/// An easier alternative might be to use `init`.
pub fn get_logger(policy: &LevelPolicy, store: &mut LogStore) -> (logger: CursiveLogger)
    ensures
        final(store)@ == old(store)@,
        final(store).capacity() == grown(old(store).capacity(), policy.log_size),
        final(store)@.len() <= final(store).capacity(),
{
    reserve_logs(store, policy.log_size);
    CursiveLogger
}

/// Initialize the logger: give the log queue the configured size and mark
/// the sink as registered. Returns the level that the logging facade has to
/// let through, the less restrictive of the two thresholds.
///
/// A process activates once: `activation` must not be `Registered` yet.
pub fn init(policy: &LevelPolicy, store: &mut LogStore, activation: &mut Activation) -> (max_level:
    LevelFilter)
    requires
        old(activation).can_register(),
    ensures
        *final(activation) == Activation::Registered,
        max_level == policy.max_level(),
        final(store)@ == old(store)@,
        final(store).capacity() == grown(old(store).capacity(), policy.log_size),
        final(store)@.len() <= final(store).capacity(),
{
    reserve_logs(store, policy.log_size);
    *activation = Activation::Registered;
    policy.max_level()
}

/// Activation is final: once `init` has run, the state it leaves does not
/// meet what `init` requires, so no second activation can follow.
pub proof fn lemma_registered_is_final()
    ensures
        !Activation::Registered.can_register(),
{
}

} // verus!
