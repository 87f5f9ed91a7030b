//! The process-wide registry: a single backend slot that is set at most
//! once, and the runtime-adjustable maximum level.
//!
//! The registry has two states, unset and set, with one forward transition:
//! `register` succeeds exactly once, every later attempt fails and leaves
//! the original backend in place. The dynamic maximum level may be changed
//! any number of times and starts at `Off`, so nothing is dispatched before
//! a backend registers and raises it.

use vstd::prelude::*;
use crate::backend::Backend;
use crate::level::{event_eligible, Level, LevelFilter};
use crate::record::{Record, RecordView};

verus! {

/// Error returned by `register` when a backend is already registered; the
/// original backend remains active.
#[derive(Clone, Copy, Debug, PartialEq, Eq, Structural)]
pub struct AlreadyRegisteredError;

impl AlreadyRegisteredError {
    /// A description of the failure, for callers that report it.
    pub fn description(&self) -> (s: &'static str)
        ensures
            s@ == "attempted to register a backend after one was already registered"@,
    {
        "attempted to register a backend after one was already registered"
    }
}

/// Mathematical image of the registry: the backend slot and the three
/// configuration values.
pub struct RegistryModel<B> {
    /// The registered backend, if the one-time registration has happened.
    pub backend: Option<B>,
    /// The runtime-adjustable ceiling on dispatched levels.
    pub dynamic_max: LevelFilter,
    /// The ceiling fixed when the facade was built.
    pub static_max: LevelFilter,
    /// Whether this build of the facade supports structured key-value
    /// fields.
    pub kv_support: bool,
}

/// The facade's shared state: the backend slot, set at most once, plus the
/// two maximum levels and the structured-field switch.
pub struct Registry<B> {
    backend: Option<B>,
    dynamic_max: LevelFilter,
    static_max: LevelFilter,
    kv_support: bool,
}

impl<B> View for Registry<B> {
    type V = RegistryModel<B>;

    closed spec fn view(&self) -> RegistryModel<B> {
        RegistryModel {
            backend: self.backend,
            dynamic_max: self.dynamic_max,
            static_max: self.static_max,
            kv_support: self.kv_support,
        }
    }
}

/// One registration attempt as a transition on the registry model: it
/// takes effect exactly when no backend is set yet.
pub open spec fn register_step<B>(
    m: RegistryModel<B>,
    backend: B,
    initial_max: LevelFilter,
) -> RegistryModel<B> {
    if m.backend is Some {
        m
    } else {
        RegistryModel { backend: Some(backend), dynamic_max: initial_max, ..m }
    }
}

impl<B: Backend> Registry<B> {
    /// Whether the one-time registration has happened.
    pub open spec fn is_set(&self) -> bool {
        self@.backend is Some
    }

    /// The history of the registered backend; empty while unset.
    pub open spec fn model(&self) -> Seq<RecordView> {
        match self@.backend {
            Some(b) => b.model(),
            None => Seq::empty(),
        }
    }

    /// What the registered backend's acceptance pre-check says; an unset
    /// registry accepts nothing.
    pub open spec fn backend_accepts_spec(&self, level: Level, target: Seq<char>) -> bool {
        match self@.backend {
            Some(b) => b.spec_accepts(level, target),
            None => false,
        }
    }

    /// A fresh registry: no backend, dynamic maximum `Off`, and the two
    /// build-time choices fixed for this registry's lifetime.
    pub fn new(static_max: LevelFilter, kv_support: bool) -> (r: Registry<B>)
        ensures
            r@.backend is None,
            r@.dynamic_max == LevelFilter::Off,
            r@.static_max == static_max,
            r@.kv_support == kv_support,
    {
        Registry { backend: None, dynamic_max: LevelFilter::Off, static_max, kv_support }
    }

    /// Attempt the one-time transition from unset to set. Exactly the
    /// attempts made while no backend is set succeed; a failed attempt
    /// changes nothing and the original backend remains active.
    pub fn register(&mut self, backend: B, initial_max: LevelFilter) -> (r: Result<
        (),
        AlreadyRegisteredError,
    >)
        ensures
            final(self)@ == register_step(old(self)@, backend, initial_max),
            r is Ok <==> old(self)@.backend is None,
            r is Err ==> final(self)@ == old(self)@,
    {
        if self.backend.is_some() {
            Err(AlreadyRegisteredError)
        } else {
            self.backend = Some(backend);
            self.dynamic_max = initial_max;
            Ok(())
        }
    }

    /// Change the runtime ceiling; always succeeds and takes effect for
    /// subsequent dispatch decisions.
    pub fn set_dynamic_max_level(&mut self, max: LevelFilter)
        ensures
            final(self)@ == (RegistryModel { dynamic_max: max, ..old(self)@ }),
    {
        self.dynamic_max = max;
    }

    /// Read the current runtime ceiling.
    pub fn current_dynamic_max_level(&self) -> (max: LevelFilter)
        ensures
            max == self@.dynamic_max,
    {
        self.dynamic_max
    }

    /// Read the build-time ceiling.
    pub fn static_max_level(&self) -> (max: LevelFilter)
        ensures
            max == self@.static_max,
    {
        self.static_max
    }

    /// Whether this build of the facade supports structured key-value
    /// fields.
    pub fn kv_supported(&self) -> (r: bool)
        ensures
            r == self@.kv_support,
    {
        self.kv_support
    }

    /// The registered backend, if the registry is set.
    pub fn active_backend(&self) -> (r: Option<&B>)
        ensures
            match r {
                Some(b) => self@.backend == Some(*b),
                None => self@.backend is None,
            },
    {
        match &self.backend {
            Some(b) => Some(b),
            None => None,
        }
    }

    /// Whether an event at `level` passes both the build-time and the
    /// runtime ceiling: the two-phase filtering gate.
    pub fn level_passes(&self, level: Level) -> (r: bool)
        ensures
            r == event_eligible(self@.static_max, self@.dynamic_max, level),
    {
        level.le_filter(self.static_max) && level.le_filter(self.dynamic_max)
    }

    /// Ask the registered backend's acceptance pre-check; an unset
    /// registry accepts nothing.
    pub fn backend_accepts(&self, level: Level, target: &str) -> (r: bool)
        ensures
            r == self.backend_accepts_spec(level, target@),
    {
        match &self.backend {
            Some(b) => b.accepts(level, target),
            None => false,
        }
    }

    /// Hand one record to the registered backend; while unset, the record
    /// is dropped silently, which is not an error.
    pub fn dispatch_record(&mut self, record: Record)
        ensures
            final(self)@.dynamic_max == old(self)@.dynamic_max,
            final(self)@.static_max == old(self)@.static_max,
            final(self)@.kv_support == old(self)@.kv_support,
            final(self).is_set() == old(self).is_set(),
            old(self).is_set() ==> final(self).model() == old(self).model().push(record@),
            !old(self).is_set() ==> *final(self) == *old(self),
    {
        match &mut self.backend {
            Some(b) => b.dispatch(record),
            None => {},
        }
    }

    /// Ask the registered backend to drain any buffered state; no received
    /// record is lost.
    pub fn flush(&mut self)
        ensures
            final(self)@.dynamic_max == old(self)@.dynamic_max,
            final(self)@.static_max == old(self)@.static_max,
            final(self)@.kv_support == old(self)@.kv_support,
            final(self).is_set() == old(self).is_set(),
            final(self).model() == old(self).model(),
    {
        match &mut self.backend {
            Some(b) => b.flush(),
            None => {},
        }
    }
}

impl<B: Backend> Default for Registry<B> {
    /// The default configuration: every level compiled in, structured
    /// fields unsupported, no backend, dynamic maximum `Off`.
    fn default() -> (r: Registry<B>)
        ensures
            r@.backend is None,
            r@.dynamic_max == LevelFilter::Off,
            r@.static_max == LevelFilter::Trace,
            r@.kv_support == false,
    {
        Registry::new(LevelFilter::Trace, false)
    }
}

/// The registry model after a whole sequence of registration attempts,
/// applied oldest first.
pub open spec fn run_register_attempts<B>(
    m: RegistryModel<B>,
    attempts: Seq<(B, LevelFilter)>,
) -> RegistryModel<B>
    decreases attempts.len(),
{
    if attempts.len() == 0 {
        m
    } else {
        run_register_attempts(register_step(m, attempts[0].0, attempts[0].1), attempts.drop_first())
    }
}

/// How many attempts of a sequence succeed: exactly those made while no
/// backend is set.
pub open spec fn count_register_successes<B>(
    m: RegistryModel<B>,
    attempts: Seq<(B, LevelFilter)>,
) -> nat
    decreases attempts.len(),
{
    if attempts.len() == 0 {
        0
    } else {
        (if m.backend is None {
            1nat
        } else {
            0nat
        }) + count_register_successes(
            register_step(m, attempts[0].0, attempts[0].1),
            attempts.drop_first(),
        )
    }
}

/// Once a backend is set, every further attempt fails and the registry
/// does not change.
proof fn lemma_set_registry_refuses_all<B>(m: RegistryModel<B>, attempts: Seq<(B, LevelFilter)>)
    requires
        m.backend is Some,
    ensures
        count_register_successes(m, attempts) == 0,
        run_register_attempts(m, attempts) == m,
    decreases attempts.len(),
{
    if attempts.len() > 0 {
        assert(register_step(m, attempts[0].0, attempts[0].1) == m);
        lemma_set_registry_refuses_all(m, attempts.drop_first());
    }
}

/// Registration is exactly-once: starting from an unset registry, any
/// non-empty sequence of registration attempts has exactly one success —
/// the first — and the backend in place afterwards, together with the
/// dynamic maximum, is the one from that single successful attempt. The
/// build-time configuration is untouched.
pub proof fn lemma_registration_exactly_once<B>(
    m: RegistryModel<B>,
    attempts: Seq<(B, LevelFilter)>,
)
    requires
        m.backend is None,
        attempts.len() > 0,
    ensures
        count_register_successes(m, attempts) == 1,
        run_register_attempts(m, attempts).backend == Some(attempts[0].0),
        run_register_attempts(m, attempts).dynamic_max == attempts[0].1,
        run_register_attempts(m, attempts).static_max == m.static_max,
        run_register_attempts(m, attempts).kv_support == m.kv_support,
{
    let m1 = register_step(m, attempts[0].0, attempts[0].1);
    lemma_set_registry_refuses_all(m1, attempts.drop_first());
}

} // verus!
