//! Call-site dispatch: the per-call protocol that filters an event against
//! both maximum levels, constructs the record, and forwards it to the
//! registered backend.
//!
//! `log_event` and the per-level entry points stand where a logging macro
//! would: they evaluate the two-phase gate first and only then materialize
//! the message and build the record, so a filtered-out call does no
//! formatting work at all. `log` and `log_impl` are the post-gate dispatch
//! step they share, generic over how the target, level, and field
//! arguments were written at the call site.

use vstd::prelude::*;
use crate::backend::Backend;
use crate::level::event_eligible;
use crate::record::{Record, RecordView};
use crate::registry::Registry;

verus! {

/// Types accepted for the `target` argument: an explicit override, or `()`
/// for "default to the call site's module path".
pub trait Target<'a> {
    /// The routing target this argument denotes, given the module path.
    spec fn spec_target(self, module: Seq<char>) -> Seq<char>;

    /// Resolve the argument against the call site's module path.
    fn into_target(self, module: &'a str) -> (r: &'a str)
        ensures
            r@ == self.spec_target(module@),
    ;
}

/// Caller specified the target explicitly.
impl<'a> Target<'a> for &'a str {
    open spec fn spec_target(self, module: Seq<char>) -> Seq<char> {
        self@
    }

    fn into_target(self, module: &'a str) -> (r: &'a str) {
        self
    }
}

/// Caller did not specify a target: the module path is used.
impl<'a> Target<'a> for () {
    open spec fn spec_target(self, module: Seq<char>) -> Seq<char> {
        module
    }

    fn into_target(self, module: &'a str) -> (r: &'a str) {
        module
    }
}

/// Types accepted for the `level` argument: the dynamic `Level` value, or
/// a marker type that fixes the level at the call site.
pub trait Level: Copy {
    /// The severity this argument denotes.
    spec fn spec_level(self) -> crate::level::Level;

    /// Resolve the argument to its severity.
    fn into_level(self) -> (r: crate::level::Level)
        ensures
            r == self.spec_level(),
    ;
}

/// The log level is determined at run time.
impl Level for crate::level::Level {
    open spec fn spec_level(self) -> crate::level::Level {
        self
    }

    fn into_level(self) -> (r: crate::level::Level) {
        self
    }
}

/// Marker for a call site whose level is statically `Error`.
#[derive(Clone, Copy, Debug)]
pub struct LevelError;

impl Level for LevelError {
    open spec fn spec_level(self) -> crate::level::Level {
        crate::level::Level::Error
    }

    fn into_level(self) -> (r: crate::level::Level) {
        crate::level::Level::Error
    }
}

/// Marker for a call site whose level is statically `Warn`.
#[derive(Clone, Copy, Debug)]
pub struct LevelWarn;

impl Level for LevelWarn {
    open spec fn spec_level(self) -> crate::level::Level {
        crate::level::Level::Warn
    }

    fn into_level(self) -> (r: crate::level::Level) {
        crate::level::Level::Warn
    }
}

/// Marker for a call site whose level is statically `Info`.
#[derive(Clone, Copy, Debug)]
pub struct LevelInfo;

impl Level for LevelInfo {
    open spec fn spec_level(self) -> crate::level::Level {
        crate::level::Level::Info
    }

    fn into_level(self) -> (r: crate::level::Level) {
        crate::level::Level::Info
    }
}

/// Marker for a call site whose level is statically `Debug`.
#[derive(Clone, Copy, Debug)]
pub struct LevelDebug;

impl Level for LevelDebug {
    open spec fn spec_level(self) -> crate::level::Level {
        crate::level::Level::Debug
    }

    fn into_level(self) -> (r: crate::level::Level) {
        crate::level::Level::Debug
    }
}

/// Marker for a call site whose level is statically `Trace`.
#[derive(Clone, Copy, Debug)]
pub struct LevelTrace;

impl Level for LevelTrace {
    open spec fn spec_level(self) -> crate::level::Level {
        crate::level::Level::Trace
    }

    fn into_level(self) -> (r: crate::level::Level) {
        crate::level::Level::Trace
    }
}

/// Types accepted for the structured key-value argument: an explicit slice
/// of pairs, or `()` for none.
pub trait KVs<'a> {
    /// The fields this argument denotes, if any.
    spec fn spec_kvs(self) -> Option<Seq<(Seq<char>, Seq<char>)>>;

    /// Resolve the argument to the optional pairs.
    fn into_kvs(self) -> (r: Option<&'a [(&'a str, &'a str)]>)
        ensures
            match r {
                Some(s) => self.spec_kvs() == Some(s.deep_view()),
                None => self.spec_kvs() is None,
            },
    ;
}

/// Caller specified key-value data explicitly.
impl<'a> KVs<'a> for &'a [(&'a str, &'a str)] {
    open spec fn spec_kvs(self) -> Option<Seq<(Seq<char>, Seq<char>)>> {
        Some(self.deep_view())
    }

    fn into_kvs(self) -> (r: Option<&'a [(&'a str, &'a str)]>) {
        Some(self)
    }
}

/// Caller did not specify key-value data.
impl<'a> KVs<'a> for () {
    open spec fn spec_kvs(self) -> Option<Seq<(Seq<char>, Seq<char>)>> {
        None
    }

    fn into_kvs(self) -> (r: Option<&'a [(&'a str, &'a str)]>) {
        None
    }
}

/// The arguments of one log call that do not vary with the generic
/// argument types: call-site provenance and the formatted message.
#[derive(Debug)]
pub struct NonGenericArgs<'a> {
    /// Module path and source file of the call site.
    pub module_and_file: (&'a str, &'a str),
    /// Source line of the call site.
    pub line: u32,
    /// The message text, formatted by the caller after the filtering gate
    /// passed.
    pub message: &'a str,
}

/// The record that a call with these resolved arguments constructs.
pub open spec fn dispatched_record(
    level: crate::level::Level,
    target: Seq<char>,
    module: Seq<char>,
    file: Seq<char>,
    line: u32,
    message: Seq<char>,
    kvs: Option<Seq<(Seq<char>, Seq<char>)>>,
) -> RecordView {
    RecordView {
        level,
        target,
        module: Some(module),
        file: Some(file),
        line: Some(line),
        message,
        kvs: match kvs {
            Some(s) => s,
            None => Seq::empty(),
        },
    }
}

/// Copy borrowed key-value pairs into owned ones, preserving order.
fn copy_kvs(kvs: &[(&str, &str)]) -> (r: Vec<(String, String)>)
    ensures
        r.deep_view() == kvs.deep_view(),
{
    let mut r: Vec<(String, String)> = Vec::new();
    let n = kvs.len();
    let mut i: usize = 0;
    while i < n
        invariant
            n == kvs@.len(),
            0 <= i <= n,
            r@.len() == i,
            forall|j: int| 0 <= j < i ==> r@[j].deep_view() == kvs@[j].deep_view(),
        decreases n - i,
    {
        let pair = &kvs[i];
        r.push((pair.0.to_owned(), pair.1.to_owned()));
        i += 1;
    }
    proof {
        assert(r.deep_view() =~= kvs.deep_view());
    }
    r
}

/// Post-gate dispatch: construct the record from the resolved arguments
/// and hand it to the registered backend, or drop it silently while no
/// backend is set (a normal, supported state, not an error).
///
/// Passing key-value fields to a facade built without structured-field
/// support is a caller error, excluded by precondition.
pub fn log_impl<B: Backend>(
    registry: &mut Registry<B>,
    non_generic_args: &NonGenericArgs,
    target: &str,
    level: crate::level::Level,
    kvs: Option<&[(&str, &str)]>,
)
    requires
        kvs is Some ==> old(registry)@.kv_support,
    ensures
        final(registry)@.dynamic_max == old(registry)@.dynamic_max,
        final(registry)@.static_max == old(registry)@.static_max,
        final(registry)@.kv_support == old(registry)@.kv_support,
        final(registry).is_set() == old(registry).is_set(),
        old(registry).is_set() ==> final(registry).model() == old(registry).model().push(
            dispatched_record(
                level,
                target@,
                non_generic_args.module_and_file.0@,
                non_generic_args.module_and_file.1@,
                non_generic_args.line,
                non_generic_args.message@,
                (match kvs {
                    Some(s) => Some(s.deep_view()),
                    None => None,
                }),
            ),
        ),
        !old(registry).is_set() ==> *final(registry) == *old(registry),
{
    let kv_vec: Vec<(String, String)> = match kvs {
        Some(s) => copy_kvs(s),
        None => Vec::new(),
    };
    proof {
        if kvs is None {
            assert(kv_vec.deep_view() =~= Seq::<(Seq<char>, Seq<char>)>::empty());
        }
    }
    let record = Record::builder()
        .level(level)
        .target(target)
        .module(Some(non_generic_args.module_and_file.0))
        .file(Some(non_generic_args.module_and_file.1))
        .line(Some(non_generic_args.line))
        .message(non_generic_args.message)
        .key_values(kv_vec)
        .build();
    registry.dispatch_record(record);
}

/// The generic dispatch step a front end calls once the filtering gate has
/// passed: resolves the target, level, and field arguments, then builds
/// and dispatches the record.
pub fn log<'a, B: Backend, T: Target<'a>, L: Level, K: KVs<'a>>(
    registry: &mut Registry<B>,
    non_generic_args: &NonGenericArgs<'a>,
    target: T,
    level: L,
    kvs: K,
)
    requires
        kvs.spec_kvs() is Some ==> old(registry)@.kv_support,
    ensures
        final(registry)@.dynamic_max == old(registry)@.dynamic_max,
        final(registry)@.static_max == old(registry)@.static_max,
        final(registry)@.kv_support == old(registry)@.kv_support,
        final(registry).is_set() == old(registry).is_set(),
        old(registry).is_set() ==> final(registry).model() == old(registry).model().push(
            dispatched_record(
                level.spec_level(),
                target.spec_target(non_generic_args.module_and_file.0@),
                non_generic_args.module_and_file.0@,
                non_generic_args.module_and_file.1@,
                non_generic_args.line,
                non_generic_args.message@,
                kvs.spec_kvs(),
            ),
        ),
        !old(registry).is_set() ==> *final(registry) == *old(registry),
{
    log_impl(
        registry,
        non_generic_args,
        target.into_target(non_generic_args.module_and_file.0),
        level.into_level(),
        kvs.into_kvs(),
    )
}

/// Ask the registered backend's acceptance pre-check for a level and
/// target; while no backend is set, nothing is accepted.
pub fn enabled<B: Backend>(registry: &Registry<B>, level: crate::level::Level, target: &str) -> (r:
    bool)
    ensures
        r == registry.backend_accepts_spec(level, target@),
{
    registry.backend_accepts(level, target)
}

/// Whether a message at `level` for `target` would currently be logged:
/// it passes both ceilings and the backend's own pre-check. Callers use
/// this to skip expensive argument preparation.
pub fn log_enabled<B: Backend>(
    registry: &Registry<B>,
    level: crate::level::Level,
    target: &str,
) -> (r: bool)
    ensures
        r == (event_eligible(registry@.static_max, registry@.dynamic_max, level)
            && registry.backend_accepts_spec(level, target@)),
{
    registry.level_passes(level) && registry.backend_accepts(level, target)
}

/// What one complete logging call does to the registry: nothing at all
/// when the event's level fails either ceiling or no backend is set, and
/// otherwise exactly one record — carrying some message text the closure
/// can produce — is appended to the backend's history.
pub open spec fn spec_log_event<B: Backend, F: FnOnce() -> String>(
    pre: Registry<B>,
    post: Registry<B>,
    level: crate::level::Level,
    target: Option<Seq<char>>,
    module: Seq<char>,
    file: Seq<char>,
    line: u32,
    kvs: Option<Seq<(Seq<char>, Seq<char>)>>,
    message: F,
) -> bool {
    &&& post@.dynamic_max == pre@.dynamic_max
    &&& post@.static_max == pre@.static_max
    &&& post@.kv_support == pre@.kv_support
    &&& post.is_set() == pre.is_set()
    &&& (!event_eligible(pre@.static_max, pre@.dynamic_max, level) ==> post == pre)
    &&& (!pre.is_set() ==> post == pre)
    &&& ((event_eligible(pre@.static_max, pre@.dynamic_max, level) && pre.is_set())
        ==> (exists|m: String|
        #[trigger] call_ensures(message, (), m) && post.model() == pre.model().push(
            dispatched_record(
                level,
                (match target {
                    Some(t) => t,
                    None => module,
                }),
                module,
                file,
                line,
                m@,
                kvs,
            ),
        )))
}

/// Filtering correctness: a complete logging call appends exactly one
/// record — the one described by its arguments — when the event's level
/// passes both the build-time and the runtime ceiling and a backend is
/// registered, and leaves the backend's history untouched in every other
/// case. Both ceilings are necessary; neither alone suffices.
pub proof fn lemma_filtering_correctness<B: Backend, F: FnOnce() -> String>(
    pre: Registry<B>,
    post: Registry<B>,
    level: crate::level::Level,
    target: Option<Seq<char>>,
    module: Seq<char>,
    file: Seq<char>,
    line: u32,
    kvs: Option<Seq<(Seq<char>, Seq<char>)>>,
    message: F,
)
    requires
        spec_log_event(pre, post, level, target, module, file, line, kvs, message),
    ensures
        (event_eligible(pre@.static_max, pre@.dynamic_max, level) && pre.is_set()) ==> (
        post.model().len() == pre.model().len() + 1 && (exists|m: String|
            #[trigger] call_ensures(message, (), m) && post.model().last() == dispatched_record(
                level,
                (match target {
                    Some(t) => t,
                    None => module,
                }),
                module,
                file,
                line,
                m@,
                kvs,
            ))),
        !(event_eligible(pre@.static_max, pre@.dynamic_max, level) && pre.is_set())
            ==> post.model() == pre.model(),
{
    if event_eligible(pre@.static_max, pre@.dynamic_max, level) && pre.is_set() {
        let m = choose|m: String|
            call_ensures(message, (), m) && post.model() == pre.model().push(
                dispatched_record(
                    level,
                    (match target {
                        Some(t) => t,
                        None => module,
                    }),
                    module,
                    file,
                    line,
                    m@,
                    kvs,
                ),
            );
        assert(call_ensures(message, (), m));
    }
}

/// A complete logging call at `level`: the two-phase gate is evaluated
/// first, and only if the event's level passes both ceilings is the
/// message closure run, the record built — with the explicit target if one
/// was given, else the module path — and the record dispatched. A
/// filtered-out call runs no caller code and changes nothing.
pub fn log_event<'a, B: Backend, F: FnOnce() -> String>(
    registry: &mut Registry<B>,
    level: crate::level::Level,
    target: Option<&'a str>,
    module: &'a str,
    file: &'a str,
    line: u32,
    kvs: Option<&'a [(&'a str, &'a str)]>,
    message: F,
)
    requires
        event_eligible(old(registry)@.static_max, old(registry)@.dynamic_max, level)
            ==> call_requires(message, ()),
        kvs is Some ==> old(registry)@.kv_support,
    ensures
        spec_log_event(
            *old(registry),
            *final(registry),
            level,
            (match target {
                Some(t) => Some(t@),
                None => None,
            }),
            module@,
            file@,
            line,
            (match kvs {
                Some(s) => Some(s.deep_view()),
                None => None,
            }),
            message,
        ),
{
    if registry.level_passes(level) {
        let text = message();
        let non_generic_args = NonGenericArgs {
            module_and_file: (module, file),
            line,
            message: text.as_str(),
        };
        let resolved_target = match target {
            Some(t) => t,
            None => module,
        };
        log_impl(registry, &non_generic_args, resolved_target, level, kvs);
    }
}

/// A complete logging call at the `Error` level.
pub fn error<'a, B: Backend, F: FnOnce() -> String>(
    registry: &mut Registry<B>,
    target: Option<&'a str>,
    module: &'a str,
    file: &'a str,
    line: u32,
    kvs: Option<&'a [(&'a str, &'a str)]>,
    message: F,
)
    requires
        event_eligible(
            old(registry)@.static_max,
            old(registry)@.dynamic_max,
            crate::level::Level::Error,
        ) ==> call_requires(message, ()),
        kvs is Some ==> old(registry)@.kv_support,
    ensures
        spec_log_event(
            *old(registry),
            *final(registry),
            crate::level::Level::Error,
            (match target {
                Some(t) => Some(t@),
                None => None,
            }),
            module@,
            file@,
            line,
            (match kvs {
                Some(s) => Some(s.deep_view()),
                None => None,
            }),
            message,
        ),
{
    log_event(registry, crate::level::Level::Error, target, module, file, line, kvs, message)
}

/// A complete logging call at the `Warn` level.
pub fn warn<'a, B: Backend, F: FnOnce() -> String>(
    registry: &mut Registry<B>,
    target: Option<&'a str>,
    module: &'a str,
    file: &'a str,
    line: u32,
    kvs: Option<&'a [(&'a str, &'a str)]>,
    message: F,
)
    requires
        event_eligible(
            old(registry)@.static_max,
            old(registry)@.dynamic_max,
            crate::level::Level::Warn,
        ) ==> call_requires(message, ()),
        kvs is Some ==> old(registry)@.kv_support,
    ensures
        spec_log_event(
            *old(registry),
            *final(registry),
            crate::level::Level::Warn,
            (match target {
                Some(t) => Some(t@),
                None => None,
            }),
            module@,
            file@,
            line,
            (match kvs {
                Some(s) => Some(s.deep_view()),
                None => None,
            }),
            message,
        ),
{
    log_event(registry, crate::level::Level::Warn, target, module, file, line, kvs, message)
}

/// A complete logging call at the `Info` level.
pub fn info<'a, B: Backend, F: FnOnce() -> String>(
    registry: &mut Registry<B>,
    target: Option<&'a str>,
    module: &'a str,
    file: &'a str,
    line: u32,
    kvs: Option<&'a [(&'a str, &'a str)]>,
    message: F,
)
    requires
        event_eligible(
            old(registry)@.static_max,
            old(registry)@.dynamic_max,
            crate::level::Level::Info,
        ) ==> call_requires(message, ()),
        kvs is Some ==> old(registry)@.kv_support,
    ensures
        spec_log_event(
            *old(registry),
            *final(registry),
            crate::level::Level::Info,
            (match target {
                Some(t) => Some(t@),
                None => None,
            }),
            module@,
            file@,
            line,
            (match kvs {
                Some(s) => Some(s.deep_view()),
                None => None,
            }),
            message,
        ),
{
    log_event(registry, crate::level::Level::Info, target, module, file, line, kvs, message)
}

/// A complete logging call at the `Debug` level.
pub fn debug<'a, B: Backend, F: FnOnce() -> String>(
    registry: &mut Registry<B>,
    target: Option<&'a str>,
    module: &'a str,
    file: &'a str,
    line: u32,
    kvs: Option<&'a [(&'a str, &'a str)]>,
    message: F,
)
    requires
        event_eligible(
            old(registry)@.static_max,
            old(registry)@.dynamic_max,
            crate::level::Level::Debug,
        ) ==> call_requires(message, ()),
        kvs is Some ==> old(registry)@.kv_support,
    ensures
        spec_log_event(
            *old(registry),
            *final(registry),
            crate::level::Level::Debug,
            (match target {
                Some(t) => Some(t@),
                None => None,
            }),
            module@,
            file@,
            line,
            (match kvs {
                Some(s) => Some(s.deep_view()),
                None => None,
            }),
            message,
        ),
{
    log_event(registry, crate::level::Level::Debug, target, module, file, line, kvs, message)
}

/// A complete logging call at the `Trace` level.
pub fn trace<'a, B: Backend, F: FnOnce() -> String>(
    registry: &mut Registry<B>,
    target: Option<&'a str>,
    module: &'a str,
    file: &'a str,
    line: u32,
    kvs: Option<&'a [(&'a str, &'a str)]>,
    message: F,
)
    requires
        event_eligible(
            old(registry)@.static_max,
            old(registry)@.dynamic_max,
            crate::level::Level::Trace,
        ) ==> call_requires(message, ()),
        kvs is Some ==> old(registry)@.kv_support,
    ensures
        spec_log_event(
            *old(registry),
            *final(registry),
            crate::level::Level::Trace,
            (match target {
                Some(t) => Some(t@),
                None => None,
            }),
            module@,
            file@,
            line,
            (match kvs {
                Some(s) => Some(s.deep_view()),
                None => None,
            }),
            message,
        ),
{
    log_event(registry, crate::level::Level::Trace, target, module, file, line, kvs, message)
}

} // verus!
