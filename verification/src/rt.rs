use vstd::prelude::*;

verus! {

/// The asynchronous runtimes a build was compiled with, and its target.
#[derive(Clone, Copy, Debug, PartialEq, Eq, Structural)]
pub struct RuntimeFeatures {
    /// The `_rt-tokio` feature is enabled.
    pub tokio: bool,
    /// The `_rt-async-std` feature is enabled.
    pub async_std: bool,
    /// The build targets `wasm32` (WASI preview 3).
    pub wasm32: bool,
}

/// The runtime that drives an operation.
#[derive(Clone, Copy, Debug, PartialEq, Eq, Structural)]
pub enum Runtime {
    Tokio,
    AsyncStd,
    Wasi,
}

/// The runtime-dependent operations of this module.
#[derive(Clone, Copy, Debug, PartialEq, Eq, Structural)]
pub enum RuntimeOp {
    Timeout,
    Sleep,
    Spawn,
    SpawnBlocking,
    YieldNow,
    BlockOn,
}

/// Tokio when a Tokio context is current, else async-std when it is
/// compiled in, else nothing.
pub open spec fn tokio_then_async_std(features: RuntimeFeatures, tokio_context: bool) -> Option<Runtime> {
    if features.tokio && tokio_context {
        Some(Runtime::Tokio)
    } else if features.async_std {
        Some(Runtime::AsyncStd)
    } else {
        None
    }
}

/// The runtime that drives `op`, given the build and whether a Tokio context
/// is current; `None` means that no runtime is available.
pub open spec fn runtime_choice(op: RuntimeOp, features: RuntimeFeatures, tokio_context: bool) -> Option<Runtime> {
    match op {
        RuntimeOp::Timeout | RuntimeOp::Sleep => {
            if features.wasm32 {
                Some(Runtime::Wasi)
            } else {
                tokio_then_async_std(features, tokio_context)
            }
        },
        RuntimeOp::Spawn => {
            if features.wasm32 {
                Some(Runtime::Tokio)
            } else {
                tokio_then_async_std(features, tokio_context)
            }
        },
        RuntimeOp::SpawnBlocking | RuntimeOp::YieldNow => tokio_then_async_std(features, tokio_context),
        RuntimeOp::BlockOn => {
            if features.tokio || features.wasm32 {
                Some(Runtime::Tokio)
            } else if features.async_std {
                Some(Runtime::AsyncStd)
            } else {
                None
            }
        },
    }
}

/// Picks the runtime that drives `op`.
pub fn select_runtime(op: RuntimeOp, features: RuntimeFeatures, tokio_context: bool) -> (r: Option<Runtime>)
    ensures
        r == runtime_choice(op, features, tokio_context),
{
    let wasi_first = match op {
        RuntimeOp::Timeout | RuntimeOp::Sleep => true,
        _ => false,
    };
    match op {
        RuntimeOp::BlockOn => {
            if features.tokio || features.wasm32 {
                Some(Runtime::Tokio)
            } else if features.async_std {
                Some(Runtime::AsyncStd)
            } else {
                None
            }
        },
        _ => {
            if features.wasm32 && wasi_first {
                Some(Runtime::Wasi)
            } else if features.wasm32 && op == RuntimeOp::Spawn {
                Some(Runtime::Tokio)
            } else if features.tokio && tokio_context {
                Some(Runtime::Tokio)
            } else if features.async_std {
                Some(Runtime::AsyncStd)
            } else {
                None
            }
        },
    }
}


/// Whether picking the runtime for `op` looks at the current Tokio context
/// at all: only Tokio builds do, and not where WASI or the build alone
/// decides.
pub open spec fn consults_tokio_context(op: RuntimeOp, features: RuntimeFeatures) -> bool {
    &&& features.tokio
    &&& op != RuntimeOp::BlockOn
    &&& !(features.wasm32 && (op == RuntimeOp::Timeout || op == RuntimeOp::Sleep || op == RuntimeOp::Spawn))
}

/// Asks Tokio whether a runtime context is current on this thread
/// (`tokio::runtime::Handle::try_current` succeeds). What it answers depends
/// on the calling thread's state, so nothing is stated of it.
#[verifier::external_body]
fn tokio_context_available() -> (available: bool) {
    tokio::runtime::Handle::try_current().is_ok()
}

/// Picks the runtime that drives `op` in the current thread: the Tokio
/// context is looked up only where the choice depends on it.
pub fn current_runtime(op: RuntimeOp, features: RuntimeFeatures) -> (r: Option<Runtime>)
    ensures
        r == runtime_choice(op, features, false) || r == runtime_choice(op, features, true),
        !consults_tokio_context(op, features) ==> r == runtime_choice(op, features, false),
        !consults_tokio_context(op, features) ==> r == runtime_choice(op, features, true),
{
    let consult = features.tokio && !(op == RuntimeOp::BlockOn) && !(features.wasm32 && (
    op == RuntimeOp::Timeout || op == RuntimeOp::Sleep || op == RuntimeOp::Spawn));
    let tokio_context = if consult {
        tokio_context_available()
    } else {
        false
    };
    select_runtime(op, features, tokio_context)
}

/// A runtime is only ever chosen where it is compiled in: Tokio in Tokio
/// builds (and on WASI, which always has it), async-std in async-std
/// builds, WASI on `wasm32`.
pub proof fn lemma_runtime_is_compiled_in(op: RuntimeOp, features: RuntimeFeatures, tokio_context: bool)
    ensures
        runtime_choice(op, features, tokio_context) == Some(Runtime::Tokio) ==> features.tokio || features.wasm32,
        runtime_choice(op, features, tokio_context) == Some(Runtime::AsyncStd) ==> features.async_std,
        runtime_choice(op, features, tokio_context) == Some(Runtime::Wasi) ==> features.wasm32,
{
}

/// Off WASI, a current Tokio context wins: every operation runs on Tokio,
/// even where async-std is compiled in as well.
pub proof fn lemma_tokio_context_wins(op: RuntimeOp, features: RuntimeFeatures)
    requires
        features.tokio,
        !features.wasm32,
    ensures
        runtime_choice(op, features, true) == Some(Runtime::Tokio),
{
}

/// Off WASI, every operation but blocking on a future runs on Tokio exactly
/// when Tokio is compiled in and a Tokio context is current: without a
/// context such an operation never goes to Tokio.
pub proof fn lemma_tokio_exactly_with_context(op: RuntimeOp, features: RuntimeFeatures, tokio_context: bool)
    requires
        !features.wasm32,
        op != RuntimeOp::BlockOn,
    ensures
        runtime_choice(op, features, tokio_context) == Some(Runtime::Tokio) <==> features.tokio && tokio_context,
        runtime_choice(op, features, false) != Some(Runtime::Tokio),
{
}

/// Blocking on a future never looks at the Tokio context: it builds a Tokio
/// runtime exactly in Tokio builds and on WASI.
pub proof fn lemma_block_on_ignores_context(features: RuntimeFeatures, tokio_context: bool)
    ensures
        runtime_choice(RuntimeOp::BlockOn, features, tokio_context) == runtime_choice(RuntimeOp::BlockOn, features, !tokio_context),
        runtime_choice(RuntimeOp::BlockOn, features, tokio_context) == Some(Runtime::Tokio) <==> features.tokio || features.wasm32,
{
}

/// On WASI, spawning always goes to Tokio, and time is kept by WASI exactly
/// for timeouts and sleeps.
pub proof fn lemma_wasi_routes(op: RuntimeOp, features: RuntimeFeatures, tokio_context: bool)
    ensures
        features.wasm32 && op == RuntimeOp::Spawn ==> runtime_choice(op, features, tokio_context) == Some(Runtime::Tokio),
        runtime_choice(op, features, tokio_context) == Some(Runtime::Wasi)
            <==> features.wasm32 && (op == RuntimeOp::Timeout || op == RuntimeOp::Sleep),
{
}

/// async-std is the fallback: with it compiled in, no operation is left
/// without a runtime; it is only chosen where it is compiled in.
pub proof fn lemma_async_std_fallback(op: RuntimeOp, features: RuntimeFeatures, tokio_context: bool)
    ensures
        features.async_std ==> runtime_choice(op, features, tokio_context) is Some,
        runtime_choice(op, features, tokio_context) == Some(Runtime::AsyncStd) ==> features.async_std,
{
}

/// A current Tokio context can only move an operation onto Tokio: where the
/// choice with a context differs from the one without, it is Tokio; and an
/// operation on Tokio without a context stays on Tokio with one.
pub proof fn lemma_context_only_adds_tokio(op: RuntimeOp, features: RuntimeFeatures)
    ensures
        runtime_choice(op, features, true) != runtime_choice(op, features, false)
            ==> runtime_choice(op, features, true) == Some(Runtime::Tokio),
        runtime_choice(op, features, false) == Some(Runtime::Tokio)
            ==> runtime_choice(op, features, true) == Some(Runtime::Tokio),
{
}

/// An operation finds no runtime exactly when none that it may use is
/// there: blocking on a future needs Tokio, WASI or async-std compiled in;
/// the others need a current Tokio context (in a Tokio build) or async-std,
/// and time and spawning also make do with WASI.
pub proof fn lemma_missing_runtime_exactly(op: RuntimeOp, features: RuntimeFeatures, tokio_context: bool)
    ensures
        op == RuntimeOp::BlockOn ==> (runtime_choice(op, features, tokio_context) is None
            <==> !features.tokio && !features.wasm32 && !features.async_std),
        (op == RuntimeOp::Timeout || op == RuntimeOp::Sleep || op == RuntimeOp::Spawn) ==> (
            runtime_choice(op, features, tokio_context) is None
            <==> !features.wasm32 && !(features.tokio && tokio_context) && !features.async_std),
        (op == RuntimeOp::SpawnBlocking || op == RuntimeOp::YieldNow) ==> (
            runtime_choice(op, features, tokio_context) is None
            <==> !(features.tokio && tokio_context) && !features.async_std),
{
}

/// The message with which an operation that found no runtime stops.
pub open spec fn missing_rt_text(features: RuntimeFeatures) -> Seq<char> {
    if features.tokio {
        "this functionality requires a Tokio context"@
    } else {
        "either the `runtime-async-std` or `runtime-tokio` feature must be enabled"@
    }
}

/// Stops an operation that found no runtime: it gives the message that the
/// operation stops with, which depends on the build alone, never on
/// `_unused`. Verified code cannot stop itself, so the caller panics with
/// this message, and nothing follows the call.
pub fn missing_rt<T>(_unused: T, features: RuntimeFeatures) -> (message: &'static str)
    ensures
        message@ == missing_rt_text(features),
{
    if features.tokio {
        "this functionality requires a Tokio context"
    } else {
        "either the `runtime-async-std` or `runtime-tokio` feature must be enabled"
    }
}

/// The error of an operation that did not complete in time.
#[derive(Debug)]
pub struct TimeoutError(());

impl TimeoutError {
    pub fn new() -> (e: TimeoutError) {
        TimeoutError(())
    }

    /// The text of the error: "operation timed out".
    pub fn message(&self) -> (m: &'static str)
        ensures
            m@ == "operation timed out"@,
    {
        "operation timed out"
    }
}

/// The state of a polled future: finished with a value, or not yet.
#[derive(Debug)]
pub enum PollState<T> {
    Ready(T),
    Pending,
}

/// What a timeout does after polling its timer.
#[derive(Debug)]
pub enum TimeoutStep {
    /// The timer has finished: the timeout fails.
    Expired(TimeoutError),
    /// The timer runs on: poll the wrapped future.
    PollInner,
}

/// A timer counts as expired as soon as its wait has finished, whatever it
/// finished with.
pub open spec fn timer_expired<T>(timer: PollState<T>) -> bool {
    timer is Ready
}

/// Decides a timeout's poll from its timer's poll.
pub fn timeout_on_timer(timer: PollState<Option<()>>) -> (step: TimeoutStep)
    ensures
        (step is Expired) == timer_expired(timer),
        (step is PollInner) == !timer_expired(timer),
{
    match timer {
        PollState::Ready(_) => TimeoutStep::Expired(TimeoutError(())),
        PollState::Pending => TimeoutStep::PollInner,
    }
}

/// The timeout's poll result once its wrapped future has been polled: the
/// future's value, wrapped in `Ok`, or pending.
pub fn timeout_on_inner<T>(inner: PollState<T>) -> (r: PollState<Result<T, TimeoutError>>)
    ensures
        inner is Pending ==> r is Pending,
        inner matches PollState::Ready(v) ==> r matches PollState::Ready(Ok(w)) && w == v,
{
    match inner {
        PollState::Ready(v) => PollState::Ready(Ok(v)),
        PollState::Pending => PollState::Pending,
    }
}

/// Turns the result of a runtime's own timeout into this module's: its
/// value on success, `TimeoutError` for whatever error the runtime gave.
pub fn map_timeout_result<T, E>(r: Result<T, E>) -> (out: Result<T, TimeoutError>)
    ensures
        r is Err ==> out is Err,
        r matches Ok(v) ==> out matches Ok(w) && w == v,
{
    match r {
        Ok(v) => Ok(v),
        Err(_) => Err(TimeoutError(())),
    }
}

/// With Tokio compiled in, a missing runtime is a missing Tokio context:
/// the same operation inside one runs on Tokio, and `missing_rt` says that
/// a Tokio context is required.
pub proof fn lemma_missing_runtime_in_tokio_build(op: RuntimeOp, features: RuntimeFeatures, tokio_context: bool)
    requires
        features.tokio,
        runtime_choice(op, features, tokio_context) is None,
    ensures
        !tokio_context,
        runtime_choice(op, features, true) == Some(Runtime::Tokio),
        missing_rt_text(features) == "this functionality requires a Tokio context"@,
{
}

/// A wait in nanoseconds as the WASI clock takes it: a `u64`, saturated.
pub open spec fn saturated_nanos(nanos: int) -> int {
    if nanos <= u64::MAX {
        nanos
    } else {
        u64::MAX as int
    }
}

/// Converts a duration's nanoseconds for the WASI monotonic clock, which
/// takes them as a `u64`; longer waits become the longest one.
pub fn wait_nanos(nanos: u128) -> (r: u64)
    ensures
        r == saturated_nanos(nanos as int),
        nanos <= 0xffff_ffff_ffff_ffffu128 ==> r == nanos,
        nanos > 0xffff_ffff_ffff_ffffu128 ==> r == 0xffff_ffff_ffff_ffffu64,
{
    if nanos <= u64::MAX as u128 {
        nanos as u64
    } else {
        u64::MAX
    }
}

/// Every wait that fits in a `u64` is kept exactly, and every longer one
/// becomes the longest `u64` wait.
pub proof fn lemma_saturated_nanos_keeps_fitting_waits(nanos: int)
    requires
        0 <= nanos,
    ensures
        nanos <= 0xffff_ffff_ffff_ffff ==> saturated_nanos(nanos) == nanos,
        nanos > 0xffff_ffff_ffff_ffff ==> saturated_nanos(nanos) == 0xffff_ffff_ffff_ffff,
{
}

/// A longer duration never waits less.
pub proof fn lemma_saturated_nanos_monotone(a: int, b: int)
    requires
        0 <= a <= b,
    ensures
        saturated_nanos(a) <= saturated_nanos(b),
        0 <= saturated_nanos(a) <= u64::MAX,
{
}

} // verus!
