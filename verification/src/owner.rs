use vstd::prelude::*;
use vstd::string::*;

use crate::error::{
    detached_error, internal_error, lifecycle_error, native_error, spec_detached_error, swmm_error_is,
    DetachedFailure, ErrorCode, NativeError, SwmmError,
};

verus! {

/// Lifecycle state reported by the solver for the owned project.
#[derive(Clone, Copy, Debug, PartialEq, Eq, Structural)]
pub enum SimulationLifecycle {
    Open,
    Running,
    Complete,
    Ended,
    Failed,
    Closed,
}

/// Lock-free iterator ownership and termination-request state.
#[derive(Clone, Copy, Debug, PartialEq, Eq, Structural)]
pub enum IteratorState {
    Idle,
    Iterating,
    Requested,
}

/// The recognized iterator state for a private byte.
pub open spec fn spec_iterator_from_byte(value: u8) -> Option<IteratorState> {
    if value == 0 {
        Some(IteratorState::Idle)
    } else if value == 1 {
        Some(IteratorState::Iterating)
    } else if value == 2 {
        Some(IteratorState::Requested)
    } else {
        None
    }
}

/// The private byte that represents an iterator state.
pub open spec fn spec_iterator_byte(state: IteratorState) -> u8 {
    match state {
        IteratorState::Idle => 0,
        IteratorState::Iterating => 1,
        IteratorState::Requested => 2,
    }
}

impl IteratorState {
    /// Converts the private representation into a typed iterator state.
    pub fn from_byte(value: u8) -> (state: Option<IteratorState>)
        ensures
            state == spec_iterator_from_byte(value),
    {
        match value {
            0 => Some(IteratorState::Idle),
            1 => Some(IteratorState::Iterating),
            2 => Some(IteratorState::Requested),
            _ => None,
        }
    }

    /// Converts a typed iterator state to its private representation.
    pub fn byte(self) -> (value: u8)
        ensures
            value == spec_iterator_byte(self),
    {
        match self {
            IteratorState::Idle => 0,
            IteratorState::Iterating => 1,
            IteratorState::Requested => 2,
        }
    }
}

/// Every iterator state survives the round trip through its private byte.
pub proof fn lemma_iterator_byte_round_trip(state: IteratorState)
    ensures
        spec_iterator_from_byte(spec_iterator_byte(state)) == Some(state),
{
}

/// A recognized byte is the representation of the state it decodes to.
pub proof fn lemma_iterator_byte_recognized(value: u8)
    ensures
        spec_iterator_from_byte(value) matches Some(s) ==> spec_iterator_byte(s) == value,
        spec_iterator_from_byte(value) is Some <==> value < 3,
{
}

/// Iterator state held in its private byte representation; the byte never escapes.
pub struct AtomicIteratorState {
    value: u8,
}

impl AtomicIteratorState {
    /// The typed state currently published.
    pub closed spec fn state(&self) -> Option<IteratorState> {
        spec_iterator_from_byte(self.value)
    }

    /// The published byte always names a recognized state.
    pub closed spec fn wf(&self) -> bool {
        self.value < 3
    }

    /// A recognized published state is exactly a well-formed representation.
    pub proof fn lemma_state_wf(&self)
        ensures
            self.state() is Some <==> self.wf(),
    {
    }

    /// Creates an idle iterator state.
    pub fn idle() -> (state: AtomicIteratorState)
        ensures
            state.wf(),
            state.state() == Some(IteratorState::Idle),
    {
        AtomicIteratorState { value: IteratorState::Idle.byte() }
    }

    /// Loads the current typed iterator state.
    pub fn load(&self) -> (state: Option<IteratorState>)
        ensures
            state == self.state(),
            self.wf() ==> state is Some,
    {
        IteratorState::from_byte(self.value)
    }

    /// Publishes a typed iterator state.
    pub fn store(&mut self, state: IteratorState)
        ensures
            final(self).state() == Some(state),
            final(self).wf(),
    {
        self.value = state.byte();
    }

    /// Replaces the published state with `new` when it currently is `current`.
    pub fn replace(&mut self, current: IteratorState, new: IteratorState) -> (replaced: bool)
        ensures
            replaced == (old(self).state() == Some(current)),
            final(self).state() == if replaced { Some(new) } else { old(self).state() },
            old(self).wf() ==> final(self).wf(),
    {
        if self.value == current.byte() {
            self.value = new.byte();
            true
        } else {
            false
        }
    }
}

/// Checked identity of one successfully opened project.
#[derive(Clone, Copy, Debug, PartialEq, Eq, Structural)]
pub struct ProjectGeneration(pub u64);

/// Absolute paths and destination keys retained for an open project.
#[derive(Clone, Debug)]
pub struct OwnerPaths {
    pub input: String,
    pub report: String,
    pub output: Option<String>,
    pub input_key: String,
    pub report_key: String,
    pub output_key: Option<String>,
    pub hotstart: Option<String>,
    pub hotstart_key: Option<String>,
}

/// True when an optional key is present and equal to `key`.
pub open spec fn key_matches(slot: Option<String>, key: Seq<char>) -> bool {
    slot matches Some(k) && k@ == key
}

impl OwnerPaths {
    /// True when `key` names a destination owned by these paths.
    pub open spec fn spec_collides(&self, key: Seq<char>, include_hotstart: bool) -> bool {
        ||| self.input_key@ == key
        ||| self.report_key@ == key
        ||| key_matches(self.output_key, key)
        ||| include_hotstart && key_matches(self.hotstart_key, key)
    }

    /// Returns whether `key` names the input, report, output, or (when asked) hotstart destination.
    pub fn collides(&self, key: &str, include_hotstart: bool) -> (collides: bool)
        ensures
            collides == self.spec_collides(key@, include_hotstart),
    {
        if crate::text::str_eq(self.input_key.as_str(), key) {
            return true;
        }
        if crate::text::str_eq(self.report_key.as_str(), key) {
            return true;
        }
        if let Some(output_key) = &self.output_key {
            if crate::text::str_eq(output_key.as_str(), key) {
                return true;
            }
        }
        if include_hotstart {
            if let Some(hotstart_key) = &self.hotstart_key {
                if crate::text::str_eq(hotstart_key.as_str(), key) {
                    return true;
                }
            }
        }
        false
    }
}

/// The output named in diagnostics: the retained path, or `<scratch>` when none is retained.
pub open spec fn spec_output_label(paths: OwnerPaths) -> Seq<char> {
    match paths.output {
        Some(output) => if output@.len() == 0 {
            "<scratch>"@
        } else {
            output@
        },
        None => "<scratch>"@,
    }
}

/// The attempted-paths sentence appended to open failures.
pub open spec fn spec_attempted(paths: OwnerPaths) -> Seq<char> {
    "attempted input "@ + paths.input@ + ", report "@ + paths.report@ + ", output "@
        + spec_output_label(paths)
}

/// Builds the attempted-paths sentence for open failures.
pub fn attempted_paths(paths: &OwnerPaths) -> (sentence: String)
    ensures
        sentence@ == spec_attempted(*paths),
{
    let mut sentence = String::from_str("attempted input ");
    sentence.append(paths.input.as_str());
    sentence.append(", report ");
    sentence.append(paths.report.as_str());
    sentence.append(", output ");
    match &paths.output {
        Some(output) => {
            if output.as_str().is_empty() {
                sentence.append("<scratch>");
            } else {
                sentence.append(output.as_str());
            }
        },
        None => {
            sentence.append("<scratch>");
        },
    }
    sentence
}

/// The detail of a failed solver open: the solver's own detail followed by the attempted paths.
pub open spec fn spec_open_failure_detail(detail: Option<String>, paths: OwnerPaths) -> Seq<char> {
    match detail {
        Some(d) => d@ + "; "@ + spec_attempted(paths),
        None => spec_attempted(paths),
    }
}

/// A solver operation's result together with the lifecycle state the solver reports afterwards.
#[derive(Debug)]
pub struct Reported<T> {
    pub result: Result<T, SwmmError>,
    pub lifecycle: SimulationLifecycle,
}

/// Mutable state serialized behind the owner lock.
///
/// `lifecycle` is the solver lifecycle state as last reported by a solver operation.
#[derive(Clone, Debug)]
pub struct HandleState {
    pub lifecycle: SimulationLifecycle,
    pub generation_counter: u64,
    pub active_generation: Option<ProjectGeneration>,
    pub failure_operation: Option<&'static str>,
    pub paths: Option<OwnerPaths>,
    pub advance_stride: Option<(i32, bool)>,
    pub iterator_exhausted: bool,
}

/// How a handle changes when the solver's open reports `solver`: a success installs the next
/// generation; a failure keeps the handle and annotates the error with the attempted paths.
pub open spec fn spec_open_transition(
    before: HandleState,
    after: HandleState,
    paths: OwnerPaths,
    result: Result<(), SwmmError>,
    solver: Reported<()>,
) -> bool {
    &&& solver.result is Ok ==> result is Ok && after == before.spec_opened(paths, solver.lifecycle)
    &&& solver.result is Err ==> {
        &&& after == (HandleState { lifecycle: solver.lifecycle, ..before })
        &&& result is Err
        &&& swmm_error_is(
            result->Err_0,
            solver.result->Err_0.code,
            spec_open_failure_detail(solver.result->Err_0.detail, paths),
        )
    }
}

impl HandleState {
    /// The active generation, when there is one, is the last one issued.
    pub open spec fn wf(&self) -> bool {
        self.active_generation matches Some(g) ==> g.0 == self.generation_counter
            && self.generation_counter >= 1
    }

    /// The state after a successful open with `paths`.
    pub open spec fn spec_opened(self, paths: OwnerPaths, lifecycle: SimulationLifecycle) -> HandleState {
        HandleState {
            lifecycle,
            generation_counter: (self.generation_counter + 1) as u64,
            active_generation: Some(ProjectGeneration((self.generation_counter + 1) as u64)),
            failure_operation: None,
            paths: Some(paths),
            advance_stride: None,
            iterator_exhausted: false,
        }
    }

    /// The state after a close, whatever the solver reported.
    pub open spec fn spec_closed(self, lifecycle: SimulationLifecycle) -> HandleState {
        HandleState {
            lifecycle,
            active_generation: None,
            failure_operation: None,
            iterator_exhausted: true,
            ..self
        }
    }

    /// A closed handle that has never opened a project.
    pub open spec fn new_spec() -> HandleState {
        HandleState {
            lifecycle: SimulationLifecycle::Closed,
            generation_counter: 0,
            active_generation: None,
            failure_operation: None,
            paths: None,
            advance_stride: None,
            iterator_exhausted: false,
        }
    }

    /// Creates one closed handle with no Project Generation.
    pub fn new() -> (handle: HandleState)
        ensures
            handle.wf(),
            handle.lifecycle == SimulationLifecycle::Closed,
            handle.generation_counter == 0,
            handle.active_generation is None,
            handle.failure_operation is None,
            handle.paths is None,
            handle.advance_stride is None,
            !handle.iterator_exhausted,
    {
        HandleState {
            lifecycle: SimulationLifecycle::Closed,
            generation_counter: 0,
            active_generation: None,
            failure_operation: None,
            paths: None,
            advance_stride: None,
            iterator_exhausted: false,
        }
    }

    /// Opens a project through `open` and installs its next checked generation identity.
    ///
    /// `open` is the solver's project open, handed the paths being attempted; it is not called
    /// when the generation counter is exhausted.
    pub fn open_project<F: FnOnce(&OwnerPaths) -> Reported<()>>(
        &mut self,
        paths: OwnerPaths,
        open: F,
    ) -> (result: Result<(), SwmmError>)
        requires
            call_requires(open, (&paths,)),
        ensures
            old(self).generation_counter == u64::MAX ==> {
                &&& result is Err
                &&& swmm_error_is(
                    result->Err_0,
                    ErrorCode::System,
                    "project generation exhausted; "@ + spec_attempted(paths),
                )
                &&& *final(self) == *old(self)
            },
            old(self).generation_counter < u64::MAX ==> exists|solver: Reported<()>|
                call_ensures(open, (&paths,), solver) && spec_open_transition(
                    *old(self),
                    *final(self),
                    paths,
                    result,
                    solver,
                ),
            old(self).wf() ==> final(self).wf(),
    {
        let ghost requested = paths;
        if self.generation_counter == u64::MAX {
            let detail = String::from_str("project generation exhausted; ").concat(
                attempted_paths(&paths).as_str(),
            );
            return Err(SwmmError::with_detail(ErrorCode::System, detail));
        }
        let generation = self.generation_counter + 1;
        let opened = open(&paths);
        let ghost solver = opened;
        assert(call_ensures(open, (&paths,), solver));
        self.lifecycle = opened.lifecycle;
        match opened.result {
            Err(error) => {
                let attempted = attempted_paths(&paths);
                let detail = match error.detail {
                    Some(detail) => detail.concat("; ").concat(attempted.as_str()),
                    None => attempted,
                };
                let result = Err(SwmmError { code: error.code, detail: Some(detail) });
                assert(spec_open_transition(*old(self), *self, requested, result, solver));
                return result;
            },
            Ok(()) => {},
        }
        self.generation_counter = generation;
        self.failure_operation = None;
        self.active_generation = Some(ProjectGeneration(generation));
        self.paths = Some(paths);
        self.advance_stride = None;
        self.iterator_exhausted = false;
        assert(spec_open_transition(*old(self), *self, requested, Ok(()), solver));
        Ok(())
    }

    /// Closes the project through `close` and clears its active generation even when cleanup fails.
    pub fn close_project<F: FnOnce() -> Reported<()>>(&mut self, close: F) -> (result: Result<
        (),
        SwmmError,
    >)
        requires
            call_requires(close, ()),
        ensures
            exists|solver: Reported<()>|
                {
                    &&& call_ensures(close, (), solver)
                    &&& result == solver.result
                    &&& *final(self) == old(self).spec_closed(solver.lifecycle)
                },
            final(self).wf(),
    {
        let closed = close();
        let ghost solver = closed;
        self.lifecycle = closed.lifecycle;
        self.active_generation = None;
        self.failure_operation = None;
        self.iterator_exhausted = true;
        assert(call_ensures(close, (), solver) && *self == old(self).spec_closed(solver.lifecycle));
        closed.result
    }

    /// Executes one full run through `run` and clears the generation that execution closed.
    pub fn execute<F: FnOnce(bool) -> Reported<()>>(&mut self, save_results: bool, run: F) -> (result:
        Result<(), SwmmError>)
        requires
            call_requires(run, (save_results,)),
        ensures
            exists|solver: Reported<()>|
                {
                    &&& call_ensures(run, (save_results,), solver)
                    &&& result == solver.result
                    &&& solver.lifecycle == SimulationLifecycle::Closed ==> *final(self)
                        == (HandleState {
                        lifecycle: solver.lifecycle,
                        active_generation: None,
                        iterator_exhausted: true,
                        ..*old(self)
                    })
                    &&& solver.lifecycle != SimulationLifecycle::Closed ==> *final(self)
                        == (HandleState { lifecycle: solver.lifecycle, ..*old(self) })
                },
            old(self).wf() ==> final(self).wf(),
    {
        let ran = run(save_results);
        let ghost solver = ran;
        assert(call_ensures(run, (save_results,), solver));
        self.lifecycle = ran.lifecycle;
        if ran.lifecycle == SimulationLifecycle::Closed {
            self.active_generation = None;
            self.iterator_exhausted = true;
        }
        ran.result
    }
}


/// Flags of the deterministic pause and acquisition probe used by concurrency tests.
///
/// Waiting on these flags (with a deadline) is done by the caller that owns the condition variable.
#[derive(Clone, Copy, Debug, PartialEq, Eq, Structural)]
pub struct TestConcurrencyState {
    pub pause_armed: bool,
    pub paused: bool,
    pub release_pause: bool,
    pub probe_armed: bool,
    pub probe_waiting: bool,
    pub probe_acquired: bool,
}

impl TestConcurrencyState {
    /// All flags cleared.
    pub open spec fn new_spec() -> TestConcurrencyState {
        TestConcurrencyState {
            pause_armed: false,
            paused: false,
            release_pause: false,
            probe_armed: false,
            probe_waiting: false,
            probe_acquired: false,
        }
    }

    /// The flags after `arm_pause`.
    pub open spec fn spec_arm_pause(self) -> TestConcurrencyState {
        TestConcurrencyState { pause_armed: true, paused: false, release_pause: false, ..self }
    }

    /// Whether `before_unlock` makes its caller wait, and the flags after it.
    pub open spec fn spec_before_unlock(self) -> (bool, TestConcurrencyState) {
        if self.pause_armed {
            (true, TestConcurrencyState { pause_armed: false, paused: true, ..self })
        } else {
            (false, self)
        }
    }

    /// The flags after `release_pause`.
    pub open spec fn spec_release_pause(self) -> TestConcurrencyState {
        TestConcurrencyState { release_pause: true, ..self }
    }

    /// The flags after `finish_pause`.
    pub open spec fn spec_finish_pause(self) -> TestConcurrencyState {
        TestConcurrencyState { paused: false, release_pause: false, ..self }
    }

    /// Creates the test flags with every flag cleared.
    pub fn new() -> (state: TestConcurrencyState)
        ensures
            state == TestConcurrencyState::new_spec(),
    {
        TestConcurrencyState {
            pause_armed: false,
            paused: false,
            release_pause: false,
            probe_armed: false,
            probe_waiting: false,
            probe_acquired: false,
        }
    }

    /// Arms one pause after the next owner operation finishes but before unlock.
    pub fn arm_pause(&mut self)
        ensures
            *final(self) == old(self).spec_arm_pause(),
    {
        self.pause_armed = true;
        self.paused = false;
        self.release_pause = false;
    }

    /// Whether an armed completed operation holds the owner lock; the caller waits on this flag.
    pub fn wait_paused(&self) -> (paused: bool)
        ensures
            paused == self.paused,
    {
        self.paused
    }

    /// Releases the completed operation to unlock its owner lock.
    pub fn release_pause(&mut self)
        ensures
            *final(self) == old(self).spec_release_pause(),
    {
        self.release_pause = true;
    }

    /// Arms observation of the next production owner acquisition.
    pub fn arm_probe(&mut self)
        ensures
            *final(self) == (TestConcurrencyState {
                probe_armed: true,
                probe_waiting: false,
                probe_acquired: false,
                ..*old(self)
            }),
    {
        self.probe_armed = true;
        self.probe_waiting = false;
        self.probe_acquired = false;
    }

    /// Records that an operation is about to acquire the owner lock.
    pub fn before_lock(&mut self)
        ensures
            old(self).probe_armed ==> *final(self) == (TestConcurrencyState {
                probe_waiting: true,
                ..*old(self)
            }),
            !old(self).probe_armed ==> *final(self) == *old(self),
    {
        if self.probe_armed {
            self.probe_waiting = true;
        }
    }

    /// Records that an observed operation acquired the owner lock.
    pub fn after_lock(&mut self)
        ensures
            old(self).probe_armed ==> *final(self) == (TestConcurrencyState {
                probe_armed: false,
                probe_acquired: true,
                ..*old(self)
            }),
            !old(self).probe_armed ==> *final(self) == *old(self),
    {
        if self.probe_armed {
            self.probe_armed = false;
            self.probe_acquired = true;
        }
    }

    /// Starts an armed pause before the owner lock is released.
    ///
    /// Returns `true` when the caller must now wait until `release_pause` is set and then call
    /// `finish_pause`.
    pub fn before_unlock(&mut self) -> (must_wait: bool)
        ensures
            (must_wait, *final(self)) == old(self).spec_before_unlock(),
    {
        if self.pause_armed {
            self.pause_armed = false;
            self.paused = true;
            true
        } else {
            false
        }
    }

    /// Ends a released pause.
    pub fn finish_pause(&mut self)
        ensures
            *final(self) == old(self).spec_finish_pause(),
    {
        self.paused = false;
        self.release_pause = false;
    }

    /// Whether an operation reached owner acquisition; the caller waits on this flag.
    pub fn wait_probe_waiting(&self) -> (waiting: bool)
        ensures
            waiting == self.probe_waiting,
    {
        self.probe_waiting
    }

    /// Returns whether the armed operation acquired the owner lock.
    pub fn probe_acquired(&self) -> (acquired: bool)
        ensures
            acquired == self.probe_acquired,
    {
        self.probe_acquired
    }
}


/// A view operation's result together with the lifecycle state the solver reports afterwards.
#[derive(Debug)]
pub struct ReportedView<T> {
    pub result: Result<T, DetachedFailure>,
    pub lifecycle: SimulationLifecycle,
}

/// Where an `iterator_next` exchange with the solver stands.
#[derive(Clone, Copy, Debug, PartialEq, Eq, Structural)]
pub enum NextPhase {
    /// No exchange is under way.
    Ready,
    /// The solver was asked to start the run lazily.
    Starting,
    /// The solver was asked to advance on behalf of the owning iterator.
    Advancing,
    /// The solver was asked to advance a project no iterator can own.
    AdvancingUnowned,
    /// The solver was asked to end the run.
    Ending,
}

/// The synchronized Simulation Owner: its handle state, iterator state, test flags, and the
/// phase of any `iterator_next` exchange under way.
pub struct NativeSimulation {
    pub handle: HandleState,
    pub iterator_state: AtomicIteratorState,
    pub test_concurrency: TestConcurrencyState,
    pub next_phase: NextPhase,
}

/// The operation named by a solver failure: the first failing operation once the project failed.
pub open spec fn spec_failure_operation(
    handle: HandleState,
    operation: &'static str,
    lifecycle: SimulationLifecycle,
) -> &'static str {
    if lifecycle == SimulationLifecycle::Failed {
        match handle.failure_operation {
            Some(first) => first,
            None => operation,
        }
    } else {
        operation
    }
}

/// The handle after a mutating operation reported `lifecycle` and, when `failed`, a failure:
/// the lifecycle is recorded, and a failure that leaves the project `Failed` latches the first
/// failing operation.
pub open spec fn spec_latched(
    handle: HandleState,
    operation: &'static str,
    lifecycle: SimulationLifecycle,
    failed: bool,
) -> HandleState {
    if failed && lifecycle == SimulationLifecycle::Failed {
        HandleState {
            lifecycle,
            failure_operation: Some(spec_failure_operation(handle, operation, lifecycle)),
            ..handle
        }
    } else {
        HandleState { lifecycle, ..handle }
    }
}

/// The result of a mutating operation: a solver failure names the operation that failed the project.
pub open spec fn spec_detached_result<T>(
    handle: HandleState,
    operation: &'static str,
    reported: Reported<T>,
) -> Result<T, NativeError> {
    match reported.result {
        Ok(v) => Ok(v),
        Err(e) => Err(
            NativeError::Native {
                operation: spec_failure_operation(handle, operation, reported.lifecycle),
                error: e,
            },
        ),
    }
}

impl NativeSimulation {
    /// The owner's handle is well formed, its iterator byte is recognized, and an exchange under
    /// way has not exhausted the iterator.
    pub open spec fn wf_exchange(&self) -> bool {
        &&& self.handle.wf()
        &&& self.iterator_state.wf()
        &&& self.next_phase != NextPhase::Ready ==> !self.handle.iterator_exhausted
    }

    /// The owner is well formed and no `iterator_next` exchange is under way.
    pub open spec fn wf(&self) -> bool {
        self.wf_exchange() && self.next_phase == NextPhase::Ready
    }

    /// The published iterator state.
    pub open spec fn iterator(&self) -> Option<IteratorState> {
        self.iterator_state.state()
    }

    /// Wraps a reconstructed solver in a fresh owner with one active Project Generation.
    pub fn from_simulation(lifecycle: SimulationLifecycle, paths: OwnerPaths) -> (owner:
        NativeSimulation)
        ensures
            owner.wf(),
            owner.handle == (HandleState {
                lifecycle,
                generation_counter: 1,
                active_generation: Some(ProjectGeneration(1)),
                failure_operation: None,
                paths: Some(paths),
                advance_stride: None,
                iterator_exhausted: false,
            }),
            owner.iterator() == Some(IteratorState::Idle),
            owner.test_concurrency == TestConcurrencyState::new_spec(),
            owner.next_phase == NextPhase::Ready,
    {
        NativeSimulation {
            handle: HandleState {
                lifecycle,
                generation_counter: 1,
                active_generation: Some(ProjectGeneration(1)),
                failure_operation: None,
                paths: Some(paths),
                advance_stride: None,
                iterator_exhausted: false,
            },
            iterator_state: AtomicIteratorState::idle(),
            test_concurrency: TestConcurrencyState::new(),
            next_phase: NextPhase::Ready,
        }
    }

    /// Maps the result of a scalar owner read: a solver failure is attributed to `operation`.
    pub fn attached<T>(&self, operation: &'static str, result: Result<T, SwmmError>) -> (mapped:
        Result<T, NativeError>)
        ensures
            result matches Ok(v) ==> mapped == Ok::<T, NativeError>(v),
            result matches Err(e) ==> mapped == Err::<T, NativeError>(
                NativeError::Native { operation, error: e },
            ),
    {
        match result {
            Ok(value) => Ok(value),
            Err(error) => Err(native_error(operation, error)),
        }
    }

    /// True when `generation` is the active Project Generation.
    pub open spec fn spec_generation_active(&self, generation: u64) -> bool {
        self.handle.active_generation == Some(ProjectGeneration(generation))
    }

    /// Runs one generation-bound read: `action` runs only while `generation` is active.
    pub fn checked_generation<T, F: FnOnce() -> Result<T, DetachedFailure>>(
        &self,
        operation: &'static str,
        generation: u64,
        action: F,
    ) -> (result: Result<T, NativeError>)
        requires
            call_requires(action, ()),
        ensures
            !self.spec_generation_active(generation) ==> result == Err::<T, NativeError>(
                NativeError::Stale { operation },
            ),
            self.spec_generation_active(generation) ==> exists|r: Result<T, DetachedFailure>|
                {
                    &&& call_ensures(action, (), r)
                    &&& r matches Ok(v) ==> result == Ok::<T, NativeError>(v)
                    &&& r matches Err(f) ==> result == Err::<T, NativeError>(
                        spec_detached_error(operation, f),
                    )
                },
    {
        if self.handle.active_generation != Some(ProjectGeneration(generation)) {
            return Err(NativeError::Stale { operation });
        }
        let outcome = action();
        let ghost r = outcome;
        assert(call_ensures(action, (), r));
        match outcome {
            Ok(value) => Ok(value),
            Err(failure) => Err(detached_error(operation, failure)),
        }
    }

    /// Runs one Live View read: `read` runs only while the generation is active and `matches`
    /// confirms the captured identity.
    ///
    /// `subtype` is the captured subtype label, already recognized for the object family
    /// (`None` when it is not).
    pub fn checked_view<S, T, M: FnOnce() -> Result<bool, SwmmError>, A: FnOnce() -> Result<
        T,
        SwmmError,
    >>(
        &self,
        operation: &'static str,
        generation: u64,
        subtype: Option<S>,
        matches: M,
        read: A,
    ) -> (result: Result<T, NativeError>)
        requires
            call_requires(matches, ()),
            call_requires(read, ()),
        ensures
            subtype is None ==> result is Err && result->Err_0 is Internal,
            subtype is Some && !self.spec_generation_active(generation) ==> result == Err::<
                T,
                NativeError,
            >(NativeError::Stale { operation }),
            subtype is Some && self.spec_generation_active(generation) ==> exists|
                m: Result<bool, SwmmError>,
            |
                {
                    &&& call_ensures(matches, (), m)
                    &&& m matches Err(e) ==> result == Err::<T, NativeError>(
                        NativeError::Native { operation, error: e },
                    )
                    &&& m == Ok::<bool, SwmmError>(false) ==> result == Err::<T, NativeError>(
                        NativeError::Stale { operation },
                    )
                    &&& m == Ok::<bool, SwmmError>(true) ==> exists|r: Result<T, SwmmError>|
                        call_ensures(read, (), r) && spec_attached(operation, r, result)
                },
    {
        if subtype.is_none() {
            return Err(internal_error(operation, "invalid private subtype"));
        }
        if self.handle.active_generation != Some(ProjectGeneration(generation)) {
            return Err(NativeError::Stale { operation });
        }
        let matched = matches();
        let ghost m = matched;
        assert(call_ensures(matches, (), m));
        match matched {
            Err(error) => Err(native_error(operation, error)),
            Ok(false) => Err(NativeError::Stale { operation }),
            Ok(true) => {
                let value = read();
                let ghost r = value;
                let result = self.attached(operation, value);
                assert(call_ensures(read, (), r) && spec_attached(operation, r, result));
                result
            },
        }
    }

    /// Runs one Live View mutation: `action` runs only while the generation is active and
    /// `matches` confirms the captured identity.
    pub fn detached_checked_view<S, T, M: FnOnce() -> Result<bool, SwmmError>, A: FnOnce() -> Reported<
        T,
    >>(
        &mut self,
        operation: &'static str,
        generation: u64,
        subtype: Option<S>,
        matches: M,
        action: A,
    ) -> (result: Result<T, NativeError>)
        requires
            call_requires(matches, ()),
            call_requires(action, ()),
        ensures
            subtype is None ==> result is Err && result->Err_0 is Internal && *final(self)
                == *old(self),
            subtype is Some && !old(self).spec_generation_active(generation) ==> result == Err::<
                T,
                NativeError,
            >(NativeError::Stale { operation }) && *final(self) == *old(self),
            subtype is Some && old(self).spec_generation_active(generation) ==> exists|
                m: Result<bool, SwmmError>,
            |
                {
                    &&& call_ensures(matches, (), m)
                    &&& m matches Err(e) ==> result == Err::<T, NativeError>(
                        NativeError::Native { operation, error: e },
                    ) && *final(self) == *old(self)
                    &&& m == Ok::<bool, SwmmError>(false) ==> result == Err::<T, NativeError>(
                        NativeError::Stale { operation },
                    ) && *final(self) == *old(self)
                    &&& m == Ok::<bool, SwmmError>(true) ==> exists|r: Reported<T>|
                        {
                            &&& call_ensures(action, (), r)
                            &&& spec_attached(operation, r.result, result)
                            &&& final(self).handle == (HandleState {
                                lifecycle: r.lifecycle,
                                ..old(self).handle
                            })
                            &&& final(self).iterator_state == old(self).iterator_state
                            &&& final(self).test_concurrency == old(self).test_concurrency
                            &&& final(self).next_phase == old(self).next_phase
                        }
                },
            old(self).wf() ==> final(self).wf(),
    {
        if subtype.is_none() {
            return Err(internal_error(operation, "invalid private subtype"));
        }
        if self.handle.active_generation != Some(ProjectGeneration(generation)) {
            return Err(NativeError::Stale { operation });
        }
        let matched = matches();
        let ghost m = matched;
        assert(call_ensures(matches, (), m));
        match matched {
            Err(error) => Err(native_error(operation, error)),
            Ok(false) => Err(NativeError::Stale { operation }),
            Ok(true) => {
                let reported = action();
                let ghost r = reported;
                self.handle.lifecycle = reported.lifecycle;
                let result = match reported.result {
                    Ok(value) => Ok(value),
                    Err(error) => Err(native_error(operation, error)),
                };
                assert(call_ensures(action, (), r) && spec_attached(operation, r.result, result));
                result
            },
        }
    }

    /// Runs one Live View operation that can itself report staleness.
    pub fn detached_checked_view_result<
        S,
        T,
        M: FnOnce() -> Result<bool, SwmmError>,
        A: FnOnce() -> ReportedView<T>,
    >(
        &mut self,
        operation: &'static str,
        generation: u64,
        subtype: Option<S>,
        matches: M,
        action: A,
    ) -> (result: Result<T, NativeError>)
        requires
            call_requires(matches, ()),
            call_requires(action, ()),
        ensures
            subtype is None ==> result is Err && result->Err_0 is Internal && *final(self)
                == *old(self),
            subtype is Some && !old(self).spec_generation_active(generation) ==> result == Err::<
                T,
                NativeError,
            >(NativeError::Stale { operation }) && *final(self) == *old(self),
            subtype is Some && old(self).spec_generation_active(generation) ==> exists|
                m: Result<bool, SwmmError>,
            |
                {
                    &&& call_ensures(matches, (), m)
                    &&& m matches Err(e) ==> result == Err::<T, NativeError>(
                        NativeError::Native { operation, error: e },
                    ) && *final(self) == *old(self)
                    &&& m == Ok::<bool, SwmmError>(false) ==> result == Err::<T, NativeError>(
                        NativeError::Stale { operation },
                    ) && *final(self) == *old(self)
                    &&& m == Ok::<bool, SwmmError>(true) ==> exists|r: ReportedView<T>|
                        {
                            &&& call_ensures(action, (), r)
                            &&& r.result matches Ok(v) ==> result == Ok::<T, NativeError>(v)
                            &&& r.result matches Err(f) ==> result == Err::<T, NativeError>(
                                spec_detached_error(operation, f),
                            )
                            &&& final(self).handle == (HandleState {
                                lifecycle: r.lifecycle,
                                ..old(self).handle
                            })
                            &&& final(self).iterator_state == old(self).iterator_state
                            &&& final(self).test_concurrency == old(self).test_concurrency
                            &&& final(self).next_phase == old(self).next_phase
                        }
                },
            old(self).wf() ==> final(self).wf(),
    {
        if subtype.is_none() {
            return Err(internal_error(operation, "invalid private subtype"));
        }
        if self.handle.active_generation != Some(ProjectGeneration(generation)) {
            return Err(NativeError::Stale { operation });
        }
        let matched = matches();
        let ghost m = matched;
        assert(call_ensures(matches, (), m));
        match matched {
            Err(error) => Err(native_error(operation, error)),
            Ok(false) => Err(NativeError::Stale { operation }),
            Ok(true) => {
                let reported = action();
                let ghost r = reported;
                assert(call_ensures(action, (), r));
                self.handle.lifecycle = reported.lifecycle;
                match reported.result {
                    Ok(value) => Ok(value),
                    Err(failure) => Err(detached_error(operation, failure)),
                }
            },
        }
    }

    /// Runs one generation-bound mutation: `action` runs only while `generation` is active.
    pub fn detached_checked_generation<T, F: FnOnce() -> Reported<T>>(
        &mut self,
        operation: &'static str,
        generation: u64,
        action: F,
    ) -> (result: Result<T, NativeError>)
        requires
            call_requires(action, ()),
        ensures
            !old(self).spec_generation_active(generation) ==> result == Err::<T, NativeError>(
                NativeError::Stale { operation },
            ) && *final(self) == *old(self),
            old(self).spec_generation_active(generation) ==> exists|r: Reported<T>|
                {
                    &&& call_ensures(action, (), r)
                    &&& spec_attached(operation, r.result, result)
                    &&& final(self).handle == (HandleState {
                        lifecycle: r.lifecycle,
                        ..old(self).handle
                    })
                    &&& final(self).iterator_state == old(self).iterator_state
                    &&& final(self).test_concurrency == old(self).test_concurrency
                    &&& final(self).next_phase == old(self).next_phase
                },
            old(self).wf() ==> final(self).wf(),
    {
        if self.handle.active_generation != Some(ProjectGeneration(generation)) {
            return Err(NativeError::Stale { operation });
        }
        let reported = action();
        let ghost r = reported;
        self.handle.lifecycle = reported.lifecycle;
        let result = match reported.result {
            Ok(value) => Ok(value),
            Err(error) => Err(native_error(operation, error)),
        };
        assert(call_ensures(action, (), r) && spec_attached(operation, r.result, result));
        result
    }

    /// Rejects operations that cannot overlap exclusive iterator advancement.
    pub fn ensure_not_iterating(&self, operation: &'static str) -> (result: Result<(), NativeError>)
        ensures
            self.iterator() == Some(IteratorState::Idle) ==> result is Ok,
            self.iterator() != Some(IteratorState::Idle) ==> result is Err && spec_lifecycle_error(
                result->Err_0,
                operation,
                "iterator owns advancement"@,
            ),
    {
        if self.iterator_state.load() == Some(IteratorState::Idle) {
            Ok(())
        } else {
            Err(lifecycle_error(operation, "iterator owns advancement"))
        }
    }

    /// Maps the outcome of a mutating owner operation and records the reported lifecycle.
    ///
    /// A failure after which the solver reports `Failed` is attributed to the first operation
    /// that failed the project; that operation is latched until the next open or close.
    pub fn detached<T>(
        &mut self,
        operation: &'static str,
        reported: Reported<T>,
    ) -> (result: Result<T, NativeError>)
        ensures
            result == spec_detached_result(old(self).handle, operation, reported),
            final(self).handle == spec_latched(
                old(self).handle,
                operation,
                reported.lifecycle,
                reported.result is Err,
            ),
            final(self).iterator_state == old(self).iterator_state,
            final(self).test_concurrency == old(self).test_concurrency,
            final(self).next_phase == old(self).next_phase,
            old(self).wf() ==> final(self).wf(),
            old(self).wf_exchange() ==> final(self).wf_exchange(),
    {
        self.handle.lifecycle = reported.lifecycle;
        match reported.result {
            Ok(value) => Ok(value),
            Err(error) => {
                let failed = if reported.lifecycle == SimulationLifecycle::Failed {
                    match self.handle.failure_operation {
                        Some(first) => first,
                        None => {
                            self.handle.failure_operation = Some(operation);
                            operation
                        },
                    }
                } else {
                    operation
                };
                Err(native_error(failed, error))
            },
        }
    }
}

/// `mapped` is `result` with a solver failure attributed to `operation`.
pub open spec fn spec_attached<T>(
    operation: &'static str,
    result: Result<T, SwmmError>,
    mapped: Result<T, NativeError>,
) -> bool {
    match result {
        Ok(v) => mapped == Ok::<T, NativeError>(v),
        Err(e) => mapped == Err::<T, NativeError>(NativeError::Native { operation, error: e }),
    }
}

/// True when `raised` is a lifecycle refusal of `operation` with exactly `detail`.
pub open spec fn spec_lifecycle_error(raised: NativeError, operation: &'static str, detail: Seq<char>) -> bool {
    match raised {
        NativeError::Lifecycle { operation: o, detail: d } => o == operation && d@ == detail,
        _ => false,
    }
}

/// Opening a project issues a new Project Generation: the new one is active, and every
/// generation issued before it, including the one that was active, is stale from then on.
pub proof fn lemma_open_issues_fresh_generation(
    before: HandleState,
    paths: OwnerPaths,
    lifecycle: SimulationLifecycle,
    earlier: u64,
)
    requires
        before.wf(),
        before.generation_counter < u64::MAX,
        earlier <= before.generation_counter,
    ensures
        before.spec_opened(paths, lifecycle).wf(),
        before.spec_opened(paths, lifecycle).generation_counter > before.generation_counter,
        before.spec_opened(paths, lifecycle).active_generation == Some(
            ProjectGeneration((before.generation_counter + 1) as u64),
        ),
        before.spec_opened(paths, lifecycle).active_generation != Some(ProjectGeneration(earlier)),
{
}

/// Closing a project leaves no active Project Generation: every generation is stale.
pub proof fn lemma_close_ends_generation(before: HandleState, lifecycle: SimulationLifecycle, generation: u64)
    requires
        before.wf(),
    ensures
        before.spec_closed(lifecycle).wf(),
        before.spec_closed(lifecycle).active_generation != Some(ProjectGeneration(generation)),
        before.spec_closed(lifecycle).generation_counter == before.generation_counter,
{
}

/// Once a project has failed, later failures are still attributed to the first operation that
/// failed it, and that operation stays latched.
pub proof fn lemma_first_failure_latched(
    handle: HandleState,
    first: &'static str,
    operation: &'static str,
)
    requires
        handle.failure_operation == Some(first),
    ensures
        spec_failure_operation(handle, operation, SimulationLifecycle::Failed) == first,
        spec_latched(handle, operation, SimulationLifecycle::Failed, true).failure_operation == Some(first),
{
}

/// The handle after an open of a closed owner that the solver refused: the reported lifecycle
/// is recorded and the failure latched, and the closed owner keeps no Project Generation.
pub open spec fn spec_failed_open(handle: HandleState, lifecycle: SimulationLifecycle) -> HandleState {
    HandleState { active_generation: None, ..spec_latched(handle, "open", lifecycle, true) }
}

/// One owner operation that opens no project: a close that the solver reported `lifecycle`
/// for, an open that the solver refused, or any other operation that records a reported
/// lifecycle (a refused open among them).
pub enum HandleStep {
    Close { lifecycle: SimulationLifecycle, failed: bool },
    FailedOpen { lifecycle: SimulationLifecycle },
    Report { operation: &'static str, lifecycle: SimulationLifecycle, failed: bool },
}

/// The handle after one step.
pub open spec fn spec_step_handle(handle: HandleState, step: HandleStep) -> HandleState {
    match step {
        HandleStep::Close { lifecycle, failed } => spec_latched(handle.spec_closed(lifecycle), "close", lifecycle, failed),
        HandleStep::FailedOpen { lifecycle } => spec_failed_open(handle, lifecycle),
        HandleStep::Report { operation, lifecycle, failed } => spec_latched(handle, operation, lifecycle, failed),
    }
}

/// The handle after a sequence of steps, in order.
pub open spec fn spec_apply_steps(handle: HandleState, steps: Seq<HandleStep>) -> HandleState
    decreases steps.len(),
{
    if steps.len() == 0 {
        handle
    } else {
        spec_step_handle(spec_apply_steps(handle, steps.drop_last()), steps.last())
    }
}

/// Over any sequence of closes and other operations that open no project, the retained paths
/// stay those of the last successful open, so the input path read stays the same; once a close
/// has happened no Project Generation is active again, whatever fails after it (a failed open
/// included).
pub proof fn lemma_steps_keep_paths(handle: HandleState, steps: Seq<HandleStep>)
    ensures
        spec_apply_steps(handle, steps).paths == handle.paths,
        spec_apply_steps(handle, steps).generation_counter == handle.generation_counter,
        (handle.active_generation is None || exists|k: int| 0 <= k < steps.len() && #[trigger] steps[k] is Close)
            ==> spec_apply_steps(handle, steps).active_generation is None,
    decreases steps.len(),
{
    if steps.len() > 0 {
        let rest = steps.drop_last();
        lemma_steps_keep_paths(handle, rest);
        if !(steps.last() is Close) && handle.active_generation is Some && exists|k: int| 0 <= k < steps.len() && #[trigger] steps[k] is Close {
            let k = choose|k: int| 0 <= k < steps.len() && #[trigger] steps[k] is Close;
            assert(k < steps.len() - 1);
            assert(rest[k] is Close);
        }
    }
}

/// A failure stays attributed to the first failed operation: once a detached operation
/// `first_operation` fails and leaves the project `Failed`, the failure of any later detached
/// operation made while the project is still `Failed`, after any number of operations other than
/// a close or an open, is raised under `first_operation`, which stays recorded.
pub proof fn lemma_failure_stays_with_first_operation<T, U>(
    handle: HandleState,
    first_operation: &'static str,
    first: Reported<T>,
    steps: Seq<HandleStep>,
    later_operation: &'static str,
    later: Reported<U>,
)
    requires
        handle.failure_operation is None,
        first.result is Err,
        first.lifecycle == SimulationLifecycle::Failed,
        forall|k: int| 0 <= k < steps.len() ==> #[trigger] steps[k] is Report,
        later.result is Err,
        later.lifecycle == SimulationLifecycle::Failed,
    ensures
        spec_detached_result(handle, first_operation, first) == Err::<T, NativeError>(
            NativeError::Native { operation: first_operation, error: first.result->Err_0 },
        ),
        ({
            let failed = spec_apply_steps(spec_latched(handle, first_operation, first.lifecycle, true), steps);
            &&& failed.failure_operation == Some(first_operation)
            &&& spec_detached_result(failed, later_operation, later) == Err::<U, NativeError>(
                NativeError::Native { operation: first_operation, error: later.result->Err_0 },
            )
            &&& spec_latched(failed, later_operation, later.lifecycle, true).failure_operation == Some(first_operation)
        }),
    decreases steps.len(),
{
    if steps.len() > 0 {
        let rest = steps.drop_last();
        assert forall|k: int| 0 <= k < rest.len() implies #[trigger] rest[k] is Report by {
            assert(rest[k] == steps[k]);
        }
        lemma_failure_stays_with_first_operation(handle, first_operation, first, rest, later_operation, later);
        assert(steps[steps.len() - 1] is Report);
    }
}

/// The deterministic pause protocol: after `arm_pause`, the next `before_unlock` marks the
/// operation paused (what `wait_paused` reports) and makes its caller wait; `release_pause`
/// lets it go, `finish_pause` then consumes the pause, and a later `before_unlock` without a new
/// `arm_pause` returns at once and changes nothing. Without an armed pause, `before_unlock`
/// returns at once and changes nothing.
pub proof fn lemma_pause_protocol(state: TestConcurrencyState)
    ensures
        ({
            let armed = state.spec_arm_pause();
            let (wait, paused) = armed.spec_before_unlock();
            let released = paused.spec_release_pause();
            let finished = released.spec_finish_pause();
            let (again, after) = finished.spec_before_unlock();
            &&& wait
            &&& paused.paused && !paused.release_pause && !paused.pause_armed
            &&& released.paused && released.release_pause
            &&& !finished.paused && !finished.pause_armed && !finished.release_pause
            &&& !again && after == finished
        }),
        !state.pause_armed ==> state.spec_before_unlock() == (false, state),
{
}

/// The retained paths survive closes and failed opens: after a successful open with `paths`,
/// any sequence of closes, opens the solver refused and other operations that open no project
/// leaves `paths` retained, so `input_path` still gives its input path.
pub proof fn lemma_opened_paths_retained(
    before: HandleState,
    paths: OwnerPaths,
    lifecycle: SimulationLifecycle,
    steps: Seq<HandleStep>,
)
    ensures
        spec_apply_steps(before.spec_opened(paths, lifecycle), steps).paths == Some(paths),
        spec_apply_steps(before.spec_opened(paths, lifecycle), steps).paths->0.input == paths.input,
{
    lemma_steps_keep_paths(before.spec_opened(paths, lifecycle), steps);
}

} // verus!
