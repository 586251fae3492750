use vstd::prelude::*;
use vstd::string::*;

use crate::error::{
    detached_error, internal_error, is_property_error, lifecycle_error, native_error,
    swmm_error_is, ConfigurationDiagnostic, DetachedFailure, ErrorCode, NativeError, SwmmError,
};
use crate::owner::{
    spec_attempted, spec_detached_result, spec_failed_open, spec_failure_operation, spec_latched,
    spec_open_transition,
    spec_lifecycle_error, spec_open_failure_detail, AtomicIteratorState,
    HandleState, IteratorState, NativeSimulation, NextPhase, OwnerPaths, ProjectGeneration, Reported,
    SimulationLifecycle, TestConcurrencyState,
};

verus! {

/// The stable lowercase name of a lifecycle state.
pub open spec fn spec_lifecycle_name(state: SimulationLifecycle) -> &'static str {
    match state {
        SimulationLifecycle::Open => "open",
        SimulationLifecycle::Running => "running",
        SimulationLifecycle::Complete => "complete",
        SimulationLifecycle::Ended => "ended",
        SimulationLifecycle::Failed => "failed",
        SimulationLifecycle::Closed => "closed",
    }
}

/// How a failed open is raised: attributed to the operation that failed the project.
pub open spec fn spec_open_raised(
    handle: HandleState,
    lifecycle: SimulationLifecycle,
    error: SwmmError,
    paths: OwnerPaths,
    raised: NativeError,
) -> bool {
    match raised {
        NativeError::Native { operation, error: e } => {
            &&& operation == spec_failure_operation(handle, "open", lifecycle)
            &&& swmm_error_is(e, error.code, spec_open_failure_detail(error.detail, paths))
        },
        _ => false,
    }
}

impl NativeSimulation {
    /// Opens the first project generation of a new owner through the solver's `open`.
    pub fn new<F: FnOnce(&OwnerPaths) -> Reported<()>>(paths: OwnerPaths, open: F) -> (result: Result<
        NativeSimulation,
        NativeError,
    >)
        requires
            call_requires(open, (&paths,)),
        ensures
            exists|solver: Reported<()>|
                {
                    &&& call_ensures(open, (&paths,), solver)
                    &&& solver.result is Ok ==> {
                        &&& result is Ok
                        &&& result->Ok_0.wf()
                        &&& result->Ok_0.handle == HandleState::new_spec().spec_opened(
                            paths,
                            solver.lifecycle,
                        )
                        &&& result->Ok_0.iterator() == Some(IteratorState::Idle)
                        &&& result->Ok_0.test_concurrency == TestConcurrencyState::new_spec()
                        &&& result->Ok_0.next_phase == NextPhase::Ready
                    }
                    &&& solver.result is Err ==> {
                        &&& result is Err
                        &&& result->Err_0 matches NativeError::Native { operation, error }
                        &&& operation == "open"
                        &&& swmm_error_is(
                            error,
                            solver.result->Err_0.code,
                            spec_open_failure_detail(solver.result->Err_0.detail, paths),
                        )
                    }
                },
    {
        let mut handle = HandleState::new();
        match handle.open_project(paths, open) {
            Ok(()) => Ok(
                NativeSimulation {
                    handle,
                    iterator_state: AtomicIteratorState::idle(),
                    test_concurrency: TestConcurrencyState::new(),
                    next_phase: NextPhase::Ready,
                },
            ),
            Err(error) => Err(detached_error("open", DetachedFailure::Solver("open", error))),
        }
    }

    /// Opens another project generation on a closed owner through the solver's `open`.
    ///
    /// `paths` is the outcome of converting the caller's raw paths; a conversion failure is
    /// raised only after the lifecycle check.
    pub fn open<F: FnOnce(&OwnerPaths) -> Reported<()>>(
        &mut self,
        paths: Result<OwnerPaths, NativeError>,
        open: F,
    ) -> (result: Result<(), NativeError>)
        requires
            old(self).wf(),
            paths is Ok ==> call_requires(open, (&paths->Ok_0,)),
        ensures
            final(self).wf(),
            final(self).test_concurrency == old(self).test_concurrency,
            old(self).handle.lifecycle != SimulationLifecycle::Closed ==> {
                &&& result is Err
                &&& is_property_error(
                    result->Err_0,
                    "open",
                    ErrorCode::ApiNotOpen,
                    "open requires a closed simulation"@,
                )
                &&& *final(self) == *old(self)
            },
            old(self).handle.lifecycle == SimulationLifecycle::Closed && paths is Err ==> {
                &&& result == Err::<(), NativeError>(paths->Err_0)
                &&& *final(self) == *old(self)
            },
            old(self).handle.lifecycle == SimulationLifecycle::Closed && paths is Ok
                && old(self).iterator() != Some(IteratorState::Idle) ==> {
                &&& result is Err
                &&& spec_lifecycle_error(result->Err_0, "open", "iterator owns advancement"@)
                &&& *final(self) == *old(self)
            },
            old(self).handle.lifecycle == SimulationLifecycle::Closed && paths is Ok
                && old(self).iterator() == Some(IteratorState::Idle)
                && old(self).handle.generation_counter == u64::MAX ==> {
                &&& result is Err
                &&& is_property_error(
                    result->Err_0,
                    "open",
                    ErrorCode::System,
                    "project generation exhausted; "@ + spec_attempted(paths->Ok_0),
                )
                &&& *final(self) == *old(self)
            },
            old(self).handle.lifecycle == SimulationLifecycle::Closed && paths is Ok
                && old(self).iterator() == Some(IteratorState::Idle)
                && old(self).handle.generation_counter < u64::MAX ==> exists|solver: Reported<()>|
                {
                    &&& call_ensures(open, (&paths->Ok_0,), solver)
                    &&& final(self).iterator() == Some(IteratorState::Idle)
                    &&& solver.result is Ok ==> result is Ok && final(self).handle
                        == old(self).handle.spec_opened(paths->Ok_0, solver.lifecycle)
                    &&& solver.result is Err ==> {
                        &&& final(self).handle == spec_failed_open(old(self).handle, solver.lifecycle)
                        &&& final(self).handle.active_generation is None
                        &&& final(self).handle.paths == old(self).handle.paths
                        &&& final(self).handle.generation_counter == old(self).handle.generation_counter
                        &&& result is Err
                        &&& spec_open_raised(
                            old(self).handle,
                            solver.lifecycle,
                            solver.result->Err_0,
                            paths->Ok_0,
                            result->Err_0,
                        )
                    }
                },
    {
        if self.handle.lifecycle != SimulationLifecycle::Closed {
            return Err(
                native_error(
                    "open",
                    SwmmError::with_str(ErrorCode::ApiNotOpen, "open requires a closed simulation"),
                ),
            );
        }
        let paths = match paths {
            Ok(paths) => paths,
            Err(error) => {
                return Err(error);
            },
        };
        match self.ensure_not_iterating("open") {
            Ok(()) => {},
            Err(error) => {
                return Err(error);
            },
        }
        let ghost requested = paths;
        let ghost before = self.handle;
        let attempted = self.handle.generation_counter < u64::MAX;
        let opened = self.handle.open_project(paths, open);
        let ghost solved = self.handle;
        if opened.is_ok() {
            self.iterator_state.store(IteratorState::Idle);
        } else if attempted {
            self.handle.active_generation = None;
        }
        let lifecycle = self.handle.lifecycle;
        let ghost cleared = self.handle;
        let result = self.detached("open", Reported { result: opened, lifecycle });
        proof {
            if attempted {
                let solver = choose|solver: Reported<()>|
                    call_ensures(open, (&requested,), solver) && spec_open_transition(
                        before,
                        solved,
                        requested,
                        opened,
                        solver,
                    );
                if solver.result is Err {
                    assert(cleared == HandleState { active_generation: None, ..solved });
                    assert(self.handle == spec_failed_open(before, solver.lifecycle));
                }
            }
        }
        result
    }

    /// Returns the retained absolute input path of the last successful open.
    pub fn input_path(&self) -> (path: Result<String, NativeError>)
        ensures
            self.handle.paths matches Some(p) ==> path == Ok::<String, NativeError>(p.input),
            self.handle.paths is None ==> path is Err && is_property_error(
                path->Err_0,
                "input_path",
                ErrorCode::System,
                "owner paths unavailable"@,
            ),
    {
        match &self.handle.paths {
            Some(paths) => Ok(paths.input.clone()),
            None => Err(
                native_error(
                    "input_path",
                    SwmmError::with_str(ErrorCode::System, "owner paths unavailable"),
                ),
            ),
        }
    }

    /// Returns the retained absolute report path of the last successful open.
    pub fn report_path(&self) -> (path: Result<String, NativeError>)
        ensures
            self.handle.paths matches Some(p) ==> path == Ok::<String, NativeError>(p.report),
            self.handle.paths is None ==> path is Err && is_property_error(
                path->Err_0,
                "report_path",
                ErrorCode::System,
                "owner paths unavailable"@,
            ),
    {
        match &self.handle.paths {
            Some(paths) => Ok(paths.report.clone()),
            None => Err(
                native_error(
                    "report_path",
                    SwmmError::with_str(ErrorCode::System, "owner paths unavailable"),
                ),
            ),
        }
    }

    /// Returns the retained absolute output path, or `None` for scratch output.
    pub fn output_path(&self) -> (path: Result<Option<String>, NativeError>)
        ensures
            self.handle.paths matches Some(p) ==> path == Ok::<Option<String>, NativeError>(
                p.output,
            ),
            self.handle.paths is None ==> path is Err && is_property_error(
                path->Err_0,
                "output_path",
                ErrorCode::System,
                "owner paths unavailable"@,
            ),
    {
        match &self.handle.paths {
            Some(paths) => Ok(paths.output.clone()),
            None => Err(
                native_error(
                    "output_path",
                    SwmmError::with_str(ErrorCode::System, "owner paths unavailable"),
                ),
            ),
        }
    }

    /// Returns the stable lowercase name of the owner's lifecycle state.
    pub fn state(&self) -> (name: &'static str)
        ensures
            name == spec_lifecycle_name(self.handle.lifecycle),
    {
        match self.handle.lifecycle {
            SimulationLifecycle::Open => "open",
            SimulationLifecycle::Running => "running",
            SimulationLifecycle::Complete => "complete",
            SimulationLifecycle::Ended => "ended",
            SimulationLifecycle::Failed => "failed",
            SimulationLifecycle::Closed => "closed",
        }
    }

    /// Returns whether a Project Generation remains open.
    pub fn is_open(&self) -> (open: bool)
        ensures
            open == (self.handle.active_generation == Some(
                ProjectGeneration(self.handle.generation_counter),
            )),
            self.wf() ==> open == self.handle.active_generation is Some,
    {
        self.handle.active_generation == Some(ProjectGeneration(self.handle.generation_counter))
    }

    /// Returns the active Project Generation of a healthy project.
    pub fn generation(&self) -> (generation: Result<u64, NativeError>)
        ensures
            self.handle.lifecycle == SimulationLifecycle::Failed ==> generation is Err
                && is_property_error(
                generation->Err_0,
                "generation",
                ErrorCode::ApiNotOpen,
                "failed project generation is unavailable"@,
            ),
            self.handle.lifecycle != SimulationLifecycle::Failed
                && self.handle.active_generation is Some ==> generation == Ok::<u64, NativeError>(
                (self.handle.active_generation->0).0,
            ),
            self.handle.lifecycle != SimulationLifecycle::Failed
                && self.handle.active_generation is None ==> generation is Err && is_property_error(
                generation->Err_0,
                "generation",
                ErrorCode::ApiNotOpen,
                "no active project generation"@,
            ),
    {
        if self.handle.lifecycle == SimulationLifecycle::Failed {
            return Err(
                native_error(
                    "generation",
                    SwmmError::with_str(
                        ErrorCode::ApiNotOpen,
                        "failed project generation is unavailable",
                    ),
                ),
            );
        }
        match self.handle.active_generation {
            Some(generation) => Ok(generation.0),
            None => Err(
                native_error(
                    "generation",
                    SwmmError::with_str(ErrorCode::ApiNotOpen, "no active project generation"),
                ),
            ),
        }
    }
}


/// The `Debug` name of a lifecycle state, as used in lifecycle refusals.
pub open spec fn spec_lifecycle_debug_name(state: SimulationLifecycle) -> Seq<char> {
    match state {
        SimulationLifecycle::Open => "Open"@,
        SimulationLifecycle::Running => "Running"@,
        SimulationLifecycle::Complete => "Complete"@,
        SimulationLifecycle::Ended => "Ended"@,
        SimulationLifecycle::Failed => "Failed"@,
        SimulationLifecycle::Closed => "Closed"@,
    }
}

/// Returns the `Debug` name of a lifecycle state.
pub fn lifecycle_debug_name(state: SimulationLifecycle) -> (name: &'static str)
    ensures
        name@ == spec_lifecycle_debug_name(state),
{
    let name = match state {
        SimulationLifecycle::Open => "Open",
        SimulationLifecycle::Running => "Running",
        SimulationLifecycle::Complete => "Complete",
        SimulationLifecycle::Ended => "Ended",
        SimulationLifecycle::Failed => "Failed",
        SimulationLifecycle::Closed => "Closed",
    };
    proof {
        reveal_strlit("Open");
        reveal_strlit("Running");
        reveal_strlit("Complete");
        reveal_strlit("Ended");
        reveal_strlit("Failed");
        reveal_strlit("Closed");
    }
    name
}

/// True when `after` is `before` with only the handle changed to `handle` and the iterator to `iterator`.
pub open spec fn spec_owner_is(
    after: NativeSimulation,
    before: NativeSimulation,
    handle: HandleState,
    iterator: Option<IteratorState>,
) -> bool {
    &&& after.handle == handle
    &&& after.iterator() == iterator
    &&& after.test_concurrency == before.test_concurrency
    &&& after.next_phase == before.next_phase
}

/// The solver failure raised when advancement is attempted while an iterator owns it.
pub open spec fn spec_iterator_owns(error: SwmmError) -> bool {
    swmm_error_is(error, ErrorCode::ApiNotStarted, "iterator owns advancement"@)
}

impl NativeSimulation {
    /// Requests termination at the next iterator checkpoint.
    pub fn terminate(&mut self) -> (result: Result<(), NativeError>)
        ensures
            old(self).iterator() == Some(IteratorState::Idle) ==> result is Err
                && spec_lifecycle_error(
                result->Err_0,
                "terminate",
                "no active iterator owns advancement"@,
            ) && *final(self) == *old(self),
            old(self).iterator() == Some(IteratorState::Requested) ==> result is Ok
                && *final(self) == *old(self),
            old(self).iterator() == Some(IteratorState::Iterating) ==> result is Ok
                && spec_owner_is(
                *final(self),
                *old(self),
                old(self).handle,
                Some(IteratorState::Requested),
            ),
            old(self).wf() ==> final(self).wf(),
            old(self).iterator() is None ==> result is Err && result->Err_0 is Internal
                && *final(self) == *old(self),
    {
        match self.iterator_state.load() {
            Some(IteratorState::Idle) => Err(
                lifecycle_error("terminate", "no active iterator owns advancement"),
            ),
            Some(IteratorState::Requested) => Ok(()),
            Some(IteratorState::Iterating) => {
                let replaced = self.iterator_state.replace(
                    IteratorState::Iterating,
                    IteratorState::Requested,
                );
                assert(replaced);
                proof {
                    old(self).iterator_state.lemma_state_wf();
                    self.iterator_state.lemma_state_wf();
                }
                Ok(())
            },
            None => Err(internal_error("terminate", "invalid iterator state")),
        }
    }

    /// Finalizes the current run through the solver's `end`; an iterator that owned advancement
    /// is released and exhausted.
    pub fn end<F: FnOnce() -> Reported<()>>(&mut self, end: F) -> (result: Result<(), NativeError>)
        requires
            old(self).wf(),
            call_requires(end, ()),
        ensures
            final(self).wf(),
            exists|solver: Reported<()>|
                {
                    &&& call_ensures(end, (), solver)
                    &&& result == spec_detached_result(old(self).handle, "end", solver)
                    &&& spec_owner_is(
                        *final(self),
                        *old(self),
                        spec_latched(
                            HandleState {
                                iterator_exhausted: old(self).handle.iterator_exhausted
                                    || old(self).iterator() != Some(IteratorState::Idle),
                                ..old(self).handle
                            },
                            "end",
                            solver.lifecycle,
                            solver.result is Err,
                        ),
                        Some(IteratorState::Idle),
                    )
                },
    {
        let iterator_owned = match self.iterator_state.load() {
            Some(IteratorState::Idle) => false,
            _ => true,
        };
        let ended = end();
        let ghost solver = ended;
        assert(call_ensures(end, (), solver));
        self.iterator_state.store(IteratorState::Idle);
        if iterator_owned {
            self.handle.iterator_exhausted = true;
        }
        let result = self.detached("end", ended);
        assert(result == spec_detached_result(old(self).handle, "end", solver));
        result
    }

    /// Closes the project through the solver's `close` and invalidates its active generation.
    pub fn close<F: FnOnce() -> Reported<()>>(&mut self, close: F) -> (result: Result<
        (),
        NativeError,
    >)
        requires
            old(self).wf(),
            call_requires(close, ()),
        ensures
            final(self).wf(),
            final(self).handle.active_generation is None,
            exists|solver: Reported<()>|
                {
                    &&& call_ensures(close, (), solver)
                    &&& result == spec_detached_result(
                        old(self).handle.spec_closed(solver.lifecycle),
                        "close",
                        solver,
                    )
                    &&& spec_owner_is(
                        *final(self),
                        *old(self),
                        spec_latched(
                            old(self).handle.spec_closed(solver.lifecycle),
                            "close",
                            solver.lifecycle,
                            solver.result is Err,
                        ),
                        Some(IteratorState::Idle),
                    )
                },
    {
        let result = self.handle.close_project(close);
        self.iterator_state.store(IteratorState::Idle);
        let lifecycle = self.handle.lifecycle;
        self.detached("close", Reported { result, lifecycle })
    }

    /// Runs the complete non-interactive lifecycle through the solver's `run`.
    pub fn execute<F: FnOnce(bool) -> Reported<()>>(&mut self, save_results: bool, run: F) -> (result:
        Result<(), NativeError>)
        requires
            old(self).wf(),
            call_requires(run, (save_results,)),
        ensures
            final(self).wf(),
            old(self).iterator() != Some(IteratorState::Idle) ==> result is Err
                && spec_lifecycle_error(result->Err_0, "execute", "iterator owns advancement"@)
                && *final(self) == *old(self),
            old(self).iterator() == Some(IteratorState::Idle) ==> exists|solver: Reported<()>|
                {
                    let ran = if solver.lifecycle == SimulationLifecycle::Closed {
                        HandleState {
                            lifecycle: solver.lifecycle,
                            active_generation: None,
                            iterator_exhausted: true,
                            ..old(self).handle
                        }
                    } else {
                        HandleState { lifecycle: solver.lifecycle, ..old(self).handle }
                    };
                    &&& #[trigger] call_ensures(run, (save_results,), solver)
                    &&& result == spec_detached_result(ran, "execute", solver)
                    &&& spec_owner_is(
                        *final(self),
                        *old(self),
                        spec_latched(ran, "execute", solver.lifecycle, solver.result is Err),
                        Some(IteratorState::Idle),
                    )
                },
    {
        match self.ensure_not_iterating("execute") {
            Ok(()) => {},
            Err(error) => {
                return Err(error);
            },
        }
        let result = self.handle.execute(save_results, run);
        if self.handle.lifecycle == SimulationLifecycle::Closed {
            self.iterator_state.store(IteratorState::Idle);
        }
        let lifecycle = self.handle.lifecycle;
        self.detached("execute", Reported { result, lifecycle })
    }

    /// Advances one routing step through the solver's `advance` outside iterator ownership.
    pub fn step<T, F: FnOnce() -> Reported<Option<T>>>(&mut self, advance: F) -> (result: Result<
        Option<T>,
        NativeError,
    >)
        requires
            old(self).wf(),
            call_requires(advance, ()),
        ensures
            final(self).wf(),
            old(self).iterator() != Some(IteratorState::Idle) ==> {
                &&& result is Err
                &&& result->Err_0 matches NativeError::Native { operation, error }
                &&& operation == spec_failure_operation(
                    old(self).handle,
                    "step",
                    old(self).handle.lifecycle,
                )
                &&& spec_iterator_owns(error)
                &&& spec_owner_is(
                    *final(self),
                    *old(self),
                    spec_latched(old(self).handle, "step", old(self).handle.lifecycle, true),
                    old(self).iterator(),
                )
            },
            old(self).iterator() == Some(IteratorState::Idle) ==> exists|solver: Reported<Option<T>>|
                {
                    let stepped = HandleState {
                        iterator_exhausted: old(self).handle.iterator_exhausted
                            || solver.result == Ok::<Option<T>, SwmmError>(None),
                        ..old(self).handle
                    };
                    &&& #[trigger] call_ensures(advance, (), solver)
                    &&& result == spec_detached_result(stepped, "step", solver)
                    &&& spec_owner_is(
                        *final(self),
                        *old(self),
                        spec_latched(stepped, "step", solver.lifecycle, solver.result is Err),
                        old(self).iterator(),
                    )
                },
    {
        if self.iterator_state.load() != Some(IteratorState::Idle) {
            let lifecycle = self.handle.lifecycle;
            let refused = SwmmError::with_str(ErrorCode::ApiNotStarted, "iterator owns advancement");
            return self.detached("step", Reported { result: Err(refused), lifecycle });
        }
        let advanced = advance();
        let ghost solver = advanced;
        assert(call_ensures(advance, (), solver));
        if let Ok(None) = &advanced.result {
            self.handle.iterator_exhausted = true;
        }
        self.detached("step", advanced)
    }

    /// Advances by a positive whole-second stride through the solver's `advance` outside
    /// iterator ownership.
    pub fn stride<T, F: FnOnce(i32, bool) -> Reported<Option<T>>>(
        &mut self,
        seconds: i32,
        strict: bool,
        advance: F,
    ) -> (result: Result<Option<T>, NativeError>)
        requires
            old(self).wf(),
            call_requires(advance, (seconds, strict)),
        ensures
            final(self).wf(),
            old(self).iterator() != Some(IteratorState::Idle) ==> {
                &&& result is Err
                &&& result->Err_0 matches NativeError::Native { operation, error }
                &&& operation == spec_failure_operation(
                    old(self).handle,
                    "stride",
                    old(self).handle.lifecycle,
                )
                &&& spec_iterator_owns(error)
                &&& spec_owner_is(
                    *final(self),
                    *old(self),
                    spec_latched(old(self).handle, "stride", old(self).handle.lifecycle, true),
                    old(self).iterator(),
                )
            },
            old(self).iterator() == Some(IteratorState::Idle) ==> exists|solver: Reported<Option<T>>|
                {
                    let stepped = HandleState {
                        iterator_exhausted: old(self).handle.iterator_exhausted
                            || solver.result == Ok::<Option<T>, SwmmError>(None),
                        ..old(self).handle
                    };
                    &&& #[trigger] call_ensures(advance, (seconds, strict), solver)
                    &&& result == spec_detached_result(stepped, "stride", solver)
                    &&& spec_owner_is(
                        *final(self),
                        *old(self),
                        spec_latched(stepped, "stride", solver.lifecycle, solver.result is Err),
                        old(self).iterator(),
                    )
                },
    {
        if self.iterator_state.load() != Some(IteratorState::Idle) {
            let lifecycle = self.handle.lifecycle;
            let refused = SwmmError::with_str(ErrorCode::ApiNotStarted, "iterator owns advancement");
            return self.detached("stride", Reported { result: Err(refused), lifecycle });
        }
        let advanced = advance(seconds, strict);
        let ghost solver = advanced;
        assert(call_ensures(advance, (seconds, strict), solver));
        if let Ok(None) = &advanced.result {
            self.handle.iterator_exhausted = true;
        }
        self.detached("stride", advanced)
    }
}


/// True when `raised` is a solver failure with `code` and `detail` attributed to the operation
/// that a failure of `operation` is attributed to.
pub open spec fn spec_detached_raised(
    raised: NativeError,
    handle: HandleState,
    operation: &'static str,
    code: ErrorCode,
    detail: Seq<char>,
) -> bool {
    is_property_error(
        raised,
        spec_failure_operation(handle, operation, handle.lifecycle),
        code,
        detail,
    )
}

/// True when a refusal decided inside the owner lock, without a solver call, is raised as
/// `raised` with `code` and `detail`, latching the operation when the project has failed.
pub open spec fn spec_refused(
    after: NativeSimulation,
    before: NativeSimulation,
    raised: NativeError,
    operation: &'static str,
    code: ErrorCode,
    detail: Seq<char>,
) -> bool {
    &&& spec_detached_raised(raised, before.handle, operation, code, detail)
    &&& spec_owner_is(
        after,
        before,
        spec_latched(before.handle, operation, before.handle.lifecycle, true),
        before.iterator(),
    )
}

/// The detail of a refused stride cadence.
pub open spec fn spec_step_advance_detail(state: SimulationLifecycle) -> Seq<char> {
    "step_advance is invalid while simulation is "@ + spec_lifecycle_debug_name(state)
}

impl NativeSimulation {
    /// Sets or clears the persistent stride cadence used by ordinary iteration.
    pub fn step_advance(&mut self, seconds: Option<i32>, strict: bool) -> (result: Result<
        (),
        NativeError,
    >)
        requires
            old(self).wf(),
        ensures
            final(self).wf(),
            match old(self).handle.lifecycle {
                SimulationLifecycle::Open | SimulationLifecycle::Running
                | SimulationLifecycle::Ended => result is Ok && spec_owner_is(
                    *final(self),
                    *old(self),
                    HandleState {
                        advance_stride: match seconds {
                            Some(s) => Some((s, strict)),
                            None => None,
                        },
                        ..old(self).handle
                    },
                    old(self).iterator(),
                ),
                _ => result is Err && spec_refused(
                    *final(self),
                    *old(self),
                    result->Err_0,
                    "step_advance",
                    ErrorCode::ApiNotEnded,
                    spec_step_advance_detail(old(self).handle.lifecycle),
                ),
            },
    {
        let state = self.handle.lifecycle;
        let allowed = match state {
            SimulationLifecycle::Open | SimulationLifecycle::Running
            | SimulationLifecycle::Ended => true,
            _ => false,
        };
        if !allowed {
            let detail = String::from_str("step_advance is invalid while simulation is ").concat(
                lifecycle_debug_name(state),
            );
            let refused = SwmmError::with_detail(ErrorCode::ApiNotEnded, detail);
            return self.detached("step_advance", Reported { result: Err(refused), lifecycle: state });
        }
        self.handle.advance_stride = match seconds {
            Some(seconds) => Some((seconds, strict)),
            None => None,
        };
        Ok(())
    }

    /// Starts the open project through the solver's `start`, which also reports the
    /// configuration diagnostics the solver holds afterwards.
    ///
    /// A refused start that left diagnostics is raised as a configuration error.
    pub fn start<F: FnOnce(bool) -> (Reported<()>, Vec<ConfigurationDiagnostic>)>(
        &mut self,
        save_results: bool,
        start: F,
    ) -> (result: Result<(), NativeError>)
        requires
            old(self).wf(),
            call_requires(start, (save_results,)),
        ensures
            final(self).wf(),
            old(self).iterator() != Some(IteratorState::Idle) ==> result is Err
                && spec_lifecycle_error(result->Err_0, "start", "iterator owns advancement"@)
                && *final(self) == *old(self),
            old(self).iterator() == Some(IteratorState::Idle) ==> exists|
                solver: (Reported<()>, Vec<ConfigurationDiagnostic>),
            |
                {
                    let started = HandleState {
                        iterator_exhausted: old(self).handle.iterator_exhausted && solver.0.result is Err,
                        ..old(self).handle
                    };
                    &&& #[trigger] call_ensures(start, (save_results,), solver)
                    &&& spec_owner_is(
                        *final(self),
                        *old(self),
                        spec_latched(started, "start", solver.0.lifecycle, solver.0.result is Err),
                        old(self).iterator(),
                    )
                    &&& solver.0.result is Ok ==> result is Ok
                    &&& solver.0.result is Err && solver.1@.len() > 0 ==> result == Err::<
                        (),
                        NativeError,
                    >(NativeError::Configuration { diagnostics: solver.1 })
                    &&& solver.0.result is Err && solver.1@.len() == 0 ==> result
                        == spec_detached_result(started, "start", solver.0)
                },
    {
        match self.ensure_not_iterating("start") {
            Ok(()) => {},
            Err(error) => {
                return Err(error);
            },
        }
        let (started, diagnostics) = start(save_results);
        let ghost solver = (started, diagnostics);
        assert(call_ensures(start, (save_results,), solver));
        if started.result.is_ok() {
            self.handle.iterator_exhausted = false;
        }
        match self.detached("start", started) {
            Ok(()) => Ok(()),
            Err(error) => {
                if diagnostics.len() == 0 {
                    Err(error)
                } else {
                    Err(NativeError::Configuration { diagnostics })
                }
            },
        }
    }

    /// Resets stale solver state through the solver's `reset` without reparsing the project.
    pub fn reset_solver<F: FnOnce() -> Reported<()>>(&mut self, reset: F) -> (result: Result<
        (),
        NativeError,
    >)
        requires
            old(self).wf(),
            call_requires(reset, ()),
        ensures
            final(self).wf(),
            old(self).iterator() != Some(IteratorState::Idle) ==> result is Err
                && spec_lifecycle_error(result->Err_0, "reset_solver", "iterator owns advancement"@)
                && *final(self) == *old(self),
            old(self).iterator() == Some(IteratorState::Idle) ==> exists|solver: Reported<()>|
                {
                    let reset_handle = HandleState {
                        iterator_exhausted: old(self).handle.iterator_exhausted && solver.result is Err,
                        ..old(self).handle
                    };
                    &&& #[trigger] call_ensures(reset, (), solver)
                    &&& result == spec_detached_result(reset_handle, "reset_solver", solver)
                    &&& spec_owner_is(
                        *final(self),
                        *old(self),
                        spec_latched(reset_handle, "reset_solver", solver.lifecycle, solver.result is Err),
                        old(self).iterator(),
                    )
                },
    {
        match self.ensure_not_iterating("reset_solver") {
            Ok(()) => {},
            Err(error) => {
                return Err(error);
            },
        }
        let reported = reset();
        let ghost solver = reported;
        assert(call_ensures(reset, (), solver));
        if reported.result.is_ok() {
            self.handle.iterator_exhausted = false;
        }
        self.detached("reset_solver", reported)
    }

    /// Runs one solver operation that needs no owner decision beyond failure attribution.
    fn run_detached<F: FnOnce() -> Reported<()>>(
        &mut self,
        operation: &'static str,
        action: F,
    ) -> (result: Result<(), NativeError>)
        requires
            old(self).wf(),
            call_requires(action, ()),
        ensures
            final(self).wf(),
            exists|solver: Reported<()>|
                {
                    &&& #[trigger] call_ensures(action, (), solver)
                    &&& result == spec_detached_result(old(self).handle, operation, solver)
                    &&& spec_owner_is(
                        *final(self),
                        *old(self),
                        spec_latched(old(self).handle, operation, solver.lifecycle, solver.result is Err),
                        old(self).iterator(),
                    )
                },
    {
        let reported = action();
        let ghost solver = reported;
        assert(call_ensures(action, (), solver));
        self.detached(operation, reported)
    }

    /// Transitions Dynamic Wave workers to low-power sleep through the solver's `sleep`.
    pub fn sleep_workers<F: FnOnce() -> Reported<()>>(&mut self, sleep: F) -> (result: Result<
        (),
        NativeError,
    >)
        requires
            old(self).wf(),
            call_requires(sleep, ()),
        ensures
            final(self).wf(),
            exists|solver: Reported<()>|
                {
                    &&& #[trigger] call_ensures(sleep, (), solver)
                    &&& result == spec_detached_result(old(self).handle, "sleep_workers", solver)
                    &&& spec_owner_is(
                        *final(self),
                        *old(self),
                        spec_latched(old(self).handle, "sleep_workers", solver.lifecycle, solver.result is Err),
                        old(self).iterator(),
                    )
                },
    {
        self.run_detached("sleep_workers", sleep)
    }

    /// Generates and flushes the detailed report through the solver's `report`.
    pub fn report<F: FnOnce() -> Reported<()>>(&mut self, report: F) -> (result: Result<
        (),
        NativeError,
    >)
        requires
            old(self).wf(),
            call_requires(report, ()),
        ensures
            final(self).wf(),
            exists|solver: Reported<()>|
                {
                    &&& #[trigger] call_ensures(report, (), solver)
                    &&& result == spec_detached_result(old(self).handle, "report", solver)
                    &&& spec_owner_is(
                        *final(self),
                        *old(self),
                        spec_latched(old(self).handle, "report", solver.lifecycle, solver.result is Err),
                        old(self).iterator(),
                    )
                },
    {
        self.run_detached("report", report)
    }

    /// Imports checkpoint continuation state through the solver's `load`.
    ///
    /// `path` is the outcome of converting the caller's raw checkpoint path.
    pub fn load_checkpoint_state<F: FnOnce(&String) -> Reported<()>>(
        &mut self,
        path: Result<String, NativeError>,
        load: F,
    ) -> (result: Result<(), NativeError>)
        requires
            old(self).wf(),
            path is Ok ==> call_requires(load, (&path->Ok_0,)),
        ensures
            final(self).wf(),
            path is Err ==> result == Err::<(), NativeError>(path->Err_0) && *final(self)
                == *old(self),
            path is Ok && old(self).iterator() != Some(IteratorState::Idle) ==> result is Err
                && spec_lifecycle_error(
                result->Err_0,
                "load_checkpoint_state",
                "iterator owns advancement"@,
            ) && *final(self) == *old(self),
            path is Ok && old(self).iterator() == Some(IteratorState::Idle) ==> exists|
                solver: Reported<()>,
            |
                {
                    &&& #[trigger] call_ensures(load, (&path->Ok_0,), solver)
                    &&& result == spec_detached_result(
                        old(self).handle,
                        "load_checkpoint_state",
                        solver,
                    )
                    &&& spec_owner_is(
                        *final(self),
                        *old(self),
                        spec_latched(
                            old(self).handle,
                            "load_checkpoint_state",
                            solver.lifecycle,
                            solver.result is Err,
                        ),
                        old(self).iterator(),
                    )
                },
    {
        let path = match path {
            Ok(path) => path,
            Err(error) => {
                return Err(error);
            },
        };
        match self.ensure_not_iterating("load_checkpoint_state") {
            Ok(()) => {},
            Err(error) => {
                return Err(error);
            },
        }
        let reported = load(&path);
        let ghost solver = reported;
        assert(call_ensures(load, (&path,), solver));
        self.detached("load_checkpoint_state", reported)
    }
}


/// A destination path with the key that identifies where it resolves.
#[derive(Clone, Debug)]
pub struct Destination {
    pub path: String,
    pub key: String,
}

/// The detail of a fork whose destinations collide with the parent's paths.
pub open spec fn spec_fork_collision_detail(report: Seq<char>, output: Seq<char>) -> Seq<char> {
    "fork destinations must not collide with parent owner paths: report "@ + report + ", output "@
        + output
}

/// The detail of a resume whose destinations are not all distinct.
pub open spec fn spec_resume_collision_detail(
    input: Seq<char>,
    checkpoint: Seq<char>,
    report: Seq<char>,
    output: Seq<char>,
) -> Seq<char> {
    "checkpoint input, checkpoint, report, and output paths must have distinct destinations: attempted input "@
        + input + ", checkpoint "@ + checkpoint + ", report "@ + report + ", output "@ + output
}

/// True when the four resume destination keys are pairwise distinct where they must be.
pub open spec fn spec_resume_distinct(
    input: Seq<char>,
    checkpoint: Seq<char>,
    report: Seq<char>,
    output: Seq<char>,
) -> bool {
    &&& checkpoint != report
    &&& checkpoint != output
    &&& input != report
    &&& input != output
    &&& report != output
}

/// Hotstart input is configurable while the project is open or ended.
pub open spec fn spec_hotstart_configurable(state: SimulationLifecycle) -> bool {
    state == SimulationLifecycle::Open || state == SimulationLifecycle::Ended
}

/// The hotstart path handed to the solver: the requested destination's path, if any.
pub open spec fn spec_hotstart_path(hotstart: Option<Destination>) -> Option<String> {
    match hotstart {
        Some(d) => Some(d.path),
        None => None,
    }
}

/// True when a requested hotstart destination names one of the owner's destinations.
pub open spec fn spec_hotstart_collides(paths: OwnerPaths, hotstart: Option<Destination>) -> bool {
    hotstart matches Some(d) && paths.spec_collides(d.key@, false)
}

/// The handle after the solver accepted (`accepted`) or refused a hotstart configuration.
pub open spec fn spec_hotstart_configured(
    handle: HandleState,
    hotstart: Option<Destination>,
    accepted: bool,
) -> HandleState {
    if accepted {
        HandleState {
            paths: Some(
                OwnerPaths {
                    hotstart: spec_hotstart_path(hotstart),
                    hotstart_key: match hotstart {
                        Some(d) => Some(d.key),
                        None => None,
                    },
                    ..handle.paths->0
                },
            ),
            ..handle
        }
    } else {
        handle
    }
}

/// Builds `prefix` followed by `path`.
fn prefixed(prefix: &str, path: &String) -> (text: String)
    ensures
        text@ == prefix@ + path@,
{
    String::from_str(prefix).concat(path.as_str())
}

impl NativeSimulation {
    /// Configures or clears persistent hotstart input through the solver's `set`.
    ///
    /// `hotstart` is the outcome of converting the caller's raw path (`None` clears it).
    pub fn use_hotstart<F: FnOnce(&Option<String>) -> Reported<()>>(
        &mut self,
        hotstart: Result<Option<Destination>, NativeError>,
        set: F,
    ) -> (result: Result<(), NativeError>)
        requires
            old(self).wf(),
            hotstart is Ok ==> call_requires(set, (&spec_hotstart_path(hotstart->Ok_0),)),
        ensures
            final(self).wf(),
            !spec_hotstart_configurable(old(self).handle.lifecycle) ==> result is Err
                && is_property_error(
                result->Err_0,
                "use_hotstart",
                ErrorCode::ApiNotEnded,
                "persistent hotstart input is configurable only while open or ended"@,
            ) && *final(self) == *old(self),
            spec_hotstart_configurable(old(self).handle.lifecycle) && hotstart is Err ==> result
                == Err::<(), NativeError>(hotstart->Err_0) && *final(self) == *old(self),
            spec_hotstart_configurable(old(self).handle.lifecycle) && hotstart is Ok
                && old(self).iterator() != Some(IteratorState::Idle) ==> result is Err
                && spec_lifecycle_error(result->Err_0, "use_hotstart", "iterator owns advancement"@)
                && *final(self) == *old(self),
            spec_hotstart_configurable(old(self).handle.lifecycle) && hotstart is Ok
                && old(self).iterator() == Some(IteratorState::Idle) && old(self).handle.paths is None
                ==> result is Err && spec_refused(
                *final(self),
                *old(self),
                result->Err_0,
                "use_hotstart",
                ErrorCode::System,
                "owner paths unavailable"@,
            ),
            spec_hotstart_configurable(old(self).handle.lifecycle) && hotstart is Ok
                && old(self).iterator() == Some(IteratorState::Idle) && old(self).handle.paths is Some
                && spec_hotstart_collides(old(self).handle.paths->0, hotstart->Ok_0) ==> result is Err
                && spec_refused(
                *final(self),
                *old(self),
                result->Err_0,
                "use_hotstart",
                ErrorCode::ApiPropertyValue,
                "hotstart input must not collide with an owner path: "@
                    + (hotstart->Ok_0)->0.path@,
            ),
            spec_hotstart_configurable(old(self).handle.lifecycle) && hotstart is Ok
                && old(self).iterator() == Some(IteratorState::Idle) && old(self).handle.paths is Some
                && !spec_hotstart_collides(old(self).handle.paths->0, hotstart->Ok_0) ==> exists|
                solver: Reported<()>,
            |
                {
                    &&& #[trigger] call_ensures(
                        set,
                        (&spec_hotstart_path(hotstart->Ok_0),),
                        solver,
                    )
                    &&& result == spec_detached_result(old(self).handle, "use_hotstart", solver)
                    &&& spec_owner_is(
                        *final(self),
                        *old(self),
                        spec_latched(
                            spec_hotstart_configured(
                                old(self).handle,
                                hotstart->Ok_0,
                                solver.result is Ok,
                            ),
                            "use_hotstart",
                            solver.lifecycle,
                            solver.result is Err,
                        ),
                        old(self).iterator(),
                    )
                },
    {
        let allowed = match self.handle.lifecycle {
            SimulationLifecycle::Open | SimulationLifecycle::Ended => true,
            _ => false,
        };
        if !allowed {
            return Err(
                native_error(
                    "use_hotstart",
                    SwmmError::with_str(
                        ErrorCode::ApiNotEnded,
                        "persistent hotstart input is configurable only while open or ended",
                    ),
                ),
            );
        }
        let ghost hotstart_ghost = hotstart->Ok_0;
        let hotstart = match hotstart {
            Ok(hotstart) => hotstart,
            Err(error) => {
                return Err(error);
            },
        };
        match self.ensure_not_iterating("use_hotstart") {
            Ok(()) => {},
            Err(error) => {
                return Err(error);
            },
        }
        let lifecycle = self.handle.lifecycle;
        let collides = match &self.handle.paths {
            None => {
                let refused = SwmmError::with_str(ErrorCode::System, "owner paths unavailable");
                return self.detached("use_hotstart", Reported { result: Err(refused), lifecycle });
            },
            Some(paths) => match &hotstart {
                Some(destination) => paths.collides(destination.key.as_str(), false),
                None => false,
            },
        };
        let (requested, requested_key) = match hotstart {
            Some(destination) => (Some(destination.path), Some(destination.key)),
            None => (None, None),
        };
        if collides {
            let path = match &requested {
                Some(path) => path.clone(),
                None => String::new(),
            };
            let refused = SwmmError::with_detail(
                ErrorCode::ApiPropertyValue,
                prefixed("hotstart input must not collide with an owner path: ", &path),
            );
            return self.detached("use_hotstart", Reported { result: Err(refused), lifecycle });
        }
        assert(requested == spec_hotstart_path(hotstart_ghost));
        let reported = set(&requested);
        let ghost solver = reported;
        assert(call_ensures(set, (&spec_hotstart_path(hotstart_ghost),), solver));
        if reported.result.is_ok() {
            let mut paths = match self.handle.paths.take() {
                Some(paths) => paths,
                None => {
                    assert(false);
                    return Ok(());
                },
            };
            paths.hotstart = requested;
            paths.hotstart_key = requested_key;
            self.handle.paths = Some(paths);
        }
        let ghost configured = self.handle;
        assert(configured == spec_hotstart_configured(old(self).handle, hotstart_ghost, solver.result is Ok));
        let result = self.detached("use_hotstart", reported);
        assert(result == spec_detached_result(old(self).handle, "use_hotstart", solver));
        assert(spec_owner_is(
            *self,
            *old(self),
            spec_latched(configured, "use_hotstart", solver.lifecycle, solver.result is Err),
            old(self).iterator(),
        ));
        result
    }
}


/// Hotstart output can be saved while the project is running or complete.
pub open spec fn spec_hotstart_savable(state: SimulationLifecycle) -> bool {
    state == SimulationLifecycle::Running || state == SimulationLifecycle::Complete
}

impl NativeSimulation {
    /// Saves a Simulation Checkpoint to `target` through the solver's `save`.
    pub fn save_checkpoint<F: FnOnce(&String) -> Reported<()>>(
        &mut self,
        target: Destination,
        save: F,
    ) -> (result: Result<(), NativeError>)
        requires
            old(self).wf(),
            call_requires(save, (&target.path,)),
        ensures
            final(self).wf(),
            old(self).handle.paths is None ==> result is Err && spec_refused(
                *final(self),
                *old(self),
                result->Err_0,
                "save_checkpoint",
                ErrorCode::System,
                "owner paths unavailable"@,
            ),
            old(self).handle.paths is Some && old(self).handle.paths->0.spec_collides(
                target.key@,
                true,
            ) ==> result is Err && spec_refused(
                *final(self),
                *old(self),
                result->Err_0,
                "save_checkpoint",
                ErrorCode::ApiPropertyValue,
                "checkpoint must not collide with an owner path: "@ + target.path@,
            ),
            old(self).handle.paths is Some && !old(self).handle.paths->0.spec_collides(
                target.key@,
                true,
            ) ==> exists|solver: Reported<()>|
                {
                    &&& #[trigger] call_ensures(save, (&target.path,), solver)
                    &&& result == spec_detached_result(old(self).handle, "save_checkpoint", solver)
                    &&& spec_owner_is(
                        *final(self),
                        *old(self),
                        spec_latched(
                            old(self).handle,
                            "save_checkpoint",
                            solver.lifecycle,
                            solver.result is Err,
                        ),
                        old(self).iterator(),
                    )
                },
    {
        let lifecycle = self.handle.lifecycle;
        let collides = match &self.handle.paths {
            None => {
                let refused = SwmmError::with_str(ErrorCode::System, "owner paths unavailable");
                return self.detached("save_checkpoint", Reported { result: Err(refused), lifecycle });
            },
            Some(paths) => paths.collides(target.key.as_str(), true),
        };
        if collides {
            let refused = SwmmError::with_detail(
                ErrorCode::ApiPropertyValue,
                prefixed("checkpoint must not collide with an owner path: ", &target.path),
            );
            return self.detached("save_checkpoint", Reported { result: Err(refused), lifecycle });
        }
        let reported = save(&target.path);
        let ghost solver = reported;
        assert(call_ensures(save, (&target.path,), solver));
        self.detached("save_checkpoint", reported)
    }

    /// Writes hotstart output to `target` through the solver's `save`.
    ///
    /// `target` is the outcome of converting the caller's raw path.
    pub fn save_hotstart<F: FnOnce(&String) -> Reported<()>>(
        &mut self,
        target: Result<Destination, NativeError>,
        save: F,
    ) -> (result: Result<(), NativeError>)
        requires
            old(self).wf(),
            target is Ok ==> call_requires(save, (&target->Ok_0.path,)),
        ensures
            final(self).wf(),
            !spec_hotstart_savable(old(self).handle.lifecycle) ==> result is Err
                && is_property_error(
                result->Err_0,
                "save_hotstart",
                ErrorCode::ApiNotStarted,
                "hotstart output is available only while running or complete"@,
            ) && *final(self) == *old(self),
            spec_hotstart_savable(old(self).handle.lifecycle) && target is Err ==> result
                == Err::<(), NativeError>(target->Err_0) && *final(self) == *old(self),
            spec_hotstart_savable(old(self).handle.lifecycle) && target is Ok
                && old(self).handle.paths is None ==> result is Err && spec_refused(
                *final(self),
                *old(self),
                result->Err_0,
                "save_hotstart",
                ErrorCode::System,
                "owner paths unavailable"@,
            ),
            spec_hotstart_savable(old(self).handle.lifecycle) && target is Ok
                && old(self).handle.paths is Some && old(self).handle.paths->0.spec_collides(
                target->Ok_0.key@,
                true,
            ) ==> result is Err && spec_refused(
                *final(self),
                *old(self),
                result->Err_0,
                "save_hotstart",
                ErrorCode::ApiPropertyValue,
                "hotstart output must not collide with an owner path: "@ + target->Ok_0.path@,
            ),
            spec_hotstart_savable(old(self).handle.lifecycle) && target is Ok
                && old(self).handle.paths is Some && !old(self).handle.paths->0.spec_collides(
                target->Ok_0.key@,
                true,
            ) ==> exists|solver: Reported<()>|
                {
                    &&& #[trigger] call_ensures(save, (&target->Ok_0.path,), solver)
                    &&& result == spec_detached_result(old(self).handle, "save_hotstart", solver)
                    &&& spec_owner_is(
                        *final(self),
                        *old(self),
                        spec_latched(
                            old(self).handle,
                            "save_hotstart",
                            solver.lifecycle,
                            solver.result is Err,
                        ),
                        old(self).iterator(),
                    )
                },
    {
        let savable = match self.handle.lifecycle {
            SimulationLifecycle::Running | SimulationLifecycle::Complete => true,
            _ => false,
        };
        if !savable {
            return Err(
                native_error(
                    "save_hotstart",
                    SwmmError::with_str(
                        ErrorCode::ApiNotStarted,
                        "hotstart output is available only while running or complete",
                    ),
                ),
            );
        }
        let target = match target {
            Ok(target) => target,
            Err(error) => {
                return Err(error);
            },
        };
        let lifecycle = self.handle.lifecycle;
        let collides = match &self.handle.paths {
            None => {
                let refused = SwmmError::with_str(ErrorCode::System, "owner paths unavailable");
                return self.detached("save_hotstart", Reported { result: Err(refused), lifecycle });
            },
            Some(paths) => paths.collides(target.key.as_str(), true),
        };
        if collides {
            let refused = SwmmError::with_detail(
                ErrorCode::ApiPropertyValue,
                prefixed("hotstart output must not collide with an owner path: ", &target.path),
            );
            return self.detached("save_hotstart", Reported { result: Err(refused), lifecycle });
        }
        let reported = save(&target.path);
        let ghost solver = reported;
        assert(call_ensures(save, (&target.path,), solver));
        self.detached("save_hotstart", reported)
    }

    /// Forks this owner through the solver's `fork` into a child writing `report` and `output`.
    ///
    /// Returns the child solver together with the parent's input path.
    pub fn fork<S, F: FnOnce(&String, &String) -> Reported<S>>(
        &mut self,
        report: Destination,
        output: Destination,
        fork: F,
    ) -> (result: Result<(S, String), NativeError>)
        requires
            old(self).wf(),
            call_requires(fork, (&report.path, &output.path)),
        ensures
            final(self).wf(),
            report.key@ == output.key@ ==> result is Err && (result->Err_0 matches NativeError::Validation {
                detail,
            } && detail@ == "fork report_path and output_path must be distinct"@)
                && *final(self) == *old(self),
            report.key@ != output.key@ && old(self).handle.paths is None ==> result is Err
                && spec_refused(
                *final(self),
                *old(self),
                result->Err_0,
                "fork",
                ErrorCode::System,
                "owner paths unavailable"@,
            ),
            report.key@ != output.key@ && old(self).handle.paths is Some && (old(
                self,
            ).handle.paths->0.spec_collides(report.key@, true) || old(
                self,
            ).handle.paths->0.spec_collides(output.key@, true)) ==> result is Err && spec_refused(
                *final(self),
                *old(self),
                result->Err_0,
                "fork",
                ErrorCode::ApiPropertyValue,
                spec_fork_collision_detail(report.path@, output.path@),
            ),
            report.key@ != output.key@ && old(self).handle.paths is Some && !(old(
                self,
            ).handle.paths->0.spec_collides(report.key@, true) || old(
                self,
            ).handle.paths->0.spec_collides(output.key@, true)) ==> exists|solver: Reported<S>|
                {
                    &&& #[trigger] call_ensures(fork, (&report.path, &output.path), solver)
                    &&& solver.result matches Ok(child) ==> result == Ok::<(S, String), NativeError>(
                        (child, old(self).handle.paths->0.input),
                    )
                    &&& solver.result matches Err(e) ==> result == Err::<(S, String), NativeError>(
                        NativeError::Native {
                            operation: spec_failure_operation(
                                old(self).handle,
                                "fork",
                                solver.lifecycle,
                            ),
                            error: e,
                        },
                    )
                    &&& spec_owner_is(
                        *final(self),
                        *old(self),
                        spec_latched(old(self).handle, "fork", solver.lifecycle, solver.result is Err),
                        old(self).iterator(),
                    )
                },
    {
        if crate::text::str_eq(report.key.as_str(), output.key.as_str()) {
            return Err(crate::error::validation_error("fork report_path and output_path must be distinct"));
        }
        let lifecycle = self.handle.lifecycle;
        let (collides, input) = match &self.handle.paths {
            None => {
                let refused = SwmmError::with_str(ErrorCode::System, "owner paths unavailable");
                return self.detached("fork", Reported { result: Err(refused), lifecycle });
            },
            Some(paths) => (
                paths.collides(report.key.as_str(), true) || paths.collides(
                    output.key.as_str(),
                    true,
                ),
                paths.input.clone(),
            ),
        };
        if collides {
            let detail = String::from_str(
                "fork destinations must not collide with parent owner paths: report ",
            ).concat(report.path.as_str()).concat(", output ").concat(output.path.as_str());
            let refused = SwmmError::with_detail(ErrorCode::ApiPropertyValue, detail);
            return self.detached("fork", Reported { result: Err(refused), lifecycle });
        }
        let reported = fork(&report.path, &output.path);
        let ghost solver = reported;
        assert(call_ensures(fork, (&report.path, &output.path), solver));
        let lifecycle = reported.lifecycle;
        let paired = match reported.result {
            Ok(child) => Ok((child, input)),
            Err(error) => Err(error),
        };
        self.detached("fork", Reported { result: paired, lifecycle })
    }

    /// Resumes a solver from a prepared checkpoint through `resume` once the checkpoint's input,
    /// the checkpoint, the report, and the output resolve to distinct destinations.
    pub fn resume<S, F: FnOnce(&String, &String) -> Result<S, SwmmError>>(
        input: Destination,
        checkpoint: Destination,
        report: Destination,
        output: Destination,
        resume: F,
    ) -> (result: Result<S, NativeError>)
        requires
            call_requires(resume, (&report.path, &output.path)),
        ensures
            !spec_resume_distinct(input.key@, checkpoint.key@, report.key@, output.key@)
                ==> result is Err && (result->Err_0 matches NativeError::Validation { detail }
                && detail@ == spec_resume_collision_detail(
                input.path@,
                checkpoint.path@,
                report.path@,
                output.path@,
            )),
            spec_resume_distinct(input.key@, checkpoint.key@, report.key@, output.key@) ==> exists|
                r: Result<S, SwmmError>,
            |
                {
                    &&& #[trigger] call_ensures(resume, (&report.path, &output.path), r)
                    &&& r matches Ok(child) ==> result == Ok::<S, NativeError>(child)
                    &&& r matches Err(e) ==> result == Err::<S, NativeError>(
                        NativeError::Native { operation: "resume", error: e },
                    )
                },
    {
        let same = crate::text::str_eq(checkpoint.key.as_str(), report.key.as_str())
            || crate::text::str_eq(checkpoint.key.as_str(), output.key.as_str())
            || crate::text::str_eq(input.key.as_str(), report.key.as_str())
            || crate::text::str_eq(input.key.as_str(), output.key.as_str())
            || crate::text::str_eq(report.key.as_str(), output.key.as_str());
        if same {
            let detail = String::from_str(
                "checkpoint input, checkpoint, report, and output paths must have distinct destinations: attempted input ",
            ).concat(input.path.as_str()).concat(", checkpoint ").concat(
                checkpoint.path.as_str(),
            ).concat(", report ").concat(report.path.as_str()).concat(", output ").concat(
                output.path.as_str(),
            );
            return Err(NativeError::Validation { detail });
        }
        let resumed = resume(&report.path, &output.path);
        let ghost r = resumed;
        assert(call_ensures(resume, (&report.path, &output.path), r));
        match resumed {
            Ok(child) => Ok(child),
            Err(error) => Err(detached_error("resume", DetachedFailure::Solver("resume", error))),
        }
    }
}


/// What the solver reported back during an `iterator_next` exchange.
#[derive(Debug)]
pub enum NextEvent<T> {
    /// The caller asks for the iterator's next model time.
    Begin,
    /// The solver's lazy start finished.
    Started(Reported<()>),
    /// The solver's step or stride finished.
    Advanced(Reported<Option<T>>),
    /// The solver's end finished.
    Ended(Reported<()>),
}

/// What the caller must do next during an `iterator_next` exchange.
#[derive(Debug)]
pub enum NextAction<T> {
    /// Start the run, saving results.
    Start,
    /// Advance one routing step.
    Step,
    /// Advance by the stride cadence `(seconds, strict)`.
    Stride(i32, bool),
    /// End the run.
    End,
    /// The exchange is over with this result: a model time, or `None` when exhausted.
    Finished(Result<Option<T>, NativeError>),
}

/// True when `event` is the one the exchange waits for in `phase`.
pub open spec fn spec_next_expects<T>(phase: NextPhase, event: NextEvent<T>) -> bool {
    match event {
        NextEvent::Begin => phase == NextPhase::Ready,
        NextEvent::Started(_) => phase == NextPhase::Starting,
        NextEvent::Advanced(_) => phase == NextPhase::Advancing || phase
            == NextPhase::AdvancingUnowned,
        NextEvent::Ended(_) => phase == NextPhase::Ending,
    }
}

/// The advance the owning iterator asks for: its stride cadence, or one routing step.
pub open spec fn spec_advance_action<T>(stride: Option<(i32, bool)>) -> NextAction<T> {
    match stride {
        Some((seconds, strict)) => NextAction::Stride(seconds, strict),
        None => NextAction::Step,
    }
}

/// True when the exchange ended with `action` carrying `result` after `handle` (the handle
/// before the final bookkeeping) recorded `lifecycle`: a result other than a model time exhausts
/// the iterator, and a failure is attributed like any mutating operation's.
pub open spec fn spec_next_finished<T>(
    after: NativeSimulation,
    handle: HandleState,
    lifecycle: SimulationLifecycle,
    result: Result<Option<T>, SwmmError>,
    iterator: Option<IteratorState>,
    action: NextAction<T>,
) -> bool {
    let finished = HandleState {
        iterator_exhausted: handle.iterator_exhausted || !(result matches Ok(Some(_))),
        ..handle
    };
    &&& action == NextAction::Finished(
        spec_detached_result(finished, "next", Reported { result, lifecycle }),
    )
    &&& after.handle == spec_latched(finished, "next", lifecycle, result is Err)
    &&& after.iterator() == iterator
    &&& after.next_phase == NextPhase::Ready
}

/// True when the exchange continues by asking for `action` in `phase`, with the handle now
/// `handle` and the iterator `iterator`.
pub open spec fn spec_next_continues<T>(
    after: NativeSimulation,
    handle: HandleState,
    iterator: Option<IteratorState>,
    phase: NextPhase,
    action: NextAction<T>,
    expected: NextAction<T>,
) -> bool {
    &&& action == expected
    &&& after.handle == handle
    &&& after.iterator() == iterator
    &&& after.next_phase == phase
}

/// How the owning iterator continues once it owns advancement: a requested termination ends the
/// run, otherwise it advances.
pub open spec fn spec_next_owned<T>(
    after: NativeSimulation,
    handle: HandleState,
    iterator: IteratorState,
    action: NextAction<T>,
) -> bool {
    if iterator == IteratorState::Requested {
        spec_next_continues(after, handle, Some(iterator), NextPhase::Ending, action, NextAction::End)
    } else {
        spec_next_continues(
            after,
            handle,
            Some(iterator),
            NextPhase::Advancing,
            action,
            spec_advance_action(handle.advance_stride),
        )
    }
}

/// True when one `iterator_next` step took the owner from `before` to `after` with `action`,
/// the solver having reported `event`.
pub open spec fn spec_next_step<T>(
    before: NativeSimulation,
    after: NativeSimulation,
    event: NextEvent<T>,
    action: NextAction<T>,
) -> bool {
    match event {
        NextEvent::Begin => {
            let h = before.handle;
            if h.iterator_exhausted {
                spec_next_finished(
                    after,
                    h,
                    h.lifecycle,
                    Ok(None),
                    before.iterator(),
                    action,
                )
            } else if before.iterator() == Some(IteratorState::Idle) {
                match h.lifecycle {
                    SimulationLifecycle::Open | SimulationLifecycle::Ended => spec_next_continues(
                        after,
                        h,
                        Some(IteratorState::Idle),
                        NextPhase::Starting,
                        action,
                        NextAction::Start,
                    ),
                    SimulationLifecycle::Running => spec_next_owned(
                        after,
                        h,
                        IteratorState::Iterating,
                        action,
                    ),
                    SimulationLifecycle::Complete => spec_next_finished(
                        after,
                        h,
                        h.lifecycle,
                        Ok(None),
                        Some(IteratorState::Idle),
                        action,
                    ),
                    _ => spec_next_continues(
                        after,
                        h,
                        Some(IteratorState::Idle),
                        NextPhase::AdvancingUnowned,
                        action,
                        NextAction::Step,
                    ),
                }
            } else {
                spec_next_owned(after, h, before.iterator()->0, action)
            }
        },
        NextEvent::Started(reported) => {
            let h = HandleState { lifecycle: reported.lifecycle, ..before.handle };
            match reported.result {
                Ok(()) => spec_next_owned(after, h, IteratorState::Iterating, action),
                Err(e) => spec_next_finished(
                    after,
                    h,
                    reported.lifecycle,
                    Err(e),
                    before.iterator(),
                    action,
                ),
            }
        },
        NextEvent::Advanced(reported) => {
            let h = HandleState { lifecycle: reported.lifecycle, ..before.handle };
            if before.next_phase == NextPhase::AdvancingUnowned {
                spec_next_finished(
                    after,
                    h,
                    reported.lifecycle,
                    reported.result,
                    before.iterator(),
                    action,
                )
            } else {
                match reported.result {
                    Ok(Some(t)) => spec_next_finished(
                        after,
                        h,
                        reported.lifecycle,
                        Ok(Some(t)),
                        before.iterator(),
                        action,
                    ),
                    Ok(None) => if before.iterator() == Some(IteratorState::Iterating) {
                        spec_next_finished(
                            after,
                            h,
                            reported.lifecycle,
                            Ok(None),
                            Some(IteratorState::Idle),
                            action,
                        )
                    } else {
                        spec_next_continues(
                            after,
                            h,
                            before.iterator(),
                            NextPhase::Ending,
                            action,
                            NextAction::End,
                        )
                    },
                    Err(e) => spec_next_finished(
                        after,
                        h,
                        reported.lifecycle,
                        Err(e),
                        Some(IteratorState::Idle),
                        action,
                    ),
                }
            }
        },
        NextEvent::Ended(reported) => {
            let h = HandleState { lifecycle: reported.lifecycle, ..before.handle };
            spec_next_finished(
                after,
                h,
                reported.lifecycle,
                match reported.result {
                    Ok(()) => Ok(None),
                    Err(e) => Err(e),
                },
                Some(IteratorState::Idle),
                action,
            )
        },
    }
}

impl NativeSimulation {
    /// Finishes an `iterator_next` exchange with `result`.
    fn next_finish<T>(&mut self, result: Result<Option<T>, SwmmError>) -> (action: NextAction<T>)
        requires
            old(self).wf_exchange(),
        ensures
            final(self).wf(),
            final(self).test_concurrency == old(self).test_concurrency,
            spec_next_finished(
                *final(self),
                old(self).handle,
                old(self).handle.lifecycle,
                result,
                old(self).iterator(),
                action,
            ),
    {
        let exhausted = match &result {
            Ok(Some(_)) => false,
            _ => true,
        };
        if exhausted {
            self.handle.iterator_exhausted = true;
        }
        self.next_phase = NextPhase::Ready;
        let lifecycle = self.handle.lifecycle;
        NextAction::Finished(self.detached("next", Reported { result, lifecycle }))
    }

    /// Continues an exchange whose iterator owns advancement.
    fn next_owned<T>(&mut self) -> (action: NextAction<T>)
        requires
            old(self).wf_exchange(),
            !old(self).handle.iterator_exhausted,
            old(self).iterator() == Some(IteratorState::Iterating) || old(self).iterator() == Some(
                IteratorState::Requested,
            ),
        ensures
            final(self).wf_exchange(),
            final(self).test_concurrency == old(self).test_concurrency,
            spec_next_owned(*final(self), old(self).handle, old(self).iterator()->0, action),
    {
        if self.iterator_state.load() == Some(IteratorState::Requested) {
            self.next_phase = NextPhase::Ending;
            return NextAction::End;
        }
        self.next_phase = NextPhase::Advancing;
        match self.handle.advance_stride {
            Some((seconds, strict)) => NextAction::Stride(seconds, strict),
            None => NextAction::Step,
        }
    }

    /// Lazily starts and advances the exclusively owned iterator, one solver exchange at a time.
    ///
    /// The caller begins with `NextEvent::Begin`, performs each returned action on the solver
    /// and hands back what it reported, until the action is `Finished`.
    pub fn iterator_next<T>(&mut self, event: NextEvent<T>) -> (action: NextAction<T>)
        requires
            old(self).wf_exchange(),
            spec_next_expects(old(self).next_phase, event),
        ensures
            final(self).wf_exchange(),
            final(self).test_concurrency == old(self).test_concurrency,
            action is Finished <==> final(self).next_phase == NextPhase::Ready,
            spec_next_step(*old(self), *final(self), event, action),
            action matches NextAction::Finished(Ok(Some(_))) ==> !final(self).handle.iterator_exhausted,
    {
        match event {
            NextEvent::Begin => {
                if self.handle.iterator_exhausted {
                    return self.next_finish(Ok(None));
                }
                let current = self.iterator_state.load();
                if current == Some(IteratorState::Idle) {
                    match self.handle.lifecycle {
                        SimulationLifecycle::Open | SimulationLifecycle::Ended => {
                            self.next_phase = NextPhase::Starting;
                            return NextAction::Start;
                        },
                        SimulationLifecycle::Running => {
                            self.iterator_state.store(IteratorState::Iterating);
                        },
                        SimulationLifecycle::Complete => {
                            return self.next_finish(Ok(None));
                        },
                        SimulationLifecycle::Failed | SimulationLifecycle::Closed => {
                            self.next_phase = NextPhase::AdvancingUnowned;
                            return NextAction::Step;
                        },
                    }
                    assert(self.iterator() == Some(IteratorState::Iterating));
                } else {
                    assert(current is Some);
                    assert(self.iterator() == current);
                    assert(current != Some(IteratorState::Idle));
                    assert(current == Some(IteratorState::Iterating) || current == Some(IteratorState::Requested));
                }
                self.next_owned()
            },
            NextEvent::Started(reported) => {
                self.handle.lifecycle = reported.lifecycle;
                match reported.result {
                    Ok(()) => {
                        self.iterator_state.store(IteratorState::Iterating);
                        self.next_owned()
                    },
                    Err(error) => self.next_finish(Err(error)),
                }
            },
            NextEvent::Advanced(reported) => {
                self.handle.lifecycle = reported.lifecycle;
                if self.next_phase == NextPhase::AdvancingUnowned {
                    return self.next_finish(reported.result);
                }
                match reported.result {
                    Ok(Some(time)) => self.next_finish(Ok(Some(time))),
                    Ok(None) => {
                        if self.iterator_state.replace(IteratorState::Iterating, IteratorState::Idle) {
                            self.next_finish(Ok(None))
                        } else {
                            self.next_phase = NextPhase::Ending;
                            NextAction::End
                        }
                    },
                    Err(error) => {
                        self.iterator_state.store(IteratorState::Idle);
                        self.next_finish(Err(error))
                    },
                }
            },
            NextEvent::Ended(reported) => {
                self.handle.lifecycle = reported.lifecycle;
                self.iterator_state.store(IteratorState::Idle);
                match reported.result {
                    Ok(()) => self.next_finish(Ok(None)),
                    Err(error) => self.next_finish(Err(error)),
                }
            },
        }
    }
}

/// An exhausted iterator keeps finishing: once an exchange finishes without a model time, the
/// next exchange finishes at once with `Ok(None)`, asks the solver for nothing and leaves the
/// owner as it was, so every later exchange does the same.
pub proof fn lemma_exhausted_iterator_keeps_finishing<T>(
    finished: NativeSimulation,
    handle: HandleState,
    lifecycle: SimulationLifecycle,
    result: Result<Option<T>, SwmmError>,
    iterator: Option<IteratorState>,
    action: NextAction<T>,
    after: NativeSimulation,
    next: NextAction<T>,
)
    requires
        spec_next_finished(finished, handle, lifecycle, result, iterator, action),
        !(result matches Ok(Some(_))),
        spec_next_step(finished, after, NextEvent::<T>::Begin, next),
    ensures
        finished.handle.iterator_exhausted,
        next == NextAction::<T>::Finished(Ok(None)),
        after.handle == finished.handle,
        after.iterator() == finished.iterator(),
        after.next_phase == NextPhase::Ready,
        spec_next_finished(after, finished.handle, finished.handle.lifecycle, Ok::<Option<T>, SwmmError>(None), finished.iterator(), next),
{
}

/// After `terminate`, the next exchange ends the run instead of advancing it: it asks the
/// solver for `end` and nothing else, releases the iterator, finishes with `Ok(None)` when `end`
/// succeeds (with `end`'s failure otherwise), and every exchange after it finishes with
/// `Ok(None)` at once.
pub proof fn lemma_terminate_ends_iteration<T>(
    requested: NativeSimulation,
    ending: NativeSimulation,
    end_action: NextAction<T>,
    reported: Reported<()>,
    ended: NativeSimulation,
    finish: NextAction<T>,
    later: NativeSimulation,
    again: NextAction<T>,
)
    requires
        requested.iterator() == Some(IteratorState::Requested),
        !requested.handle.iterator_exhausted,
        spec_next_step(requested, ending, NextEvent::<T>::Begin, end_action),
        spec_next_step(ending, ended, NextEvent::<T>::Ended(reported), finish),
        spec_next_step(ended, later, NextEvent::<T>::Begin, again),
    ensures
        end_action == NextAction::<T>::End,
        ending.next_phase == NextPhase::Ending,
        ending.handle == requested.handle,
        ended.iterator() == Some(IteratorState::Idle),
        ended.handle.iterator_exhausted,
        ended.next_phase == NextPhase::Ready,
        reported.result is Ok ==> finish == NextAction::<T>::Finished(Ok(None)),
        reported.result is Err ==> (finish matches NextAction::Finished(Err(NativeError::Native { error, .. }))
            && error == reported.result->Err_0),
        again == NextAction::<T>::Finished(Ok(None)),
        later.handle == ended.handle,
        later.iterator() == Some(IteratorState::Idle),
{
    let h = HandleState { lifecycle: reported.lifecycle, ..ending.handle };
    let r: Result<Option<T>, SwmmError> = match reported.result {
        Ok(()) => Ok(None),
        Err(e) => Err(e),
    };
    lemma_exhausted_iterator_keeps_finishing(ended, h, reported.lifecycle, r, Some(IteratorState::Idle), finish, later, again);
}

} // verus!
