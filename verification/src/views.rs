use vstd::prelude::*;
use vstd::string::*;

use crate::error::{detached_error, internal_error, native_error, spec_detached_error, NativeError, SwmmError};
use crate::fields::is_internal_error;
use crate::owner::{spec_attached, HandleState, NativeSimulation, Reported, ReportedView};

verus! {

/// `after` and `result` are what a Live View mutation of `operation` gives when the extracted
/// payload must first pass a check against the configured objects (`checked` says which outcomes
/// that check can give): as `spec_field_update`, except that once the identity is confirmed the
/// check runs, a refusal is raised with the owner unchanged, and only a checked payload reaches
/// `apply`.
pub open spec fn spec_field_update_checked<
    S,
    X,
    Y,
    M: FnOnce() -> Result<bool, SwmmError>,
    A: FnOnce(Y) -> Reported<()>,
>(
    before: NativeSimulation,
    after: NativeSimulation,
    operation: &'static str,
    generation: u64,
    subtype: Option<S>,
    payload: Result<X, NativeError>,
    matches: M,
    checked: spec_fn(X, Result<Y, SwmmError>) -> bool,
    apply: A,
    result: Result<(), NativeError>,
) -> bool {
    match payload {
        Err(e) => result == Err::<(), NativeError>(e) && after == before,
        Ok(x) => if subtype is None {
            &&& result is Err
            &&& is_internal_error(result->Err_0, operation, "invalid private subtype"@)
            &&& after == before
        } else if !before.spec_generation_active(generation) {
            result == Err::<(), NativeError>(NativeError::Stale { operation }) && after == before
        } else {
            exists|m: Result<bool, SwmmError>|
                {
                    &&& call_ensures(matches, (), m)
                    &&& m matches Err(e) ==> result == Err::<(), NativeError>(
                        NativeError::Native { operation, error: e },
                    ) && after == before
                    &&& m == Ok::<bool, SwmmError>(false) ==> result == Err::<(), NativeError>(
                        NativeError::Stale { operation },
                    ) && after == before
                    &&& m == Ok::<bool, SwmmError>(true) ==> exists|c: Result<Y, SwmmError>|
                        {
                            &&& #[trigger] checked(x, c)
                            &&& c matches Err(e) ==> result == Err::<(), NativeError>(
                                NativeError::Native { operation, error: e },
                            ) && after == before
                            &&& c matches Ok(y) ==> exists|r: Reported<()>|
                                {
                                    &&& call_ensures(apply, (y,), r)
                                    &&& spec_attached(operation, r.result, result)
                                    &&& after.handle == (HandleState { lifecycle: r.lifecycle, ..before.handle })
                                    &&& after.iterator_state == before.iterator_state
                                    &&& after.test_concurrency == before.test_concurrency
                                    &&& after.next_phase == before.next_phase
                                }
                        }
                }
        },
    }
}

/// `result` is what a Live View read of `operation` gives: the selector (`field`) is resolved
/// first, then the captured subtype, then the Project Generation; `matches` confirms the
/// captured identity, and only then does `read` run with the selector.
pub open spec fn spec_field_view<
    S,
    X,
    T,
    M: FnOnce() -> Result<bool, SwmmError>,
    R: FnOnce(X) -> Result<T, SwmmError>,
>(
    owner: NativeSimulation,
    operation: &'static str,
    generation: u64,
    subtype: Option<S>,
    field: Result<X, NativeError>,
    matches: M,
    read: R,
    result: Result<T, NativeError>,
) -> bool {
    match field {
        Err(e) => result == Err::<T, NativeError>(e),
        Ok(x) => if subtype is None {
            result is Err && is_internal_error(result->Err_0, operation, "invalid private subtype"@)
        } else if !owner.spec_generation_active(generation) {
            result == Err::<T, NativeError>(NativeError::Stale { operation })
        } else {
            exists|m: Result<bool, SwmmError>|
                {
                    &&& call_ensures(matches, (), m)
                    &&& m matches Err(e) ==> result == Err::<T, NativeError>(
                        NativeError::Native { operation, error: e },
                    )
                    &&& m == Ok::<bool, SwmmError>(false) ==> result == Err::<T, NativeError>(
                        NativeError::Stale { operation },
                    )
                    &&& m == Ok::<bool, SwmmError>(true) ==> exists|r: Result<T, SwmmError>|
                        call_ensures(read, (x,), r) && spec_attached(operation, r, result)
                }
        },
    }
}

/// `after` and `result` are what a Live View mutation of `operation` gives: the payload is
/// extracted first, then the captured subtype and the Project Generation are checked;
/// `matches` confirms the captured identity, and only then does `apply` run with the payload,
/// its reported lifecycle recorded.
pub open spec fn spec_field_update<
    S,
    X,
    M: FnOnce() -> Result<bool, SwmmError>,
    A: FnOnce(X) -> Reported<()>,
>(
    before: NativeSimulation,
    after: NativeSimulation,
    operation: &'static str,
    generation: u64,
    subtype: Option<S>,
    payload: Result<X, NativeError>,
    matches: M,
    apply: A,
    result: Result<(), NativeError>,
) -> bool {
    match payload {
        Err(e) => result == Err::<(), NativeError>(e) && after == before,
        Ok(x) => if subtype is None {
            &&& result is Err
            &&& is_internal_error(result->Err_0, operation, "invalid private subtype"@)
            &&& after == before
        } else if !before.spec_generation_active(generation) {
            result == Err::<(), NativeError>(NativeError::Stale { operation }) && after == before
        } else {
            exists|m: Result<bool, SwmmError>|
                {
                    &&& call_ensures(matches, (), m)
                    &&& m matches Err(e) ==> result == Err::<(), NativeError>(
                        NativeError::Native { operation, error: e },
                    ) && after == before
                    &&& m == Ok::<bool, SwmmError>(false) ==> result == Err::<(), NativeError>(
                        NativeError::Stale { operation },
                    ) && after == before
                    &&& m == Ok::<bool, SwmmError>(true) ==> exists|r: Reported<()>|
                        {
                            &&& call_ensures(apply, (x,), r)
                            &&& spec_attached(operation, r.result, result)
                            &&& after.handle == (HandleState { lifecycle: r.lifecycle, ..before.handle })
                            &&& after.iterator_state == before.iterator_state
                            &&& after.test_concurrency == before.test_concurrency
                            &&& after.next_phase == before.next_phase
                        }
                }
        },
    }
}

/// `result` and `after` are what a Live View mutation whose work can itself report staleness
/// gives: as `spec_field_update`, with the work's failure mapped by `spec_detached_error`.
pub open spec fn spec_field_update_view<
    S,
    X,
    M: FnOnce() -> Result<bool, SwmmError>,
    A: FnOnce(X) -> ReportedView<()>,
>(
    before: NativeSimulation,
    after: NativeSimulation,
    operation: &'static str,
    generation: u64,
    subtype: Option<S>,
    payload: Result<X, NativeError>,
    matches: M,
    apply: A,
    result: Result<(), NativeError>,
) -> bool {
    match payload {
        Err(e) => result == Err::<(), NativeError>(e) && after == before,
        Ok(x) => if subtype is None {
            &&& result is Err
            &&& is_internal_error(result->Err_0, operation, "invalid private subtype"@)
            &&& after == before
        } else if !before.spec_generation_active(generation) {
            result == Err::<(), NativeError>(NativeError::Stale { operation }) && after == before
        } else {
            exists|m: Result<bool, SwmmError>|
                {
                    &&& call_ensures(matches, (), m)
                    &&& m matches Err(e) ==> result == Err::<(), NativeError>(
                        NativeError::Native { operation, error: e },
                    ) && after == before
                    &&& m == Ok::<bool, SwmmError>(false) ==> result == Err::<(), NativeError>(
                        NativeError::Stale { operation },
                    ) && after == before
                    &&& m == Ok::<bool, SwmmError>(true) ==> exists|r: ReportedView<()>|
                        {
                            &&& call_ensures(apply, (x,), r)
                            &&& r.result matches Ok(v) ==> result == Ok::<(), NativeError>(v)
                            &&& r.result matches Err(f) ==> result == Err::<(), NativeError>(
                                spec_detached_error(operation, f),
                            )
                            &&& after.handle == (HandleState { lifecycle: r.lifecycle, ..before.handle })
                            &&& after.iterator_state == before.iterator_state
                            &&& after.test_concurrency == before.test_concurrency
                            &&& after.next_phase == before.next_phase
                        }
                }
        },
    }
}

impl NativeSimulation {
    /// Whether `generation` is the active Project Generation.
    pub fn is_active_generation(&self, generation: u64) -> (active: bool)
        ensures
            active == self.spec_generation_active(generation),
    {
        match self.handle.active_generation {
            Some(active) => active.0 == generation,
            None => false,
        }
    }

    /// Runs one Live View read with a resolved selector.
    pub fn field_view<
        S,
        X,
        T,
        M: FnOnce() -> Result<bool, SwmmError>,
        R: FnOnce(X) -> Result<T, SwmmError>,
    >(
        &self,
        operation: &'static str,
        generation: u64,
        subtype: Option<S>,
        field: Result<X, NativeError>,
        matches: M,
        read: R,
    ) -> (result: Result<T, NativeError>)
        requires
            call_requires(matches, ()),
            forall|x: X| call_requires(read, (x,)),
        ensures
            spec_field_view(*self, operation, generation, subtype, field, matches, read, result),
    {
        let x = match field {
            Ok(x) => x,
            Err(e) => {
                return Err(e);
            },
        };
        if subtype.is_none() {
            return Err(internal_error(operation, "invalid private subtype"));
        }
        if !self.is_active_generation(generation) {
            return Err(NativeError::Stale { operation });
        }
        let matched = matches();
        let ghost m = matched;
        assert(call_ensures(matches, (), m));
        match matched {
            Err(error) => Err(native_error(operation, error)),
            Ok(false) => Err(NativeError::Stale { operation }),
            Ok(true) => {
                let ghost gx = x;
                let value = read(x);
                let ghost r = value;
                let result = self.attached(operation, value);
                assert(call_ensures(read, (gx,), r) && spec_attached(operation, r, result));
                result
            },
        }
    }

    /// Runs one Live View mutation with an extracted payload.
    pub fn field_update<S, X, M: FnOnce() -> Result<bool, SwmmError>, A: FnOnce(X) -> Reported<()>>(
        &mut self,
        operation: &'static str,
        generation: u64,
        subtype: Option<S>,
        payload: Result<X, NativeError>,
        matches: M,
        apply: A,
    ) -> (result: Result<(), NativeError>)
        requires
            call_requires(matches, ()),
            forall|x: X| call_requires(apply, (x,)),
        ensures
            spec_field_update(
                *old(self),
                *final(self),
                operation,
                generation,
                subtype,
                payload,
                matches,
                apply,
                result,
            ),
            old(self).wf() ==> final(self).wf(),
    {
        let x = match payload {
            Ok(x) => x,
            Err(e) => {
                return Err(e);
            },
        };
        if subtype.is_none() {
            return Err(internal_error(operation, "invalid private subtype"));
        }
        if !self.is_active_generation(generation) {
            return Err(NativeError::Stale { operation });
        }
        let matched = matches();
        let ghost m = matched;
        assert(call_ensures(matches, (), m));
        match matched {
            Err(error) => Err(native_error(operation, error)),
            Ok(false) => Err(NativeError::Stale { operation }),
            Ok(true) => {
                let ghost gx = x;
                let reported = apply(x);
                let ghost r = reported;
                assert(call_ensures(apply, (gx,), r));
                self.handle.lifecycle = reported.lifecycle;
                let result = self.attached(operation, reported.result);
                assert(spec_attached(operation, r.result, result));
                result
            },
        }
    }

    /// Runs one Live View mutation whose extracted payload is checked by `check` against the
    /// configured objects before `apply` receives the checked payload.
    pub fn field_update_checked<
        S,
        X,
        Y,
        M: FnOnce() -> Result<bool, SwmmError>,
        C: FnOnce(X) -> Result<Y, SwmmError>,
        A: FnOnce(Y) -> Reported<()>,
    >(
        &mut self,
        operation: &'static str,
        generation: u64,
        subtype: Option<S>,
        payload: Result<X, NativeError>,
        matches: M,
        check: C,
        checked: Ghost<spec_fn(X, Result<Y, SwmmError>) -> bool>,
        apply: A,
    ) -> (result: Result<(), NativeError>)
        requires
            call_requires(matches, ()),
            forall|x: X| call_requires(check, (x,)),
            forall|x: X, c: Result<Y, SwmmError>| call_ensures(check, (x,), c) ==> (checked@)(x, c),
            forall|y: Y| call_requires(apply, (y,)),
        ensures
            spec_field_update_checked(
                *old(self),
                *final(self),
                operation,
                generation,
                subtype,
                payload,
                matches,
                checked@,
                apply,
                result,
            ),
            old(self).wf() ==> final(self).wf(),
    {
        let x = match payload {
            Ok(x) => x,
            Err(e) => {
                return Err(e);
            },
        };
        if subtype.is_none() {
            return Err(internal_error(operation, "invalid private subtype"));
        }
        if !self.is_active_generation(generation) {
            return Err(NativeError::Stale { operation });
        }
        let matched = matches();
        let ghost m = matched;
        assert(call_ensures(matches, (), m));
        match matched {
            Err(error) => Err(native_error(operation, error)),
            Ok(false) => Err(NativeError::Stale { operation }),
            Ok(true) => {
                let ghost gx = x;
                let outcome = check(x);
                let ghost c = outcome;
                assert(call_ensures(check, (gx,), c));
                match outcome {
                    Err(error) => Err(native_error(operation, error)),
                    Ok(y) => {
                        let ghost gy = y;
                        let reported = apply(y);
                        let ghost r = reported;
                        assert(call_ensures(apply, (gy,), r));
                        self.handle.lifecycle = reported.lifecycle;
                        let result = self.attached(operation, reported.result);
                        assert(spec_attached(operation, r.result, result));
                        result
                    },
                }
            },
        }
    }

    /// Runs one Live View mutation with an extracted payload whose work can itself report
    /// staleness.
    pub fn field_update_view<S, X, M: FnOnce() -> Result<bool, SwmmError>, A: FnOnce(X) -> ReportedView<()>>(
        &mut self,
        operation: &'static str,
        generation: u64,
        subtype: Option<S>,
        payload: Result<X, NativeError>,
        matches: M,
        apply: A,
    ) -> (result: Result<(), NativeError>)
        requires
            call_requires(matches, ()),
            forall|x: X| call_requires(apply, (x,)),
        ensures
            spec_field_update_view(
                *old(self),
                *final(self),
                operation,
                generation,
                subtype,
                payload,
                matches,
                apply,
                result,
            ),
            old(self).wf() ==> final(self).wf(),
    {
        let x = match payload {
            Ok(x) => x,
            Err(e) => {
                return Err(e);
            },
        };
        if subtype.is_none() {
            return Err(internal_error(operation, "invalid private subtype"));
        }
        if !self.is_active_generation(generation) {
            return Err(NativeError::Stale { operation });
        }
        let matched = matches();
        let ghost m = matched;
        assert(call_ensures(matches, (), m));
        match matched {
            Err(error) => Err(native_error(operation, error)),
            Ok(false) => Err(NativeError::Stale { operation }),
            Ok(true) => {
                let ghost gx = x;
                let reported = apply(x);
                let ghost r = reported;
                assert(call_ensures(apply, (gx,), r));
                self.handle.lifecycle = reported.lifecycle;
                match reported.result {
                    Ok(value) => Ok(value),
                    Err(failure) => Err(detached_error(operation, failure)),
                }
            },
        }
    }
}

/// A Live View read made with a Project Generation that is no longer active is refused as
/// stale before the solver is asked anything.
pub proof fn lemma_stale_view_read_refused<
    S,
    X,
    T,
    M: FnOnce() -> Result<bool, SwmmError>,
    R: FnOnce(X) -> Result<T, SwmmError>,
>(
    owner: NativeSimulation,
    operation: &'static str,
    generation: u64,
    subtype: S,
    field: X,
    matches: M,
    read: R,
    result: Result<T, NativeError>,
)
    requires
        !owner.spec_generation_active(generation),
        spec_field_view(owner, operation, generation, Some(subtype), Ok::<X, NativeError>(field), matches, read, result),
    ensures
        result == Err::<T, NativeError>(NativeError::Stale { operation }),
{
}

/// A Live View mutation made with a Project Generation that is no longer active is refused as
/// stale and leaves the owner unchanged.
pub proof fn lemma_stale_view_update_refused<
    S,
    X,
    M: FnOnce() -> Result<bool, SwmmError>,
    A: FnOnce(X) -> Reported<()>,
>(
    before: NativeSimulation,
    after: NativeSimulation,
    operation: &'static str,
    generation: u64,
    subtype: S,
    payload: X,
    matches: M,
    apply: A,
    result: Result<(), NativeError>,
)
    requires
        !before.spec_generation_active(generation),
        spec_field_update(
            before,
            after,
            operation,
            generation,
            Some(subtype),
            Ok::<X, NativeError>(payload),
            matches,
            apply,
            result,
        ),
    ensures
        result == Err::<(), NativeError>(NativeError::Stale { operation }),
        after == before,
{
}

} // verus!
