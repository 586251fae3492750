use vstd::prelude::*;
use vstd::string::*;

use crate::convert::{detail, spec_refusal_outcome, spec_strict_number, spec_text, strict_number, text_of, Refusal};
use crate::error::{NativeError, SwmmError};
use crate::inspect::type_error;
use crate::owner::{NativeSimulation, Reported};
use crate::value::{Number, PyValue};
use crate::views::{spec_field_update, spec_field_view};

verus! {

/// A persistent per-pollutant value change: the `(pollutant, value)` items in the order given,
/// and whether configured pollutants that are not named reset to zero.
pub struct PollutantValuesUpdate {
    pub values: Vec<(String, Number)>,
    pub replace: bool,
}

/// One `(pollutant, value)` item: the pollutant named by a `str`, the value a strict number
/// called `name`.
pub open spec fn spec_pollutant_item(key: PyValue, value: PyValue, name: Seq<char>) -> Result<(String, Number), Refusal> {
    match spec_text(key) {
        None => Err(Refusal::Type("pollutant ids must be str"@)),
        Some(k) => match spec_strict_number(value, name) {
            Err(d) => Err(Refusal::Detail(d)),
            Ok(n) => Ok((k, n)),
        },
    }
}

/// One entry of a pair iterable: a two-item `tuple` or `list` read as a `(pollutant, value)` item.
pub open spec fn spec_pollutant_entry(entry: PyValue, name: Seq<char>) -> Result<(String, Number), Refusal> {
    match entry {
        PyValue::Tuple(items) => if items@.len() == 2 {
            spec_pollutant_item(items@[0], items@[1], name)
        } else {
            Err(Refusal::Type(name + " entries must be (pollutant, value) pairs"@))
        },
        PyValue::List(items) => if items@.len() == 2 {
            spec_pollutant_item(items@[0], items@[1], name)
        } else {
            Err(Refusal::Type(name + " entries must be (pollutant, value) pairs"@))
        },
        _ => Err(Refusal::Type(name + " entries must be (pollutant, value) pairs"@)),
    }
}

/// The items read from the first `n` `(key, value)` items of a mapping.
pub open spec fn spec_pollutant_pairs(items: Seq<(PyValue, PyValue)>, name: Seq<char>, n: int) -> Result<Seq<(String, Number)>, Refusal>
    decreases n,
{
    if n <= 0 {
        Ok(Seq::empty())
    } else {
        match spec_pollutant_pairs(items, name, n - 1) {
            Err(r) => Err(r),
            Ok(v) => match spec_pollutant_item(items[n - 1].0, items[n - 1].1, name) {
                Err(r) => Err(r),
                Ok(e) => Ok(v.push(e)),
            },
        }
    }
}

/// The items read from the first `n` entries of a pair iterable.
pub open spec fn spec_pollutant_entries(items: Seq<PyValue>, name: Seq<char>, n: int) -> Result<Seq<(String, Number)>, Refusal>
    decreases n,
{
    if n <= 0 {
        Ok(Seq::empty())
    } else {
        match spec_pollutant_entries(items, name, n - 1) {
            Err(r) => Err(r),
            Ok(v) => match spec_pollutant_entry(items[n - 1], name) {
                Err(r) => Err(r),
                Ok(e) => Ok(v.push(e)),
            },
        }
    }
}

/// Once a mapping item is refused, every longer prefix is refused the same way.
pub proof fn lemma_pollutant_pairs_refusal(items: Seq<(PyValue, PyValue)>, name: Seq<char>, i: int, n: int)
    requires
        0 <= i <= n,
        spec_pollutant_pairs(items, name, i) is Err,
    ensures
        spec_pollutant_pairs(items, name, n) == spec_pollutant_pairs(items, name, i),
    decreases n - i,
{
    if n > i {
        lemma_pollutant_pairs_refusal(items, name, i, n - 1);
    }
}

/// Once an iterable entry is refused, every longer prefix is refused the same way.
pub proof fn lemma_pollutant_entries_refusal(items: Seq<PyValue>, name: Seq<char>, i: int, n: int)
    requires
        0 <= i <= n,
        spec_pollutant_entries(items, name, i) is Err,
    ensures
        spec_pollutant_entries(items, name, n) == spec_pollutant_entries(items, name, i),
    decreases n - i,
{
    if n > i {
        lemma_pollutant_entries_refusal(items, name, i, n - 1);
    }
}

/// The ordered `(pollutant, value)` items of a mapping or of an iterable of pairs.
pub open spec fn spec_pollutant_values(value: PyValue, name: Seq<char>) -> Result<Seq<(String, Number)>, Refusal> {
    match value {
        PyValue::Dict(items) => spec_pollutant_pairs(items@, name, items@.len() as int),
        PyValue::Tuple(items) => spec_pollutant_entries(items@, name, items@.len() as int),
        PyValue::List(items) => spec_pollutant_entries(items@, name, items@.len() as int),
        _ => Err(Refusal::Type(name + " must be a mapping or an iterable of (pollutant, value) pairs"@)),
    }
}

/// `result`, viewed, is the outcome `spec` for `operation`.
pub open spec fn spec_items_outcome(
    result: Result<Vec<(String, Number)>, NativeError>,
    spec: Result<Seq<(String, Number)>, Refusal>,
    operation: &'static str,
) -> bool {
    match spec {
        Ok(v) => result is Ok && result->Ok_0@ == v,
        Err(r) => crate::convert::spec_refusal_raised(result, r, operation),
    }
}

/// Reads one `(pollutant, value)` item.
fn pollutant_item(key: &PyValue, value: &PyValue, name: &str, operation: &'static str) -> (result: Result<(String, Number), NativeError>)
    ensures
        spec_refusal_outcome(result, spec_pollutant_item(*key, *value, name@), operation),
{
    let k = match text_of(key) {
        None => {
            return Err(type_error("pollutant ids must be str"));
        },
        Some(k) => k,
    };
    match strict_number(value, name, operation) {
        Err(e) => Err(e),
        Ok(n) => Ok((k, n)),
    }
}

/// The refusal of a malformed pair-iterable entry.
fn malformed_entry(name: &str) -> (raised: NativeError)
    ensures
        raised matches NativeError::Type { message } && message@ == name@ + " entries must be (pollutant, value) pairs"@,
{
    NativeError::Type { message: detail(name, " entries must be (pollutant, value) pairs") }
}

/// Reads one entry of a pair iterable.
fn pollutant_entry(entry: &PyValue, name: &str, operation: &'static str) -> (result: Result<(String, Number), NativeError>)
    ensures
        spec_refusal_outcome(result, spec_pollutant_entry(*entry, name@), operation),
{
    match entry {
        PyValue::Tuple(items) => if items.len() == 2 {
            pollutant_item(&items[0], &items[1], name, operation)
        } else {
            Err(malformed_entry(name))
        },
        PyValue::List(items) => if items.len() == 2 {
            pollutant_item(&items[0], &items[1], name, operation)
        } else {
            Err(malformed_entry(name))
        },
        _ => Err(malformed_entry(name)),
    }
}

/// Reads every `(key, value)` item of a mapping, in order.
fn pollutant_pairs(items: &Vec<(PyValue, PyValue)>, name: &str, operation: &'static str) -> (result: Result<Vec<(String, Number)>, NativeError>)
    ensures
        spec_items_outcome(result, spec_pollutant_pairs(items@, name@, items@.len() as int), operation),
{
    let mut values: Vec<(String, Number)> = Vec::new();
    let mut i: usize = 0;
    while i < items.len()
        invariant
            i <= items@.len(),
            spec_pollutant_pairs(items@, name@, i as int) == Ok::<Seq<(String, Number)>, Refusal>(values@),
        decreases items@.len() - i,
    {
        let (k, v) = &items[i];
        match pollutant_item(k, v, name, operation) {
            Ok(e) => {
                values.push(e);
            },
            Err(e) => {
                proof {
                    lemma_pollutant_pairs_refusal(items@, name@, i + 1, items@.len() as int);
                }
                return Err(e);
            },
        }
        i = i + 1;
    }
    Ok(values)
}

/// Reads every entry of a pair iterable, in order.
fn pollutant_entries(items: &Vec<PyValue>, name: &str, operation: &'static str) -> (result: Result<Vec<(String, Number)>, NativeError>)
    ensures
        spec_items_outcome(result, spec_pollutant_entries(items@, name@, items@.len() as int), operation),
{
    let mut values: Vec<(String, Number)> = Vec::new();
    let mut i: usize = 0;
    while i < items.len()
        invariant
            i <= items@.len(),
            spec_pollutant_entries(items@, name@, i as int) == Ok::<Seq<(String, Number)>, Refusal>(values@),
        decreases items@.len() - i,
    {
        match pollutant_entry(&items[i], name, operation) {
            Ok(e) => {
                values.push(e);
            },
            Err(e) => {
                proof {
                    lemma_pollutant_entries_refusal(items@, name@, i + 1, items@.len() as int);
                }
                return Err(e);
            },
        }
        i = i + 1;
    }
    Ok(values)
}

/// Reads the ordered `(pollutant, value)` items of a mapping or of an iterable of pairs, each
/// value a strict number called `name`.
pub fn pollutant_values(value: &PyValue, name: &str, operation: &'static str) -> (result: Result<Vec<(String, Number)>, NativeError>)
    ensures
        spec_items_outcome(result, spec_pollutant_values(*value, name@), operation),
{
    match value {
        PyValue::Dict(items) => pollutant_pairs(items, name, operation),
        PyValue::Tuple(items) => pollutant_entries(items, name, operation),
        PyValue::List(items) => pollutant_entries(items, name, operation),
        _ => Err(NativeError::Type { message: detail(name, " must be a mapping or an iterable of (pollutant, value) pairs") }),
    }
}

/// The pollutant identity named by a `str`.
pub open spec fn spec_pollutant_id(value: PyValue) -> Result<String, Refusal> {
    match spec_text(value) {
        Some(s) => Ok(s),
        None => Err(Refusal::Type("pollutant id must be str"@)),
    }
}

/// Reads one pollutant identity.
pub fn pollutant_id(value: &PyValue, operation: &'static str) -> (result: Result<String, NativeError>)
    ensures
        spec_refusal_outcome(result, spec_pollutant_id(*value), operation),
{
    match text_of(value) {
        Some(s) => Ok(s),
        None => Err(type_error("pollutant id must be str")),
    }
}

/// The items read from the first `n` keyword values, each a strict number called `name`.
pub open spec fn spec_keyword_items(kwargs: Seq<(String, PyValue)>, name: Seq<char>, n: int) -> Result<Seq<(String, Number)>, Refusal>
    decreases n,
{
    if n <= 0 {
        Ok(Seq::empty())
    } else {
        match spec_keyword_items(kwargs, name, n - 1) {
            Err(r) => Err(r),
            Ok(v) => match spec_strict_number(kwargs[n - 1].1, name) {
                Err(d) => Err(Refusal::Detail(d)),
                Ok(x) => Ok(v.push((kwargs[n - 1].0, x))),
            },
        }
    }
}

/// Once a keyword value is refused, every longer prefix is refused the same way.
pub proof fn lemma_keyword_items_refusal(kwargs: Seq<(String, PyValue)>, name: Seq<char>, i: int, n: int)
    requires
        0 <= i <= n,
        spec_keyword_items(kwargs, name, i) is Err,
    ensures
        spec_keyword_items(kwargs, name, n) == spec_keyword_items(kwargs, name, i),
    decreases n - i,
{
    if n > i {
        lemma_keyword_items_refusal(kwargs, name, i, n - 1);
    }
}

/// The items of a mapping update called as `update(*args, **kwargs)`: at most one positional
/// mapping or pair iterable, whose items come first, then the keyword items in order.
pub open spec fn spec_pollutant_update(args: Seq<PyValue>, kwargs: Seq<(String, PyValue)>, name: Seq<char>) -> Result<Seq<(String, Number)>, Refusal> {
    if args.len() > 1 {
        Err(Refusal::Type("update expected at most 1 positional argument"@))
    } else {
        let positional = if args.len() == 1 {
            spec_pollutant_values(args[0], name)
        } else {
            Ok(Seq::empty())
        };
        match positional {
            Err(r) => Err(r),
            Ok(p) => match spec_keyword_items(kwargs, name, kwargs.len() as int) {
                Err(r) => Err(r),
                Ok(k) => Ok(p + k),
            },
        }
    }
}

/// Reads the items of a mapping update called as `update(*args, **kwargs)`.
pub fn pollutant_update(args: &Vec<PyValue>, kwargs: &Vec<(String, PyValue)>, name: &str, operation: &'static str) -> (result: Result<
    Vec<(String, Number)>,
    NativeError,
>)
    ensures
        spec_items_outcome(result, spec_pollutant_update(args@, kwargs@, name@), operation),
{
    if args.len() > 1 {
        return Err(type_error("update expected at most 1 positional argument"));
    }
    let mut values: Vec<(String, Number)> = if args.len() == 1 {
        match pollutant_values(&args[0], name, operation) {
            Err(e) => {
                return Err(e);
            },
            Ok(v) => v,
        }
    } else {
        Vec::new()
    };
    let ghost positional = values@;
    let mut i: usize = 0;
    while i < kwargs.len()
        invariant
            i <= kwargs@.len(),
            args@.len() <= 1,
            (if args@.len() == 1 { spec_pollutant_values(args@[0], name@) } else { Ok(Seq::empty()) })
                == Ok::<Seq<(String, Number)>, Refusal>(positional),
            spec_keyword_items(kwargs@, name@, i as int) matches Ok(k) && values@ == positional + k,
        decreases kwargs@.len() - i,
    {
        match strict_number(&kwargs[i].1, name, operation) {
            Ok(x) => {
                values.push((kwargs[i].0.clone(), x));
                proof {
                    let k = spec_keyword_items(kwargs@, name@, i as int)->Ok_0;
                    assert(values@ =~= positional + k.push((kwargs@[i as int].0, x)));
                }
            },
            Err(e) => {
                proof {
                    lemma_keyword_items_refusal(kwargs@, name@, i + 1, kwargs@.len() as int);
                }
                return Err(e);
            },
        }
        i = i + 1;
    }
    Ok(values)
}

/// The persistent update read from `update(*args, **kwargs)` with the `replace` flag.
pub open spec fn spec_persistent_update(
    args: Seq<PyValue>,
    kwargs: Seq<(String, PyValue)>,
    name: Seq<char>,
    replace: bool,
    operation: &'static str,
    payload: Result<PollutantValuesUpdate, NativeError>,
) -> bool {
    match spec_pollutant_update(args, kwargs, name) {
        Ok(v) => payload is Ok && payload->Ok_0.values@ == v && payload->Ok_0.replace == replace,
        Err(r) => crate::convert::spec_refusal_raised(payload, r, operation),
    }
}

/// Reads a persistent update from `update(*args, **kwargs)` with the `replace` flag.
fn persistent_update(
    args: &Vec<PyValue>,
    kwargs: &Vec<(String, PyValue)>,
    name: &str,
    replace: bool,
    operation: &'static str,
) -> (payload: Result<PollutantValuesUpdate, NativeError>)
    ensures
        spec_persistent_update(args@, kwargs@, name@, replace, operation, payload),
{
    match pollutant_update(args, kwargs, name, operation) {
        Ok(values) => Ok(PollutantValuesUpdate { values, replace }),
        Err(e) => Err(e),
    }
}

impl NativeSimulation {
    /// Overrides the concentrations of several pollutants at a node for the next quality step,
    /// all or none: the `(pollutant, concentration)` items are read first and handed to `apply`.
    pub fn override_node_pollutant_concentrations<S, M: FnOnce() -> Result<bool, SwmmError>, A: FnOnce(Vec<(String, Number)>) -> Reported<()>>(
        &mut self,
        generation: u64,
        subtype: Option<S>,
        values: &PyValue,
        matches: M,
        apply: A,
    ) -> (result: Result<(), NativeError>)
        requires
            call_requires(matches, ()),
            forall|x: Vec<(String, Number)>| call_requires(apply, (x,)),
        ensures
            exists|p: Result<Vec<(String, Number)>, NativeError>|
                {
                    &&& spec_items_outcome(p, spec_pollutant_values(*values, "pollutant concentrations"@), "override_node_pollutant_concentrations")
                    &&& spec_field_update(*old(self), *final(self), "override_node_pollutant_concentrations", generation, subtype, p, matches, apply, result)
                },
    {
        let operation = "override_node_pollutant_concentrations";
        let payload = pollutant_values(values, "pollutant concentrations", operation);
        self.field_update(operation, generation, subtype, payload, matches, apply)
    }

    /// Overrides the concentrations of several pollutants in a link for the next quality step,
    /// all or none: the `(pollutant, concentration)` items are read first and handed to `apply`.
    pub fn override_link_pollutant_concentrations<S, M: FnOnce() -> Result<bool, SwmmError>, A: FnOnce(Vec<(String, Number)>) -> Reported<()>>(
        &mut self,
        generation: u64,
        subtype: Option<S>,
        values: &PyValue,
        matches: M,
        apply: A,
    ) -> (result: Result<(), NativeError>)
        requires
            call_requires(matches, ()),
            forall|x: Vec<(String, Number)>| call_requires(apply, (x,)),
        ensures
            exists|p: Result<Vec<(String, Number)>, NativeError>|
                {
                    &&& spec_items_outcome(p, spec_pollutant_values(*values, "pollutant concentrations"@), "override_link_pollutant_concentrations")
                    &&& spec_field_update(*old(self), *final(self), "override_link_pollutant_concentrations", generation, subtype, p, matches, apply, result)
                },
    {
        let operation = "override_link_pollutant_concentrations";
        let payload = pollutant_values(values, "pollutant concentrations", operation);
        self.field_update(operation, generation, subtype, payload, matches, apply)
    }

    /// Reads the persistent external mass flux of one pollutant at a node; `read` receives the
    /// pollutant identity.
    pub fn node_external_pollutant_mass_flux_value<S, T, M: FnOnce() -> Result<bool, SwmmError>, R: FnOnce(String) -> Result<T, SwmmError>>(
        &self,
        generation: u64,
        subtype: Option<S>,
        pollutant: &PyValue,
        matches: M,
        read: R,
    ) -> (result: Result<T, NativeError>)
        requires
            call_requires(matches, ()),
            forall|x: String| call_requires(read, (x,)),
        ensures
            exists|p: Result<String, NativeError>|
                {
                    &&& spec_refusal_outcome(p, spec_pollutant_id(*pollutant), "node_external_pollutant_mass_flux_value")
                    &&& spec_field_view(*self, "node_external_pollutant_mass_flux_value", generation, subtype, p, matches, read, result)
                },
    {
        let operation = "node_external_pollutant_mass_flux_value";
        let field = pollutant_id(pollutant, operation);
        self.field_view(operation, generation, subtype, field, matches, read)
    }

    /// Reads the persistent external mass flux of one pollutant in a link; `read` receives the
    /// pollutant identity.
    pub fn link_external_pollutant_mass_flux_value<S, T, M: FnOnce() -> Result<bool, SwmmError>, R: FnOnce(String) -> Result<T, SwmmError>>(
        &self,
        generation: u64,
        subtype: Option<S>,
        pollutant: &PyValue,
        matches: M,
        read: R,
    ) -> (result: Result<T, NativeError>)
        requires
            call_requires(matches, ()),
            forall|x: String| call_requires(read, (x,)),
        ensures
            exists|p: Result<String, NativeError>|
                {
                    &&& spec_refusal_outcome(p, spec_pollutant_id(*pollutant), "link_external_pollutant_mass_flux_value")
                    &&& spec_field_view(*self, "link_external_pollutant_mass_flux_value", generation, subtype, p, matches, read, result)
                },
    {
        let operation = "link_external_pollutant_mass_flux_value";
        let field = pollutant_id(pollutant, operation);
        self.field_view(operation, generation, subtype, field, matches, read)
    }

    /// Reads the persistent external buildup increment of one pollutant on a subcatchment;
    /// `read` receives the pollutant identity.
    pub fn subcatchment_external_pollutant_buildup_increment_value<S, T, M: FnOnce() -> Result<bool, SwmmError>, R: FnOnce(String) -> Result<T, SwmmError>>(
        &self,
        generation: u64,
        subtype: Option<S>,
        pollutant: &PyValue,
        matches: M,
        read: R,
    ) -> (result: Result<T, NativeError>)
        requires
            call_requires(matches, ()),
            forall|x: String| call_requires(read, (x,)),
        ensures
            exists|p: Result<String, NativeError>|
                {
                    &&& spec_refusal_outcome(p, spec_pollutant_id(*pollutant), "subcatchment_external_pollutant_buildup_increment_value")
                    &&& spec_field_view(*self, "subcatchment_external_pollutant_buildup_increment_value", generation, subtype, p, matches, read, result)
                },
    {
        let operation = "subcatchment_external_pollutant_buildup_increment_value";
        let field = pollutant_id(pollutant, operation);
        self.field_view(operation, generation, subtype, field, matches, read)
    }

    /// Changes the persistent external pollutant mass fluxes of a node, all or none.
    pub fn update_node_external_pollutant_mass_flux<S, M: FnOnce() -> Result<bool, SwmmError>, A: FnOnce(PollutantValuesUpdate) -> Reported<()>>(
        &mut self,
        generation: u64,
        subtype: Option<S>,
        replace: bool,
        args: &Vec<PyValue>,
        kwargs: &Vec<(String, PyValue)>,
        matches: M,
        apply: A,
    ) -> (result: Result<(), NativeError>)
        requires
            call_requires(matches, ()),
            forall|x: PollutantValuesUpdate| call_requires(apply, (x,)),
        ensures
            exists|p: Result<PollutantValuesUpdate, NativeError>|
                {
                    &&& spec_persistent_update(args@, kwargs@, "external_pollutant_mass_flux"@, replace, "update_node_external_pollutant_mass_flux", p)
                    &&& spec_field_update(*old(self), *final(self), "update_node_external_pollutant_mass_flux", generation, subtype, p, matches, apply, result)
                },
    {
        let operation = "update_node_external_pollutant_mass_flux";
        let payload = persistent_update(args, kwargs, "external_pollutant_mass_flux", replace, operation);
        self.field_update(operation, generation, subtype, payload, matches, apply)
    }

    /// Changes the persistent external pollutant mass fluxes of a link, all or none.
    pub fn update_link_external_pollutant_mass_flux<S, M: FnOnce() -> Result<bool, SwmmError>, A: FnOnce(PollutantValuesUpdate) -> Reported<()>>(
        &mut self,
        generation: u64,
        subtype: Option<S>,
        replace: bool,
        args: &Vec<PyValue>,
        kwargs: &Vec<(String, PyValue)>,
        matches: M,
        apply: A,
    ) -> (result: Result<(), NativeError>)
        requires
            call_requires(matches, ()),
            forall|x: PollutantValuesUpdate| call_requires(apply, (x,)),
        ensures
            exists|p: Result<PollutantValuesUpdate, NativeError>|
                {
                    &&& spec_persistent_update(args@, kwargs@, "external_pollutant_mass_flux"@, replace, "update_link_external_pollutant_mass_flux", p)
                    &&& spec_field_update(*old(self), *final(self), "update_link_external_pollutant_mass_flux", generation, subtype, p, matches, apply, result)
                },
    {
        let operation = "update_link_external_pollutant_mass_flux";
        let payload = persistent_update(args, kwargs, "external_pollutant_mass_flux", replace, operation);
        self.field_update(operation, generation, subtype, payload, matches, apply)
    }

    /// Changes the persistent external pollutant buildup increments of a subcatchment, all or
    /// none.
    pub fn update_subcatchment_external_pollutant_buildup_increment<S, M: FnOnce() -> Result<bool, SwmmError>, A: FnOnce(PollutantValuesUpdate) -> Reported<()>>(
        &mut self,
        generation: u64,
        subtype: Option<S>,
        replace: bool,
        args: &Vec<PyValue>,
        kwargs: &Vec<(String, PyValue)>,
        matches: M,
        apply: A,
    ) -> (result: Result<(), NativeError>)
        requires
            call_requires(matches, ()),
            forall|x: PollutantValuesUpdate| call_requires(apply, (x,)),
        ensures
            exists|p: Result<PollutantValuesUpdate, NativeError>|
                {
                    &&& spec_persistent_update(args@, kwargs@, "external_pollutant_buildup_increment"@, replace, "update_subcatchment_external_pollutant_buildup_increment", p)
                    &&& spec_field_update(*old(self), *final(self), "update_subcatchment_external_pollutant_buildup_increment", generation, subtype, p, matches, apply, result)
                },
    {
        let operation = "update_subcatchment_external_pollutant_buildup_increment";
        let payload = persistent_update(args, kwargs, "external_pollutant_buildup_increment", replace, operation);
        self.field_update(operation, generation, subtype, payload, matches, apply)
    }
}

} // verus!
