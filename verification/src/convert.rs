use vstd::prelude::*;
use vstd::string::*;

use crate::error::{is_property_error, policy_py_error, ErrorCode, NativeError, SwmmError};
use crate::policy::spec_policy_outcome;
use crate::text::str_eq;
use crate::value::{Number, ObjectType, PyValue, RelatedObject};

verus! {

/// Why a value was refused: a validation detail, or a failure that the value itself carried.
pub enum Refusal {
    Detail(Seq<char>),
    Raised(NativeError),
    /// A Python `TypeError` with this message.
    Type(Seq<char>),
}

/// `result` is the outcome `spec` for `operation`: a refusal detail is a rejected-property
/// failure with exactly that detail; a carried failure is raised unchanged.
pub open spec fn spec_refusal_outcome<X>(
    result: Result<X, NativeError>,
    spec: Result<X, Refusal>,
    operation: &'static str,
) -> bool {
    match spec {
        Ok(x) => result == Ok::<X, NativeError>(x),
        Err(Refusal::Detail(d)) => result is Err && is_property_error(
            result->Err_0,
            operation,
            ErrorCode::ApiPropertyValue,
            d,
        ),
        Err(Refusal::Raised(e)) => result == Err::<X, NativeError>(e),
        Err(Refusal::Type(m)) => result matches Err(NativeError::Type { message }) && message@ == m,
    }
}

/// `result` is the failure that `refusal` raises for `operation`.
pub open spec fn spec_refusal_raised<X>(result: Result<X, NativeError>, refusal: Refusal, operation: &'static str) -> bool {
    spec_refusal_outcome(result, Err::<X, Refusal>(refusal), operation)
}

/// A validation outcome with its detail as a refusal.
pub open spec fn spec_detailed<X>(outcome: Result<X, Seq<char>>) -> Result<X, Refusal> {
    match outcome {
        Ok(x) => Ok(x),
        Err(d) => Err(Refusal::Detail(d)),
    }
}

/// The detail `name` followed by `suffix`.
pub fn detail(name: &str, suffix: &str) -> (text: String)
    ensures
        text@ == name@ + suffix@,
{
    String::from_str(name).concat(suffix)
}

/// A non-boolean value that Python's `float()` conversion accepts, as the number it gives.
pub open spec fn spec_lenient_number(value: PyValue, name: Seq<char>) -> Result<Number, Seq<char>> {
    match value {
        PyValue::Bool(_) => Err(name + " must not be bool"@),
        PyValue::Int(i) => Ok(Number::Int(i)),
        PyValue::Float(bits) => Ok(Number::Float(bits)),
        PyValue::BigInt { float_bits } => match float_bits {
            Some(bits) => Ok(Number::Float(bits)),
            None => Err(name + " must be numeric"@),
        },
        PyValue::Other { float_bits, .. } => match float_bits {
            Some(bits) => Ok(Number::Float(bits)),
            None => Err(name + " must be numeric"@),
        },
        _ => Err(name + " must be numeric"@),
    }
}

/// Extracts one non-boolean numeric value for `operation`.
pub fn lenient_number(value: &PyValue, name: &str, operation: &'static str) -> (result: Result<
    Number,
    NativeError,
>)
    ensures
        spec_policy_outcome(result, spec_lenient_number(*value, name@), operation),
{
    match value {
        PyValue::Bool(_) => Err(policy_py_error(operation, detail(name, " must not be bool"))),
        PyValue::Int(i) => Ok(Number::Int(*i)),
        PyValue::Float(bits) => Ok(Number::Float(*bits)),
        PyValue::BigInt { float_bits: Some(bits) } => Ok(Number::Float(*bits)),
        PyValue::Other { float_bits: Some(bits), .. } => Ok(Number::Float(*bits)),
        _ => Err(policy_py_error(operation, detail(name, " must be numeric"))),
    }
}

/// A strict Python `bool`.
pub open spec fn spec_strict_bool(value: PyValue, name: Seq<char>) -> Result<bool, Seq<char>> {
    match value {
        PyValue::Bool(b) => Ok(b),
        _ => Err(name + " must be bool"@),
    }
}

/// Extracts one strict boolean value for `operation`.
pub fn strict_bool(value: &PyValue, name: &str, operation: &'static str) -> (result: Result<
    bool,
    NativeError,
>)
    ensures
        spec_policy_outcome(result, spec_strict_bool(*value, name@), operation),
{
    match value {
        PyValue::Bool(b) => Ok(*b),
        _ => Err(policy_py_error(operation, detail(name, " must be bool"))),
    }
}

/// The integer that Python's `__index__` conversion gives for a non-boolean value, if any.
pub open spec fn spec_index_value(value: PyValue) -> Option<i128> {
    match value {
        PyValue::Int(i) => Some(i),
        PyValue::Other { index, .. } => index,
        _ => None,
    }
}

/// A non-boolean integer within `usize`.
pub open spec fn spec_nonnegative_integer(value: PyValue, name: Seq<char>) -> Result<usize, Seq<char>> {
    if value is Bool {
        Err(name + " must not be bool"@)
    } else {
        match spec_index_value(value) {
            Some(i) => if 0 <= i && i <= usize::MAX {
                Ok(i as usize)
            } else {
                Err(name + " must be a nonnegative integer"@)
            },
            None => Err(name + " must be a nonnegative integer"@),
        }
    }
}

/// Returns the integer that `__index__` gives for a non-boolean value, if any.
pub fn index_value(value: &PyValue) -> (index: Option<i128>)
    ensures
        index == spec_index_value(*value),
{
    match value {
        PyValue::Int(i) => Some(*i),
        PyValue::Other { index, .. } => *index,
        _ => None,
    }
}

/// Extracts one non-boolean nonnegative integer for `operation`, without a domain range.
pub fn nonnegative_integer(value: &PyValue, name: &str, operation: &'static str) -> (result: Result<
    usize,
    NativeError,
>)
    ensures
        spec_policy_outcome(result, spec_nonnegative_integer(*value, name@), operation),
{
    if let PyValue::Bool(_) = value {
        return Err(policy_py_error(operation, detail(name, " must not be bool")));
    }
    match index_value(value) {
        Some(i) => {
            if 0 <= i && i <= usize::MAX as i128 {
                Ok(i as usize)
            } else {
                Err(policy_py_error(operation, detail(name, " must be a nonnegative integer")))
            }
        },
        None => Err(policy_py_error(operation, detail(name, " must be a nonnegative integer"))),
    }
}

/// The text of a Python `str` (a string-enum member is a `str`).
pub open spec fn spec_text(value: PyValue) -> Option<String> {
    match value {
        PyValue::Str(s) => Some(s),
        PyValue::Enum { value: v, .. } => Some(v),
        _ => None,
    }
}

/// Takes the text of a Python `str`, if the value is one.
pub fn text(value: PyValue) -> (result: Option<String>)
    ensures
        result == spec_text(value),
{
    match value {
        PyValue::Str(s) => Some(s),
        PyValue::Enum { value: v, .. } => Some(v),
        _ => None,
    }
}

/// The relationship a value carries: the identity of an accepted related Live View, the
/// refusal of a rejected one, and nothing for any other value.
pub open spec fn spec_related(value: PyValue) -> Result<Option<RelatedObject>, NativeError> {
    match value {
        PyValue::Related(r) => Ok(Some(r)),
        PyValue::Unrelated(e) => Err(e),
        _ => Ok(None),
    }
}

/// Takes the relationship a value carries.
pub fn related_live_view(value: PyValue) -> (result: Result<Option<RelatedObject>, NativeError>)
    ensures
        result == spec_related(value),
{
    match value {
        PyValue::Related(r) => Ok(Some(r)),
        PyValue::Unrelated(e) => Err(e),
        _ => Ok(None),
    }
}

/// True when a number equals zero as a float: an integer zero or a signed float zero.
pub open spec fn spec_number_is_zero(value: Number) -> bool {
    match value {
        Number::Int(i) => i == 0,
        Number::Float(bits) => bits == 0 || bits == 0x8000_0000_0000_0000u64,
    }
}

/// Returns whether a number equals zero as a float.
pub fn number_is_zero(value: Number) -> (zero: bool)
    ensures
        zero == spec_number_is_zero(value),
{
    match value {
        Number::Int(i) => i == 0,
        Number::Float(bits) => bits == 0 || bits == 0x8000_0000_0000_0000u64,
    }
}

/// The value of the first attribute called `name`, if any.
pub open spec fn spec_attribute(attributes: Seq<(String, PyValue)>, name: Seq<char>) -> Option<PyValue>
    decreases attributes.len(),
{
    if attributes.len() == 0 {
        None
    } else {
        match spec_attribute(attributes.drop_last(), name) {
            Some(v) => Some(v),
            None => if attributes.last().0@ == name {
                Some(attributes.last().1)
            } else {
                None
            },
        }
    }
}

/// Splits a declaration's attributes into the values of the requested attribute names.
pub fn take_attributes(mut attributes: Vec<(String, PyValue)>, names: &Vec<&'static str>) -> (slots:
    Vec<Option<PyValue>>)
    requires
        forall|i: int, j: int|
            0 <= i < j < names@.len() ==> (#[trigger] names@[i])@ != (#[trigger] names@[j])@,
    ensures
        slots@.len() == names@.len(),
        forall|k: int|
            0 <= k < names@.len() ==> #[trigger] slots@[k] == spec_attribute(
                attributes@,
                names@[k]@,
            ),
{
    let count: usize = attributes.len();
    let ghost all = attributes@;
    let mut slots: Vec<Option<PyValue>> = Vec::new();
    let mut k: usize = 0;
    while k < names.len()
        invariant
            k <= names@.len(),
            slots@.len() == k,
            forall|m: int| 0 <= m < k ==> #[trigger] slots@[m] is None,
        decreases names@.len() - k,
    {
        slots.push(None);
        k = k + 1;
    }
    proof {
        assert(all.take(0) =~= Seq::<(String, PyValue)>::empty());
        assert(all.len() == count);
    }
    let mut taken: usize = 0;
    while attributes.len() > 0
        invariant
            forall|i: int, j: int|
                0 <= i < j < names@.len() ==> (#[trigger] names@[i])@ != (#[trigger] names@[j])@,
            taken + attributes@.len() == all.len(),
            all.len() <= usize::MAX,
            attributes@ == all.skip(taken as int),
            slots@.len() == names@.len(),
            forall|m: int|
                0 <= m < names@.len() ==> #[trigger] slots@[m] == spec_attribute(
                    all.take(taken as int),
                    names@[m]@,
                ),
        decreases attributes@.len(),
    {
        let ghost before = all.take(taken as int);
        let (name, value) = attributes.remove(0);
        proof {
            assert(all.take(taken + 1).drop_last() =~= before);
            assert(all.take(taken + 1).last() == all[taken as int]);
            assert(attributes@ =~= all.skip(taken + 1));
        }
        let mut k: usize = 0;
        let mut found: Option<usize> = None;
        while k < names.len()
            invariant
                k <= names@.len(),
                found matches Some(f) ==> f < names@.len() && names@[f as int]@ == name@,
                found is None ==> forall|m: int| 0 <= m < k ==> (#[trigger] names@[m])@ != name@,
            decreases names@.len() - k,
        {
            if found.is_none() && str_eq(names[k], name.as_str()) {
                found = Some(k);
            }
            k = k + 1;
        }
        let ghost old_slots = slots@;
        match found {
            Some(f) => {
                if slots[f].is_none() {
                    slots.set(f, Some(value));
                }
            },
            None => {},
        }
        taken = taken + 1;
        proof {
            assert forall|m: int| 0 <= m < names@.len() implies #[trigger] slots@[m]
                == spec_attribute(all.take(taken as int), names@[m]@) by {
                let s = all.take(taken as int);
                assert(s.drop_last() =~= before);
                if found is Some && m == found->0 {
                } else if found is Some {
                    assert(names@[m]@ != name@);
                }
            }
        }
    }
    proof {
        assert(all.take(all.len() as int) =~= all);
    }
    slots
}

/// `out` is what resolving the optional relationship `relation` as a `family` object gives:
/// nothing without a relationship, else the outcome of one `validate` call.
pub open spec fn spec_resolved<F: Fn(&RelatedObject, ObjectType, &'static str) -> Result<usize, SwmmError>>(
    validate: F,
    relation: Option<RelatedObject>,
    family: ObjectType,
    name: &'static str,
    out: Result<Option<usize>, SwmmError>,
) -> bool {
    match relation {
        None => out == Ok::<Option<usize>, SwmmError>(None),
        Some(r) => exists|o: Result<usize, SwmmError>|
            {
                &&& #[trigger] call_ensures(validate, (&r, family, name), o)
                &&& match o {
                    Ok(i) => out == Ok::<Option<usize>, SwmmError>(Some(i)),
                    Err(e) => out == Err::<Option<usize>, SwmmError>(e),
                }
            },
    }
}

/// Resolves one optional relationship as a `family` object.
pub fn resolve<F: Fn(&RelatedObject, ObjectType, &'static str) -> Result<usize, SwmmError>>(
    validate: &F,
    relation: Option<RelatedObject>,
    family: ObjectType,
    name: &'static str,
) -> (out: Result<Option<usize>, SwmmError>)
    requires
        forall|r: &RelatedObject, t: ObjectType, n: &'static str| call_requires(*validate, (r, t, n)),
    ensures
        spec_resolved(*validate, relation, family, name, out),
{
    match relation {
        None => Ok(None),
        Some(r) => {
            let o = validate(&r, family, name);
            let ghost g = o;
            assert(call_ensures(*validate, (&r, family, name), g));
            match o {
                Ok(i) => Ok(Some(i)),
                Err(e) => Err(e),
            }
        },
    }
}

/// Resolves one required relationship as a `family` object.
pub fn resolve_required<F: Fn(&RelatedObject, ObjectType, &'static str) -> Result<usize, SwmmError>>(
    validate: &F,
    relation: &RelatedObject,
    family: ObjectType,
    name: &'static str,
) -> (out: Result<usize, SwmmError>)
    requires
        forall|r: &RelatedObject, t: ObjectType, n: &'static str| call_requires(*validate, (r, t, n)),
    ensures
        call_ensures(*validate, (relation, family, name), out),
{
    validate(relation, family, name)
}

/// `out` is what resolving a clearable relationship gives: no change, a cleared relationship,
/// or the outcome of one `validate` call for a new related object.
pub open spec fn spec_resolved_clearable<
    F: Fn(&RelatedObject, ObjectType, &'static str) -> Result<usize, SwmmError>,
>(
    validate: F,
    relation: Option<Option<RelatedObject>>,
    family: ObjectType,
    name: &'static str,
    out: Result<Option<Option<usize>>, SwmmError>,
) -> bool {
    match relation {
        None => out == Ok::<Option<Option<usize>>, SwmmError>(None),
        Some(None) => out == Ok::<Option<Option<usize>>, SwmmError>(Some(None)),
        Some(Some(r)) => exists|o: Result<usize, SwmmError>|
            {
                &&& call_ensures(validate, (&r, family, name), o)
                &&& match o {
                    Ok(i) => out == Ok::<Option<Option<usize>>, SwmmError>(Some(Some(i))),
                    Err(e) => out == Err::<Option<Option<usize>>, SwmmError>(e),
                }
            },
    }
}

/// Resolves one clearable relationship as a `family` object.
pub fn resolve_clearable<F: Fn(&RelatedObject, ObjectType, &'static str) -> Result<usize, SwmmError>>(
    validate: &F,
    relation: Option<Option<RelatedObject>>,
    family: ObjectType,
    name: &'static str,
) -> (out: Result<Option<Option<usize>>, SwmmError>)
    requires
        forall|r: &RelatedObject, t: ObjectType, n: &'static str| call_requires(*validate, (r, t, n)),
    ensures
        spec_resolved_clearable(*validate, relation, family, name, out),
{
    match relation {
        None => Ok(None),
        Some(None) => Ok(Some(None)),
        Some(Some(r)) => match resolve_required(validate, &r, family, name) {
            Ok(i) => Ok(Some(Some(i))),
            Err(e) => Err(e),
        },
    }
}

/// The refusal of an unknown property `name` of `operation`.
pub open spec fn spec_invalid_property(name: Seq<char>) -> Seq<char> {
    "invalid property: "@ + name
}

/// Creates the refusal of an unknown property `name` of `operation`.
pub fn invalid_property(operation: &'static str, name: &str) -> (raised: NativeError)
    ensures
        is_property_error(raised, operation, ErrorCode::ApiPropertyValue, spec_invalid_property(name@)),
{
    policy_py_error(operation, String::from_str("invalid property: ").concat(name))
}

/// An exact Python `timedelta`.
pub open spec fn spec_duration(value: PyValue, name: Seq<char>) -> Result<crate::value::Timedelta, Seq<char>> {
    match value {
        PyValue::Timedelta { days, seconds, microseconds } => Ok(
            crate::value::Timedelta { days, seconds, microseconds },
        ),
        _ => Err(name + " must be datetime.timedelta"@),
    }
}

/// Extracts one duration for `operation`; its total seconds are computed from the components.
pub fn duration(value: &PyValue, name: &str, operation: &'static str) -> (result: Result<
    crate::value::Timedelta,
    NativeError,
>)
    ensures
        spec_policy_outcome(result, spec_duration(*value, name@), operation),
{
    match value {
        PyValue::Timedelta { days, seconds, microseconds } => Ok(
            crate::value::Timedelta { days: *days, seconds: *seconds, microseconds: *microseconds },
        ),
        _ => Err(policy_py_error(operation, detail(name, " must be datetime.timedelta"))),
    }
}

/// A non-boolean integer within `i32`.
pub open spec fn spec_integer(value: PyValue, name: Seq<char>) -> Result<i32, Seq<char>> {
    if value is Bool {
        Err(name + " must not be bool"@)
    } else {
        match spec_index_value(value) {
            Some(i) => if i32::MIN <= i && i <= i32::MAX {
                Ok(i as i32)
            } else {
                Err(name + " must be an integer"@)
            },
            None => Err(name + " must be an integer"@),
        }
    }
}

/// Extracts one non-boolean 32-bit integer for `operation`.
pub fn integer(value: &PyValue, name: &str, operation: &'static str) -> (result: Result<i32, NativeError>)
    ensures
        spec_policy_outcome(result, spec_integer(*value, name@), operation),
{
    if let PyValue::Bool(_) = value {
        return Err(policy_py_error(operation, detail(name, " must not be bool")));
    }
    match index_value(value) {
        Some(i) => {
            if i32::MIN as i128 <= i && i <= i32::MAX as i128 {
                Ok(i as i32)
            } else {
                Err(policy_py_error(operation, detail(name, " must be an integer")))
            }
        },
        None => Err(policy_py_error(operation, detail(name, " must be an integer"))),
    }
}

/// A strict non-boolean Python number: an `int` or a `float`.
pub open spec fn spec_strict_number(value: PyValue, name: Seq<char>) -> Result<Number, Seq<char>> {
    match value {
        PyValue::Int(i) => Ok(Number::Int(i)),
        PyValue::Float(bits) => Ok(Number::Float(bits)),
        PyValue::BigInt { float_bits } => match float_bits {
            Some(bits) => Ok(Number::Float(bits)),
            None => Err(name + " must be finite numeric"@),
        },
        _ => Err(name + " must be int or float, not bool"@),
    }
}

/// Extracts one strict non-boolean Python number for `operation`.
pub fn strict_number(value: &PyValue, name: &str, operation: &'static str) -> (result: Result<
    Number,
    NativeError,
>)
    ensures
        spec_policy_outcome(result, spec_strict_number(*value, name@), operation),
{
    match value {
        PyValue::Int(i) => Ok(Number::Int(*i)),
        PyValue::Float(bits) => Ok(Number::Float(*bits)),
        PyValue::BigInt { float_bits: Some(bits) } => Ok(Number::Float(*bits)),
        PyValue::BigInt { float_bits: None } => Err(policy_py_error(operation, detail(name, " must be finite numeric"))),
        _ => Err(policy_py_error(operation, detail(name, " must be int or float, not bool"))),
    }
}

/// The text of a Python `str`, copied.
pub fn text_of(value: &PyValue) -> (result: Option<String>)
    ensures
        result == spec_text(*value),
{
    match value {
        PyValue::Str(s) => Some(s.clone()),
        PyValue::Enum { value: v, .. } => Some(v.clone()),
        _ => None,
    }
}

/// The keys of a mapping's `(key, value)` items, in order: what iterating a `dict` gives.
pub open spec fn spec_keys(items: Seq<(PyValue, PyValue)>) -> Seq<PyValue> {
    items.map_values(|item: (PyValue, PyValue)| item.0)
}

/// Takes the keys of a mapping's `(key, value)` items, in order.
pub fn take_keys(items: Vec<(PyValue, PyValue)>) -> (keys: Vec<PyValue>)
    ensures
        keys@ == spec_keys(items@),
{
    let count: usize = items.len();
    let ghost all = items@;
    let mut remaining = items;
    let mut keys: Vec<PyValue> = Vec::new();
    let mut taken: usize = 0;
    proof {
        assert(remaining@ =~= all.skip(0));
    }
    while taken < count
        invariant
            count == all.len(),
            taken <= count,
            remaining@ == all.skip(taken as int),
            keys@ =~= spec_keys(all).take(taken as int),
        decreases count - taken,
    {
        let (k, _v) = remaining.remove(0);
        proof {
            assert(remaining@ =~= all.skip(taken + 1));
            assert(all[taken as int].0 == k);
        }
        keys.push(k);
        taken = taken + 1;
    }
    proof {
        assert(spec_keys(all).take(count as int) =~= spec_keys(all));
    }
    keys
}

} // verus!
