use vstd::prelude::*;

use crate::error::NativeError;

verus! {

/// Exported public Python types whose exact type the native layer checks.
#[derive(Clone, Copy, Debug, PartialEq, Eq, Structural)]
pub enum PublicType {
    DateTime,
    Timedelta,
    Int,
    Float,
    Str,
    Tuple,
    CustomEllipseModel,
    SurchargeMethod,
    InertiaDamping,
    NormalFlowLimit,
    OrificeKind,
    WeirKind,
    RoadSurface,
    OutletHeadBasis,
    StandardCrossSectionShape,
    CircularCrossSection,
    StandardCrossSection,
    CustomCrossSection,
    IrregularCrossSection,
    StreetCrossSection,
    FunctionalOutletRating,
    TabularOutletRating,
    StorageShape,
    StorageExfiltration,
    OutfallBoundary,
    DividerRule,
}

/// Whether a datetime's `utcoffset()` call succeeded, and with what.
#[derive(Clone, Copy, Debug, PartialEq, Eq, Structural)]
pub enum UtcOffset {
    /// `utcoffset()` returned `None`: the datetime is timezone-naive.
    Naive,
    /// `utcoffset()` returned an offset.
    Aware,
    /// `utcoffset()` raised.
    Invalid,
}

/// A Python value as the native layer reads it.
///
/// Each variant stands for an object of exactly that type (never a subclass, except `Bool`,
/// which Python does not allow to be subclassed); every other object is `Other`. A float is
/// carried as its IEEE-754 bit pattern, unchanged and never inspected.
#[derive(Debug)]
pub enum PyValue {
    NoneValue,
    Bool(bool),
    /// An `int` within the `i128` range.
    Int(i128),
    /// An `int` outside the `i128` range, with the bits of its float conversion when that
    /// conversion does not overflow.
    BigInt { float_bits: Option<u64> },
    Float(u64),
    Str(String),
    /// A member of an exported public enum class with its string `value`.
    Enum { class: PublicType, value: String },
    DateTime {
        offset: UtcOffset,
        year: i32,
        month: i32,
        day: i32,
        hour: i32,
        minute: i32,
        second: i32,
        microsecond: u32,
    },
    Timedelta { days: i64, seconds: i64, microseconds: i64 },
    Tuple(Vec<PyValue>),
    /// A `list`.
    List(Vec<PyValue>),
    /// A `dict`, its `(key, value)` items in iteration order.
    Dict(Vec<(PyValue, PyValue)>),
    /// A public Live View that the owner accepted as a relationship of the project generation
    /// being updated, with its captured identity.
    Related(RelatedObject),
    /// A public Live View that the owner refused as a relationship (another owner, another
    /// generation, or a closed view), with the refusal.
    Unrelated(NativeError),
    /// An instance of an exported declaration class with its attributes by name.
    Declaration { class: PublicType, attributes: Vec<(String, PyValue)> },
    /// Any other object, with the outcomes of its float conversion and of its integer
    /// conversion through `__index__` (within the `i128` range).
    Other { float_bits: Option<u64>, index: Option<i128> },
}

/// A configured-object family of the solver.
#[derive(Clone, Copy, Debug, PartialEq, Eq, Structural)]
pub enum ObjectType {
    Gage,
    Subcatch,
    Node,
    Link,
    Pollut,
    Landuse,
    Timepattern,
    Curve,
    Tseries,
    Shape,
    Transect,
    Street,
    Inlet,
    Aquifer,
    Unithyd,
    Snowmelt,
    Lid,
    AmmModel,
}

/// The captured identity of a related Live View: its object family, native index, canonical
/// identifier, and concrete subtype label.
#[derive(Debug)]
pub struct RelatedObject {
    pub object_type: ObjectType,
    pub index: usize,
    pub id: String,
    pub subtype: String,
}

/// A number accepted from Python: an integer, or a float's bit pattern.
#[derive(Clone, Copy, Debug, PartialEq, Eq, Structural)]
pub enum Number {
    Int(i128),
    Float(u64),
}

/// A calendar date and time at whole-second resolution.
#[derive(Clone, Copy, Debug, PartialEq, Eq, Structural)]
pub struct DateTimeParts {
    pub year: i32,
    pub month: i32,
    pub day: i32,
    pub hour: i32,
    pub minute: i32,
    pub second: i32,
}

/// A Python `timedelta` in its normalized components.
#[derive(Clone, Copy, Debug, PartialEq, Eq, Structural)]
pub struct Timedelta {
    pub days: i64,
    pub seconds: i64,
    pub microseconds: i64,
}

} // verus!
