use vstd::prelude::*;

pub mod amm;
pub mod aquifers;
pub mod convert;
pub mod error;
pub mod fields;
pub mod forcing;
pub mod infiltration;
pub mod inspect;
pub mod lids;
pub mod lifecycle;
pub mod links;
pub mod marshal;
pub mod nodes;
pub mod output;
pub mod owner;
pub mod policy;
pub mod pollutants;
pub mod rtk;
pub mod subcatchments;
pub mod text;
pub mod value;
pub mod views;

verus! {

} // verus!
