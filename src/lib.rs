use vstd::prelude::*;

pub mod address;
pub mod error;
pub mod gate;
pub mod identity;
pub mod meta;
pub mod registry;
pub mod resolver;
pub mod state;
pub mod vault;

verus! {

} // verus!
