use vstd::prelude::*;

pub mod categories;
pub mod composer;
pub mod identity;
pub mod message;
pub mod session;
pub mod text;

verus! {

} // verus!
