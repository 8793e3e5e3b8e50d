use vstd::prelude::*;

pub mod commands;
pub mod i18n;
pub mod job;
pub mod manager;
pub mod trigger;

verus! {

} // verus!
