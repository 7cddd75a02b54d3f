use vstd::prelude::*;

pub mod interval;
pub mod keys;
pub mod velocity;
pub mod settings;
pub mod strategy;
pub mod runner;
pub mod lifecycle;
pub mod input;
pub mod hotkeys;

verus! {

} // verus!
