//! Behaviours.
use crate::classes::component::Component;
use vstd::prelude::*;

verus! {

/// A behaviour: a component that can be switched on and off.
#[derive(Clone, Copy, Debug, PartialEq, Eq)]
pub struct Behaviour {
    pub component: Component,
    pub enabled: bool,
}

} // verus!
