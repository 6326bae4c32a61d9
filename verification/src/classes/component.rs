//! Components.
use crate::classes::p_ptr::TypedPointer;
use vstd::prelude::*;

verus! {

/// A component: a part of a game object.
#[derive(Clone, Copy, Debug, PartialEq, Eq)]
pub struct Component {
    /// The game object that the component is part of.
    pub game_object: TypedPointer,
}

} // verus!
