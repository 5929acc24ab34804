//! The parts of a smart device's state.

use vstd::prelude::*;

verus! {

/// An item stack in a storage monitor's container.
#[derive(Debug, Clone, Copy, PartialEq, Eq, Structural)]
pub struct Item {
    pub item_id: i32,
    pub quantity: i32,
    pub item_is_blueprint: bool,
}

} // verus!
