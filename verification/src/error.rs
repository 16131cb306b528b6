//! The ways in which an operation of this crate can be turned down.

use vstd::prelude::*;

verus! {

/// Why an operation was refused. Every refusal leaves the value it was asked
/// to change exactly as it was.
#[derive(Debug, Clone, Copy, PartialEq, Eq, Structural)]
pub enum ComponentError {
    /// The health bar is at zero: only `revive` and `kill` are open to it.
    Dead,
    /// `revive` was asked of a health bar that is above zero.
    AlreadyAlive,
    /// The inventory already holds as many weapons as it has room for.
    InventoryFull,
    /// More health was to be taken than the bar holds.
    Underflow,
    /// A weapon name was looked up that its weapon type does not list.
    ConfigurationError,
    /// A health bar was to start above its maximum.
    InvalidArgument,
}

} // verus!
