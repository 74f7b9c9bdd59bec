//! Items and stacks of them: what an item entity carries.

use vstd::prelude::*;

verus! {

/// The kinds of item that can lie in the world.
#[derive(Clone, Copy, Debug, PartialEq, Eq, Hash, Structural)]
pub enum Item {
    Stone,
    Dirt,
    Stick,
    Arrow,
    Diamond,
    EnderPearl,
}

/// A number of items of one kind, held together.
#[derive(Clone, Copy, Debug, PartialEq, Eq, Hash, Structural)]
pub struct ItemStack {
    /// The kind of every item in the stack.
    pub ty: Item,
    /// How many items the stack holds.
    pub amount: u8,
}

impl ItemStack {
    /// A stack of `amount` items of kind `ty`.
    pub fn new(ty: Item, amount: u8) -> (stack: Self)
        ensures
            stack == (ItemStack { ty, amount }),
    {
        ItemStack { ty, amount }
    }
}

} // verus!
