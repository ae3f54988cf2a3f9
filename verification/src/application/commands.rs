//! What a client asks the catalogue to do.

use vstd::prelude::*;

verus! {

/// A request to buy `quantity` units of a product.
#[derive(Debug, Clone, Copy, PartialEq, Eq)]
pub struct BuyProductCommand {
    pub quantity: u32,
}

} // verus!
