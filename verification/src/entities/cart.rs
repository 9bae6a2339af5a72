//! What users have put in their carts.

use vstd::prelude::*;

verus! {

/// One entry of a cart: so many of one product, for one user.
#[derive(Clone, Copy, PartialEq, Eq, Debug, Structural)]
pub struct Model {
    pub id: i32,
    pub user_id: i32,
    pub product_id: i32,
    pub quantity: u32,
}

} // verus!
