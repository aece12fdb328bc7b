//! Products, as every vendor's products are presented.

use vstd::prelude::*;

verus! {

#[derive(Debug)]
pub struct Product {
    pub id: String,
    pub name: String,
    pub restrictions: Vec<ProductRestriction>,
}

/// A condition on who may buy a product.
#[derive(Debug)]
pub enum ProductRestriction {
    /// The buyer has to be at least this many years old.
    AgeRestriction(u8),
}

} // verus!
