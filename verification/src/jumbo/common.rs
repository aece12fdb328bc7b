//! Shapes that several answers of this vendor share.

use vstd::prelude::*;

verus! {

#[derive(Debug)]
pub struct Data<T> {
    pub data: Vec<T>,
}

/// One page of a longer list.
#[derive(Debug)]
pub struct PaginatedData<T> {
    pub data: Vec<T>,
    pub total: u64,
    pub offset: u64,
}

#[derive(Debug)]
pub struct Image {
    pub height: u64,
    pub url: String,
    pub width: u64,
}

/// An amount in the smallest unit of its currency.
#[derive(Debug)]
pub struct Price {
    pub amount: u64,
    pub currency: String,
}

} // verus!
