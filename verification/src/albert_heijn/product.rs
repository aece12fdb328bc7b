//! The product catalogue of this vendor, as far as it holds whole numbers
//! and texts only.

use crate::albert_heijn::common::Image;
use crate::client::Identifier;
use crate::text::{decimal, to_decimal};
use vstd::prelude::*;

verus! {

#[derive(Debug)]
pub struct Filter {
    pub boolean_filter: bool,
    pub id: String,
    pub label: String,
    pub options: Vec<FilterOption>,
    pub type_: String,
}

#[derive(Debug)]
pub struct FilterOption {
    pub count: u64,
    pub display: bool,
    pub id: String,
    pub label: String,
}

#[derive(Debug)]
pub struct ProductCategory {
    pub id: u64,
    pub images: Vec<Image>,
    pub name: String,
    pub nix18: bool,
    pub slugified_name: String,
}

impl Identifier for ProductCategory {
    open spec fn id_text(&self) -> Seq<char> {
        decimal(self.id as nat)
    }

    fn identifier(&self) -> (id: String) {
        to_decimal(self.id)
    }
}

#[derive(Debug)]
pub struct ProductSubcategories {
    pub parent: ProductCategory,
    pub children: Vec<ProductCategory>,
}

#[derive(Debug)]
pub struct ProductSearchSuggestions {
    pub suggestions: Vec<String>,
}

#[derive(Debug)]
pub struct ProductVirtualBundleItem {
    pub product_id: u64,
    pub quantity: u64,
}

} // verus!
