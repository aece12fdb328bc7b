//! The product catalogue of this vendor.

use crate::client::Identifier;
use crate::jumbo::common::{Data, Image, PaginatedData, Price};
use vstd::prelude::*;

verus! {

#[derive(Debug)]
pub struct ProductCategories {
    pub categories: Data<ProductCategory>,
}

#[derive(Debug)]
pub struct ProductCategory {
    pub background_image_url: Option<String>,
    pub cat_id: String,
    pub cat_path: String,
    pub foreground_image_url: String,
    pub id: String,
    pub sub_categories_count: u64,
    pub thematic_aisle: bool,
    pub title: String,
}

impl Identifier for ProductCategory {
    open spec fn id_text(&self) -> Seq<char> {
        self.id@
    }

    fn identifier(&self) -> (id: String) {
        self.id.clone()
    }
}

#[derive(Debug)]
pub struct ProductSearch {
    pub advertisements: Data<serde_json::Value>,
    pub filters: Filters,
    pub horizontal_filters: Data<serde_json::Value>,
    pub products: PaginatedData<Product>,
    pub product_lists: Data<serde_json::Value>,
    pub sort_options: Data<SortOption>,
}

#[derive(Debug)]
pub struct Product {
    pub allergens: Option<serde_json::Value>,
    pub available: bool,
    pub availability: ProductAvailability,
    pub badge: Option<ProductBadge>,
    pub badges_to_display: ProductBadges,
    pub cross_sell_sku_list: Vec<String>,
    pub id: String,
    pub image_info: Option<ProductImageInfo>,
    pub nix_product: bool,
    pub prices: ProductPrices,
    pub product_type: String,
    pub promotion: Option<ProductPromotion>,
    pub quantity: Option<String>,
    pub quantity_options: Vec<ProductQuantityOptions>,
    pub title: String,
    pub sample: bool,
    pub surcharges: Vec<serde_json::Value>,
}

impl Identifier for Product {
    open spec fn id_text(&self) -> Seq<char> {
        self.id@
    }

    fn identifier(&self) -> (id: String) {
        self.id.clone()
    }
}

#[derive(Debug)]
pub struct ProductAllergens {
    pub contains: Vec<ProductAllergen>,
    pub may_contain: Vec<ProductAllergen>,
}

#[derive(Debug)]
pub struct ProductAllergen {
    pub key: String,
    pub name: String,
}

#[derive(Debug)]
pub struct ProductAvailability {
    pub availability: String,
    pub sku: String,
}

#[derive(Debug)]
pub struct ProductBadge {
    pub image: String,
}

#[derive(Debug)]
pub struct ProductBadges {
    pub left_top: Option<ProductBadge>,
}

#[derive(Debug)]
pub struct ProductBadgeImage {
    pub main: String,
}

#[derive(Debug)]
pub struct ProductImageInfo {
    pub primary_view: Vec<Image>,
}

#[derive(Debug)]
pub struct ProductPrices {
    pub price: Price,
    pub unit_price: Option<ProductUnitPrice>,
}

#[derive(Debug)]
pub struct ProductUnitPrice {
    pub unit: String,
    pub price: Price,
}

#[derive(Debug)]
pub struct ProductPromotion {
    pub badge_image: ProductBadgeImage,
    pub enable_promo_assistance: bool,
    /// The first moment of the promotion, as the vendor counts time.
    pub from_date: u64,
    pub id: String,
    pub label: String,
    pub image: String,
    pub name: String,
    pub offline: bool,
    pub sticker_badges: serde_json::Value,
    pub summary: String,
    pub tags: Vec<ProductPromotionTag>,
    /// The last moment of the promotion, as the vendor counts time.
    pub to_date: u64,
    pub validity_period: String,
}

#[derive(Debug)]
pub struct ProductPromotionTag {
    pub type_: String,
    pub text: String,
}

#[derive(Debug)]
pub struct ProductQuantityOptions {
    pub amount_step: u64,
    pub default_amount: u64,
    pub maximum_amount: u64,
    pub minimum_amount: u64,
    pub unit: String,
}

#[derive(Debug)]
pub struct Filters {
    pub data: Vec<Filter>,
    pub active_filter_count: u64,
}

#[derive(Debug)]
pub struct Filter {
    pub title: String,
    pub type_: String,
    pub items: Vec<FilterItem>,
}

#[derive(Debug)]
pub struct FilterItem {
    pub cat_id: Option<String>,
    pub cat_path: Option<String>,
    pub count: u64,
    pub dimension_name: String,
    pub filters: String,
    pub is_category: bool,
    pub thematic_aisle: Option<bool>,
    pub title: String,
}

#[derive(Debug)]
pub struct SortOption {
    pub sort: String,
    pub title: String,
}

} // verus!
