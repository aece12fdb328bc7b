//! Shapes that several answers of this vendor share.

use vstd::prelude::*;

verus! {

#[derive(Debug)]
pub struct Address {
    pub city: String,
    pub country_code: String,
    pub house_number: String,
    pub postal_code: String,
    pub street: String,
}

#[derive(Debug)]
pub struct Image {
    pub height: u64,
    pub url: String,
    pub width: u64,
}

#[derive(Debug)]
pub struct Link {
    pub href: String,
}

/// The pages around the current one.
#[derive(Debug)]
pub struct Links {
    pub current: Link,
    pub first: Link,
    pub last: Link,
    pub next: Link,
}

/// Where a page stands in its list.
#[derive(Debug)]
pub struct Page {
    pub number: u64,
    pub size: u64,
    pub total_elements: u64,
    pub total_pages: u64,
}

} // verus!
