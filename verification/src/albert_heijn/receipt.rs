//! The receipts of this vendor. Amounts of money are handed through in the
//! form `A` in which the caller holds them.

use crate::albert_heijn::common::Address;
use crate::client::Identifier;
use crate::time::Timestamp;
use vstd::prelude::*;

verus! {

#[derive(Debug)]
pub struct ReceiptTotal<A> {
    pub amount: A,
}

#[derive(Debug)]
pub struct ReceiptSummary<A> {
    pub store_address: Address,
    pub total: ReceiptTotal<A>,
    pub total_discount: A,
    pub transaction_id: String,
    pub transaction_moment: Timestamp,
}

impl<A> Identifier for ReceiptSummary<A> {
    open spec fn id_text(&self) -> Seq<char> {
        self.transaction_id@
    }

    fn identifier(&self) -> (id: String) {
        self.transaction_id.clone()
    }
}

/// One element of a receipt as the vendor's app draws it.
#[derive(Debug)]
#[allow(inconsistent_fields)]
pub enum ReceiptUiItem {
    AhLogo { style: String },
    Divider { center_text: Option<String> },
    FourTextColumn {
        first: Option<String>,
        second: Option<String>,
        third: Option<String>,
        fourth: Option<String>,
    },
    Product {
        amount: Option<String>,
        description: String,
        indicator: Option<String>,
        price: Option<String>,
        quantity: Option<String>,
    },
    ProductsHeader {  },
    Spacer {  },
    Subtotal { amount: String, quantity: String, text: String },
    TechInfo {
        date_time: Timestamp,
        lane: u64,
        operator: Option<String>,
        store: u64,
        transaction: u64,
    },
    Text { alignment: String, is_bold: bool, value: String },
    Total { label: String, price: String },
    Vat { center: String, left: String, right: String },
}

#[derive(Debug)]
pub struct Receipt {
    pub receipt_ui_items: Vec<ReceiptUiItem>,
    pub store_id: u64,
    /// The text by which the receipt was asked for; the vendor's answer
    /// leaves it out.
    pub transaction_id: String,
    pub transaction_moment: Timestamp,
}

impl Identifier for Receipt {
    open spec fn id_text(&self) -> Seq<char> {
        self.transaction_id@
    }

    fn identifier(&self) -> (id: String) {
        self.transaction_id.clone()
    }
}

} // verus!
