//! Receipts, as every vendor's receipts are presented.

use crate::client::Identifier;
use crate::time::Timestamp;
use vstd::prelude::*;

verus! {

/// One line of a customer's list of receipts.
#[derive(Debug)]
pub struct ReceiptSummary {
    pub id: String,
    pub created_at: Timestamp,
}

impl ReceiptSummary {
    /// This summary presents the receipt of the text `id` that was made at
    /// `moment`.
    pub open spec fn presents(&self, id: Seq<char>, moment: Timestamp) -> bool {
        self.id@ == id && self.created_at == moment
    }
}

impl Identifier for ReceiptSummary {
    open spec fn id_text(&self) -> Seq<char> {
        self.id@
    }

    fn identifier(&self) -> (id: String) {
        self.id.clone()
    }
}

/// A receipt with what was bought.
#[derive(Debug)]
pub struct Receipt {
    pub id: String,
    pub created_at: Timestamp,
    pub products: Vec<ReceiptProduct>,
}

impl Identifier for Receipt {
    open spec fn id_text(&self) -> Seq<char> {
        self.id@
    }

    fn identifier(&self) -> (id: String) {
        self.id.clone()
    }
}

/// A product on a receipt.
#[derive(Debug)]
pub struct ReceiptProduct {}

} // verus!
