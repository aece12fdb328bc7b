//! The receipts of this vendor's loyalty programme. The vendor writes the
//! moments of a purchase as local time in Amsterdam; they are kept as
//! instants.

use crate::client::Identifier;
use crate::text::{decimal, to_decimal};
use crate::time::Timestamp;
use vstd::prelude::*;

verus! {

/// What chrono and its time zone data make of `text` as a date and time of
/// day in the form `%Y-%m-%d %H:%M:%S`, taken as local time in Amsterdam:
/// the seconds since the Unix epoch of that moment; `Ok(None)` where the
/// local time names no single moment, as in the hours around a change of
/// the clocks; or the message of chrono's parser where `text` has another form.
pub uninterp spec fn purchase_date_instant(text: Seq<char>) -> Result<Option<i64>, Seq<char>>;

/// The view of what the calendar made of a text.
pub open spec fn instant_view(parsed: Result<Option<i64>, String>) -> Result<
    Option<i64>,
    Seq<char>,
> {
    match parsed {
        Ok(instant) => Ok(instant),
        Err(message) => Err(message@),
    }
}

/// Calls `chrono::NaiveDateTime::parse_from_str` with the format
/// `%Y-%m-%d %H:%M:%S`, then `and_local_timezone` with
/// `chrono_tz::Europe::Amsterdam` and `LocalResult::single`, and reads the
/// moment with `with_timezone(&Utc)` and `timestamp`; a parse error is
/// handed on as its `Display` text. The contract gives the outcome its name
/// and claims nothing more of it: the time zone data is compiled into
/// chrono-tz, so that neither the machine nor the clock plays a part.
#[verifier::external_body]
fn parse_purchase_date(value: &str) -> (r: Result<Option<i64>, String>)
    ensures
        instant_view(r) == purchase_date_instant(value@),
{
    match chrono::NaiveDateTime::parse_from_str(value, "%Y-%m-%d %H:%M:%S") {
        Ok(naive) => match naive.and_local_timezone(chrono_tz::Europe::Amsterdam).single() {
            Some(local) => Ok(Some(local.with_timezone(&chrono::Utc).timestamp())),
            None => Ok(None),
        },
        Err(e) => Err(format!("{}", e)),
    }
}

/// The message for a local time that names no single moment.
pub open spec fn ambiguous() -> Seq<char> {
    "Conversion to local timezone is ambiguous."@
}

/// What reading a moment of purchase comes to, given what the calendar made
/// of the text.
pub open spec fn read_purchase_date(parsed: Result<Option<i64>, Seq<char>>, r: Result<
    Timestamp,
    String,
>) -> bool {
    match parsed {
        Ok(Some(secs)) => r matches Ok(instant) && instant.seconds() == secs && instant.subsec()
            == 0,
        Ok(None) => r matches Err(message) && message@ == ambiguous(),
        Err(refusal) => r matches Err(message) && message@ == refusal,
    }
}

/// The moment of purchase from what the calendar made of its text: the
/// instant, or why there is none.
pub fn purchase_date(parsed: Result<Option<i64>, String>) -> (r: Result<Timestamp, String>)
    ensures
        read_purchase_date(instant_view(parsed), r),
{
    match parsed {
        Ok(Some(secs)) => Ok(Timestamp::from_secs(secs)),
        Ok(None) => Err(String::from_str("Conversion to local timezone is ambiguous.")),
        Err(message) => Err(message),
    }
}

/// The moment of purchase that `value` names in Amsterdam.
pub fn deserialize_purchase_date(value: &str) -> (r: Result<Timestamp, String>)
    ensures
        read_purchase_date(purchase_date_instant(value@), r),
{
    purchase_date(parse_purchase_date(value))
}

#[derive(Debug)]
pub struct ReceiptStore {
    pub id: u64,
    pub name: String,
}

impl Identifier for ReceiptStore {
    open spec fn id_text(&self) -> Seq<char> {
        decimal(self.id as nat)
    }

    fn identifier(&self) -> (id: String) {
        to_decimal(self.id)
    }
}

#[derive(Debug)]
pub struct ReceiptSummary {
    pub point_balance: u64,
    pub purchase_end_on: Timestamp,
    pub receipt_source: String,
    pub store: ReceiptStore,
    pub transaction_id: String,
}

impl Identifier for ReceiptSummary {
    open spec fn id_text(&self) -> Seq<char> {
        self.transaction_id@
    }

    fn identifier(&self) -> (id: String) {
        self.transaction_id.clone()
    }
}

#[derive(Debug)]
pub struct LoyaltyCard {
    pub number: String,
}

impl Identifier for LoyaltyCard {
    open spec fn id_text(&self) -> Seq<char> {
        self.number@
    }

    fn identifier(&self) -> (id: String) {
        self.number.clone()
    }
}

#[derive(Debug)]
pub struct ReceiptCustomer {
    pub customer_id: String,
    pub loyalty_card: LoyaltyCard,
}

impl Identifier for ReceiptCustomer {
    open spec fn id_text(&self) -> Seq<char> {
        self.customer_id@
    }

    fn identifier(&self) -> (id: String) {
        self.customer_id.clone()
    }
}

#[derive(Debug)]
pub struct ReceiptPoints {
    pub earned: u64,
    pub new_balance: u64,
    pub old_balance: u64,
    pub redeemed: Option<u64>,
}

#[derive(Debug)]
pub struct ReceiptDocuments {
    pub documents: Vec<ReceiptDocumentContainer>,
}

#[derive(Debug)]
pub struct ReceiptDocumentContainer {
    pub code_page: String,
    pub device: String,
    pub documents: Vec<ReceiptDocument>,
    pub number_of_documents: u64,
}

#[derive(Debug)]
pub struct ReceiptDocument {
    pub codepage: String,
    pub print_sections: Vec<ReceiptPrintSection>,
}

#[derive(Debug)]
pub struct ReceiptPrintSection {
    pub barcode_object: Option<serde_json::Value>,
    pub layout: String,
    pub print_commands: Vec<ReceiptPrintCommand>,
    pub section_id: String,
    pub text_objects: Vec<ReceiptTextObject>,
}

#[derive(Debug)]
pub struct ReceiptPrintCommand {
    pub cmd_data: String,
    pub command: String,
}

#[derive(Debug)]
pub struct ReceiptTextObject {
    pub output_options: String,
    pub text_lines: Vec<ReceiptTextLine>,
}

#[derive(Debug)]
pub struct ReceiptTextLine {
    pub line_print_attributes: Vec<ReceiptLinePrintAttribute>,
    pub texts: Vec<ReceiptText>,
}

#[derive(Debug)]
pub struct ReceiptLinePrintAttribute {
    pub align: String,
    pub cpl: String,
}

#[derive(Debug)]
pub struct ReceiptPrintAttribute {
    pub bold: Option<serde_json::Value>,
    pub double_height: Option<serde_json::Value>,
    pub double_width: Option<serde_json::Value>,
    pub italic: Option<serde_json::Value>,
    pub underline: Option<serde_json::Value>,
}

#[derive(Debug)]
pub struct ReceiptText {
    pub cpl: Option<serde_json::Value>,
    pub text: String,
    pub print_attributes: Vec<ReceiptPrintAttribute>,
}

/// The receipt as it was printed.
#[derive(Debug)]
pub enum ReceiptImage {
    Json { image: ReceiptDocuments, receipt_points: ReceiptPoints },
}

#[derive(Debug)]
pub struct Receipt {
    pub customer_details: ReceiptCustomer,
    pub id: String,
    pub purchase_end_on: Timestamp,
    pub purchase_start_on: Timestamp,
    pub receipt_source: String,
    pub receipt_image: ReceiptImage,
    pub store: ReceiptStore,
    pub transaction_id: String,
}

impl Identifier for Receipt {
    open spec fn id_text(&self) -> Seq<char> {
        self.id@
    }

    fn identifier(&self) -> (id: String) {
        self.id.clone()
    }
}

} // verus!
