//! Invoices: how one is numbered and what it bills for a work order.

use vstd::prelude::*;
use vstd::string::StringExecFns;
use crate::error::{Error, Missing};
use crate::ident::{fresh_id, is_uuid_text};
use crate::quantity::PER_UNIT;
use crate::text::{decimal_digits, join_texts, number_text, opt_text, remove_chars, without_chars};

verus! {

/// How far an invoice has come.
#[derive(Clone, Copy, Debug, PartialEq, Eq, Structural)]
pub enum InvoiceStatus {
    Draft,
    Sent,
    Paid,
    Void,
}

impl InvoiceStatus {
    /// The name under which the status is stored.
    pub open spec fn name(self) -> Seq<char> {
        match self {
            InvoiceStatus::Draft => "draft"@,
            InvoiceStatus::Sent => "sent"@,
            InvoiceStatus::Paid => "paid"@,
            InvoiceStatus::Void => "void"@,
        }
    }

    pub fn as_str(&self) -> (name: &'static str)
        ensures
            name@ == self.name(),
    {
        match self {
            InvoiceStatus::Draft => "draft",
            InvoiceStatus::Sent => "sent",
            InvoiceStatus::Paid => "paid",
            InvoiceStatus::Void => "void",
        }
    }
}

/// The request to bill a work order.
#[derive(Clone, Debug, PartialEq, Eq)]
pub struct CreateInvoiceInput {
    pub work_order_id: String,
}

/// What an invoice needs to know of the work order it bills.
#[derive(Clone, Debug, PartialEq, Eq)]
pub struct BilledOrder {
    pub id: String,
    pub delivery_size_label: Option<String>,
    pub delivery_size_cords: Option<i64>,
    pub notes: Option<String>,
}

/// The one line of an invoice. A new line has no price yet: unit price and
/// total are zero.
#[derive(Clone, Debug, PartialEq, Eq)]
pub struct NewInvoiceLine {
    pub id: String,
    pub description: String,
    pub quantity: i64,
    pub unit_price: i64,
    pub total: i64,
}

/// A new invoice, in draft and without prices: subtotal, tax and total are
/// zero.
#[derive(Clone, Debug, PartialEq, Eq)]
pub struct NewInvoice {
    pub id: String,
    pub work_order_id: String,
    pub invoice_number: String,
    pub invoice_date: String,
    pub subtotal: i64,
    pub tax: i64,
    pub total: i64,
    pub notes: Option<String>,
    pub status: InvoiceStatus,
    pub line: NewInvoiceLine,
}

/// A natural number in decimal notation, with zeros in front of it where it
/// has fewer than three digits.
pub open spec fn three_digits(value: nat) -> Seq<char> {
    if value < 10 {
        seq!['0', '0'] + decimal_digits(value)
    } else if value < 100 {
        seq!['0'] + decimal_digits(value)
    } else {
        decimal_digits(value)
    }
}

/// The number of the invoice that follows `count` invoices of the same day:
/// `INV-`, the day without its hyphens, a hyphen, and the place of the invoice
/// in the day in three digits or more.
pub open spec fn invoice_number_text(today: Seq<char>, count: nat) -> Seq<char> {
    "INV-"@ + without_chars(today, '-', '-') + seq!['-'] + three_digits(count + 1)
}

/// What the line of an invoice says it is for.
pub open spec fn line_text(label: Option<Seq<char>>) -> Seq<char> {
    match label {
        Some(text) => if text.len() > 0 {
            "Firewood delivery ("@ + text + ")"@
        } else {
            "Firewood delivery"@
        },
        None => "Firewood delivery"@,
    }
}

/// The quantity that the line of an invoice bills: the size of the delivery,
/// or one cord where the order names none.
pub open spec fn line_amount(size: Option<i64>) -> i64 {
    match size {
        Some(quantity) => quantity,
        None => PER_UNIT,
    }
}

/// Calls `chrono::Local::now` and writes the day with the format `%Y-%m-%d`.
/// Trusted: the text has the shape in which `chrono` writes a day in that
/// format (see `is_day_text`). Which day it is stays open: that depends on
/// the clock and on the time zone of the machine. The call panics where the
/// clock of the machine stands before the year 1970, which no argument
/// decides.
#[verifier::external_body]
pub(crate) fn local_day() -> (day: String)
    ensures
        is_day_text(day@),
{
    chrono::Local::now().format("%Y-%m-%d").to_string()
}

/// The day on which an invoice is written: today, by the clock of the
/// machine, written as year, month and day.
pub fn invoice_day() -> (day: String)
    ensures
        is_day_text(day@),
{
    local_day()
}

/// A decimal digit.
pub open spec fn is_digit(c: char) -> bool {
    '0' <= c && c <= '9'
}

/// The shape of a day written as year, month and day: the text ends with a
/// hyphen and the two digits of the day, before them stand a hyphen and the
/// two digits of the month, and before those the year, in four characters or
/// more, which are digits but for a sign that may come first (it does for a
/// year before 0 or after 9999).
pub open spec fn is_day_text(text: Seq<char>) -> bool {
    let length = text.len() as int;
    &&& length >= 10
    &&& text[length - 6] == '-'
    &&& is_digit(text[length - 5])
    &&& is_digit(text[length - 4])
    &&& text[length - 3] == '-'
    &&& is_digit(text[length - 2])
    &&& is_digit(text[length - 1])
    &&& forall|i: int|
        0 <= i < length - 6 ==> is_digit(#[trigger] text[i]) || (i == 0 && (text[0] == '+'
            || text[0] == '-'))
}

/// The number of an invoice (see `invoice_number_text`).
pub fn invoice_number(today: &str, count: u32) -> (number: String)
    ensures
        number@ == invoice_number_text(today@, count as nat),
{
    proof {
        reveal_strlit("-");
        reveal_strlit("0");
        reveal_strlit("00");
        assert("-"@ =~= seq!['-']);
        assert("0"@ =~= seq!['0']);
        assert("00"@ =~= seq!['0', '0']);
    }
    let place: i64 = count as i64 + 1;
    let day = remove_chars(today, '-', '-');
    let mut number = join_texts("INV-", day.as_str());
    number.append("-");
    if place < 10 {
        number.append("00");
    } else if place < 100 {
        number.append("0");
    }
    let digits = number_text(place);
    number.append(digits.as_str());
    assert(number@ =~= invoice_number_text(today@, count as nat));
    number
}

/// What the line of an invoice says it is for (see `line_text`).
pub fn line_description(label: &Option<String>) -> (text: String)
    ensures
        text@ == line_text(opt_text(*label)),
{
    match label {
        Some(name) => if name.as_str().unicode_len() > 0 {
            let start = join_texts("Firewood delivery (", name.as_str());
            join_texts(start.as_str(), ")")
        } else {
            "Firewood delivery".to_owned()
        },
        None => "Firewood delivery".to_owned(),
    }
}

/// Bills a work order. `order` is the order that the request names, or `None`
/// where it is missing or deleted; `today` is the day of the invoice, and
/// `count` the number of invoices of that day on record.
///
/// The invoice is a draft with one line, numbered after the invoices of the
/// day; it carries the notes of the order, and all its amounts are zero.
pub fn create_invoice_from_work_order(
    order: Option<BilledOrder>,
    today: &str,
    count: u32,
) -> (outcome: Result<NewInvoice, Error>)
    ensures
        match order {
            None => outcome == Err::<NewInvoice, Error>(Error::NotFound(Missing::WorkOrder)),
            Some(billed) => {
                &&& outcome matches Ok(invoice)
                &&& is_uuid_text(invoice.id@)
                &&& invoice.work_order_id == billed.id
                &&& invoice.invoice_number@ == invoice_number_text(today@, count as nat)
                &&& invoice.invoice_date@ == today@
                &&& invoice.subtotal == 0 && invoice.tax == 0 && invoice.total == 0
                &&& invoice.line.unit_price == 0 && invoice.line.total == 0
                &&& invoice.notes == billed.notes
                &&& invoice.status == InvoiceStatus::Draft
                &&& is_uuid_text(invoice.line.id@)
                &&& invoice.line.description@ == line_text(opt_text(billed.delivery_size_label))
                &&& invoice.line.quantity == line_amount(billed.delivery_size_cords)
            },
        },
{
    let billed = match order {
        Some(billed) => billed,
        None => {
            return Err(Error::NotFound(Missing::WorkOrder));
        },
    };
    let line = NewInvoiceLine {
        id: fresh_id(),
        description: line_description(&billed.delivery_size_label),
        quantity: match billed.delivery_size_cords {
            Some(quantity) => quantity,
            None => PER_UNIT,
        },
        unit_price: 0,
        total: 0,
    };
    Ok(
        NewInvoice {
            id: fresh_id(),
            work_order_id: billed.id,
            invoice_number: invoice_number(today, count),
            invoice_date: today.to_owned(),
            subtotal: 0,
            tax: 0,
            total: 0,
            notes: billed.notes,
            status: InvoiceStatus::Draft,
            line,
        },
    )
}

} // verus!
