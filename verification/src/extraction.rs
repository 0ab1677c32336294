//! The rules applied to a recognized invoice before it is stored: cleaning
//! the extracted fields, refusing what is not an invoice, an unreadable issue
//! date, a confidence out of range or too low, and dropping empty line
//! items.  Also the validation of manual edits and the statements that apply
//! edits of line items and batch updates.
use vstd::prelude::*;

use crate::search::{numbered, numbered_text, ostr};
use crate::sql::{join, join_strings, values_view, SqlValue, SqlValueView};
use crate::exporter::SqlQuery;
use crate::text::{
    chars_eq_str, chars_of, dec_int, push_i64, push_str, push_usize, string_from_chars, trim,
    trim_str,
};
use crate::xlsx::string_views;

verus! {

// ---------------------------------------------------------------------------
// The outside date parser
// ---------------------------------------------------------------------------

/// Whether chrono accepts a text as a calendar date in the `%Y-%m-%d` format.
pub uninterp spec fn ymd_date_accepted(s: Seq<char>) -> bool;

/// `chrono::NaiveDate::parse_from_str(s, "%Y-%m-%d")` succeeds: the result is
/// whether chrono accepts `s` as a `YYYY-MM-DD` date.  What chrono accepts
/// (digit counts, ranges of months and days, leap years) is left to chrono
/// and not restated here.
#[verifier::external_body]
fn parses_as_ymd_date(s: &str) -> (b: bool)
    ensures
        b == ymd_date_accepted(s@),
{
    chrono::NaiveDate::parse_from_str(s, "%Y-%m-%d").is_ok()
}

// ---------------------------------------------------------------------------
// Extracted invoices
// ---------------------------------------------------------------------------

pub struct SaveInvoiceExtractionRequest {
    pub raw_file_id: i64,
    pub source_page_range: Option<String>,
    pub provider_name: Option<String>,
    pub model: Option<String>,
    pub response_json: String,
}

/// A party (seller or buyer) as the model extracted it.
pub struct PartyExtraction {
    pub name: Option<String>,
    pub tax_id: Option<String>,
}

/// A line item as the model extracted it.
pub struct InvoiceItemExtraction {
    pub name: Option<String>,
    pub spec: Option<String>,
    pub unit: Option<String>,
    pub quantity: Option<String>,
    pub unit_price: Option<String>,
    pub amount: Option<String>,
    pub tax_rate: Option<String>,
    pub tax_amount: Option<String>,
}

/// Where the model's confidence falls: outside `[0, 1]`, below the 0.85
/// threshold, or at or above it.
#[derive(PartialEq, Eq, Structural, Clone, Copy)]
pub enum ConfidenceBand {
    OutOfRange,
    Low,
    Sufficient,
}

/// An invoice as the model extracted it.
pub struct InvoiceExtraction {
    pub is_invoice: bool,
    pub invoice_type: Option<String>,
    pub invoice_code: Option<String>,
    pub invoice_number: Option<String>,
    pub issue_date: Option<String>,
    pub seller: PartyExtraction,
    pub buyer: PartyExtraction,
    pub currency: Option<String>,
    pub amount_without_tax: Option<String>,
    pub tax_amount: Option<String>,
    pub total_amount: Option<String>,
    pub category: Option<String>,
    pub items: Vec<InvoiceItemExtraction>,
    pub remarks: Option<String>,
    pub confidence: Option<ConfidenceBand>,
    pub needs_review: Option<bool>,
}

pub enum ExtractorError {
    MissingRawFile(i64),
    NonInvoice,
    LowConfidence,
    InvalidJson(String),
    InvalidIssueDate(String),
    InvalidConfidence,
    Database(String),
}

impl ExtractorError {
    /// The message of the error.
    pub fn message(&self) -> (r: String)
        ensures
            self is NonInvoice ==> r@ == "文件不含有发票"@,
            self is LowConfidence ==> r@ == "识别置信度过低，可能是图片分辨率不清晰或发票内容不完整"@,
            self is InvalidConfidence ==> r@ == "confidence must be between 0 and 1"@,
            self matches ExtractorError::InvalidIssueDate(d) ==> r@
                == "invalid issue date, expected YYYY-MM-DD: "@ + d@,
            self matches ExtractorError::InvalidJson(d) ==> r@ == "invalid extraction JSON: "@ + d@,
            self matches ExtractorError::Database(d) ==> r@ == "database error: "@ + d@,
            self matches ExtractorError::MissingRawFile(id) ==> r@ == "raw file does not exist: "@ + dec_int(
                id as int,
            ),
    {
        let mut out: Vec<char> = Vec::new();
        match self {
            ExtractorError::MissingRawFile(id) => {
                push_str(&mut out, "raw file does not exist: ");
                push_i64(&mut out, *id);
            },
            ExtractorError::NonInvoice => push_str(&mut out, "文件不含有发票"),
            ExtractorError::LowConfidence => push_str(
                &mut out,
                "识别置信度过低，可能是图片分辨率不清晰或发票内容不完整",
            ),
            ExtractorError::InvalidJson(d) => {
                push_str(&mut out, "invalid extraction JSON: ");
                push_str(&mut out, d.as_str());
            },
            ExtractorError::InvalidIssueDate(d) => {
                push_str(&mut out, "invalid issue date, expected YYYY-MM-DD: ");
                push_str(&mut out, d.as_str());
            },
            ExtractorError::InvalidConfidence => push_str(
                &mut out,
                "confidence must be between 0 and 1",
            ),
            ExtractorError::Database(d) => {
                push_str(&mut out, "database error: ");
                push_str(&mut out, d.as_str());
            },
        }
        string_from_chars(out.as_slice())
    }
}

// ---------------------------------------------------------------------------
// Cleaning
// ---------------------------------------------------------------------------

/// A text field is trimmed; a blank one is absent.
pub open spec fn clean_spec(o: Option<Seq<char>>) -> Option<Seq<char>> {
    match o {
        Some(s) => if trim(s).len() == 0 {
            None
        } else {
            Some(trim(s))
        },
        None => None,
    }
}

pub fn clean_optional(value: Option<String>) -> (r: Option<String>)
    ensures
        ostr(r) == clean_spec(ostr(value)),
{
    match value {
        Some(v) => {
            let t = trim_str(v.as_str());
            if t.len() == 0 {
                None
            } else {
                Some(string_from_chars(t.as_slice()))
            }
        },
        None => None,
    }
}

/// Cleaning twice changes nothing.
pub proof fn law_clean_idempotent(o: Option<Seq<char>>)
    ensures
        clean_spec(clean_spec(o)) == clean_spec(o),
{
    if let Some(s) = o {
        crate::text::lemma_trim_idempotent(s);
    }
}

/// The content of a line item.
#[verifier::ext_equal]
pub struct ItemView {
    pub name: Option<Seq<char>>,
    pub spec: Option<Seq<char>>,
    pub unit: Option<Seq<char>>,
    pub quantity: Option<Seq<char>>,
    pub unit_price: Option<Seq<char>>,
    pub amount: Option<Seq<char>>,
    pub tax_rate: Option<Seq<char>>,
    pub tax_amount: Option<Seq<char>>,
}

pub open spec fn item_view(i: InvoiceItemExtraction) -> ItemView {
    ItemView {
        name: ostr(i.name),
        spec: ostr(i.spec),
        unit: ostr(i.unit),
        quantity: ostr(i.quantity),
        unit_price: ostr(i.unit_price),
        amount: ostr(i.amount),
        tax_rate: ostr(i.tax_rate),
        tax_amount: ostr(i.tax_amount),
    }
}

pub open spec fn items_view(v: Seq<InvoiceItemExtraction>) -> Seq<ItemView> {
    v.map_values(|i: InvoiceItemExtraction| item_view(i))
}

/// An item's name, specification and unit are cleaned; its numbers are
/// kept as they came.
pub open spec fn clean_item(v: ItemView) -> ItemView {
    ItemView { name: clean_spec(v.name), spec: clean_spec(v.spec), unit: clean_spec(v.unit), ..v }
}

/// An item carries data when any of its fields is present.
pub open spec fn meaningful(v: ItemView) -> bool {
    v.name is Some || v.spec is Some || v.unit is Some || v.quantity is Some || v.unit_price is Some
        || v.amount is Some || v.tax_rate is Some || v.tax_amount is Some
}

/// The items kept: each cleaned, those without data dropped, in order.
pub open spec fn kept_items(v: Seq<ItemView>) -> Seq<ItemView>
    decreases v.len(),
{
    if v.len() == 0 {
        Seq::empty()
    } else {
        let prev = kept_items(v.drop_last());
        let c = clean_item(v.last());
        if meaningful(c) {
            prev.push(c)
        } else {
            prev
        }
    }
}

pub fn has_meaningful_item_data(item: &InvoiceItemExtraction) -> (b: bool)
    ensures
        b == meaningful(item_view(*item)),
{
    item.name.is_some() || item.spec.is_some() || item.unit.is_some() || item.quantity.is_some()
        || item.unit_price.is_some() || item.amount.is_some() || item.tax_rate.is_some()
        || item.tax_amount.is_some()
}

fn opt_clone(o: &Option<String>) -> (r: Option<String>)
    ensures
        ostr(r) == ostr(*o),
{
    match o {
        Some(s) => Some(s.clone()),
        None => None,
    }
}

fn clean_item_exec(item: &InvoiceItemExtraction) -> (r: InvoiceItemExtraction)
    ensures
        item_view(r) == clean_item(item_view(*item)),
{
    InvoiceItemExtraction {
        name: clean_optional(opt_clone(&item.name)),
        spec: clean_optional(opt_clone(&item.spec)),
        unit: clean_optional(opt_clone(&item.unit)),
        quantity: opt_clone(&item.quantity),
        unit_price: opt_clone(&item.unit_price),
        amount: opt_clone(&item.amount),
        tax_rate: opt_clone(&item.tax_rate),
        tax_amount: opt_clone(&item.tax_amount),
    }
}

/// The header fields of an extraction.
#[verifier::ext_equal]
pub struct HeaderView {
    pub invoice_type: Option<Seq<char>>,
    pub invoice_code: Option<Seq<char>>,
    pub invoice_number: Option<Seq<char>>,
    pub issue_date: Option<Seq<char>>,
    pub seller_name: Option<Seq<char>>,
    pub seller_tax_id: Option<Seq<char>>,
    pub buyer_name: Option<Seq<char>>,
    pub buyer_tax_id: Option<Seq<char>>,
    pub currency: Option<Seq<char>>,
    pub amount_without_tax: Option<Seq<char>>,
    pub tax_amount: Option<Seq<char>>,
    pub total_amount: Option<Seq<char>>,
    pub category: Option<Seq<char>>,
    pub remarks: Option<Seq<char>>,
}

pub open spec fn header_view(e: InvoiceExtraction) -> HeaderView {
    HeaderView {
        invoice_type: ostr(e.invoice_type),
        invoice_code: ostr(e.invoice_code),
        invoice_number: ostr(e.invoice_number),
        issue_date: ostr(e.issue_date),
        seller_name: ostr(e.seller.name),
        seller_tax_id: ostr(e.seller.tax_id),
        buyer_name: ostr(e.buyer.name),
        buyer_tax_id: ostr(e.buyer.tax_id),
        currency: ostr(e.currency),
        amount_without_tax: ostr(e.amount_without_tax),
        tax_amount: ostr(e.tax_amount),
        total_amount: ostr(e.total_amount),
        category: ostr(e.category),
        remarks: ostr(e.remarks),
    }
}

/// The text fields cleaned, the currency `CNY` when none is given; the
/// amounts are kept as they came.
pub open spec fn cleaned_header(h: HeaderView) -> HeaderView {
    HeaderView {
        invoice_type: clean_spec(h.invoice_type),
        invoice_code: clean_spec(h.invoice_code),
        invoice_number: clean_spec(h.invoice_number),
        issue_date: clean_spec(h.issue_date),
        seller_name: clean_spec(h.seller_name),
        seller_tax_id: clean_spec(h.seller_tax_id),
        buyer_name: clean_spec(h.buyer_name),
        buyer_tax_id: clean_spec(h.buyer_tax_id),
        currency: match clean_spec(h.currency) {
            Some(c) => Some(c),
            None => Some("CNY"@),
        },
        amount_without_tax: h.amount_without_tax,
        tax_amount: h.tax_amount,
        total_amount: h.total_amount,
        category: clean_spec(h.category),
        remarks: clean_spec(h.remarks),
    }
}

/// Why an extraction is refused, in the order the checks run.
#[derive(PartialEq, Eq, Structural)]
pub enum Refusal {
    NonInvoice,
    InvalidIssueDate,
    InvalidConfidence,
    LowConfidence,
}

/// The refusal of an extraction, if any: not an invoice; an issue date that
/// does not parse; a confidence out of range; a review requested (or not
/// stated) or a confidence missing or below the threshold.
pub open spec fn refusal_spec(
    is_invoice: bool,
    cleaned_date: Option<Seq<char>>,
    date_ok: bool,
    confidence: Option<ConfidenceBand>,
    needs_review: Option<bool>,
) -> Option<Refusal> {
    if !is_invoice {
        Some(Refusal::NonInvoice)
    } else if cleaned_date is Some && !date_ok {
        Some(Refusal::InvalidIssueDate)
    } else if confidence == Some(ConfidenceBand::OutOfRange) {
        Some(Refusal::InvalidConfidence)
    } else if (match needs_review {
        Some(b) => b,
        None => true,
    }) || confidence != Some(ConfidenceBand::Sufficient) {
        Some(Refusal::LowConfidence)
    } else {
        None
    }
}

/// An extraction is accepted exactly when it is an invoice, its issue date
/// (if any) parses, the model did not ask for review (it said `false`), and
/// its confidence is sufficient. In particular an extraction whose model
/// asked for review (or did not say) is refused as low-confidence whenever
/// the earlier checks pass, whatever its confidence. The earlier checks
/// refuse, in this order, what is not an invoice, an issue date that does
/// not parse, and a confidence out of range.
pub proof fn law_acceptance_needs_no_review(
    is_invoice: bool,
    cleaned_date: Option<Seq<char>>,
    date_ok: bool,
    confidence: Option<ConfidenceBand>,
    needs_review: Option<bool>,
)
    ensures
        refusal_spec(is_invoice, cleaned_date, date_ok, confidence, needs_review) is None <==> (is_invoice
            && (cleaned_date is Some ==> date_ok) && needs_review == Some(false) && confidence == Some(
            ConfidenceBand::Sufficient,
        )),
        needs_review == Some(true) ==> refusal_spec(is_invoice, cleaned_date, date_ok, confidence, needs_review)
            is Some,
        is_invoice && (cleaned_date is Some ==> date_ok) && confidence != Some(ConfidenceBand::OutOfRange)
            && needs_review != Some(false) ==> refusal_spec(
            is_invoice,
            cleaned_date,
            date_ok,
            confidence,
            needs_review,
        ) == Some(Refusal::LowConfidence),
        !is_invoice ==> refusal_spec(is_invoice, cleaned_date, date_ok, confidence, needs_review) == Some(
            Refusal::NonInvoice,
        ),
        is_invoice && cleaned_date is Some && !date_ok ==> refusal_spec(
            is_invoice,
            cleaned_date,
            date_ok,
            confidence,
            needs_review,
        ) == Some(Refusal::InvalidIssueDate),
        is_invoice && (cleaned_date is Some ==> date_ok) && confidence == Some(ConfidenceBand::OutOfRange)
            ==> refusal_spec(is_invoice, cleaned_date, date_ok, confidence, needs_review) == Some(
            Refusal::InvalidConfidence,
        ),
{
}

pub open spec fn error_refusal(e: ExtractorError) -> Option<Refusal> {
    match e {
        ExtractorError::NonInvoice => Some(Refusal::NonInvoice),
        ExtractorError::InvalidIssueDate(_) => Some(Refusal::InvalidIssueDate),
        ExtractorError::InvalidConfidence => Some(Refusal::InvalidConfidence),
        ExtractorError::LowConfidence => Some(Refusal::LowConfidence),
        _ => None,
    }
}

/// Each refusal is reported by the error of the same name, and only by it.
pub proof fn law_refusals_reported_by_their_errors(e: ExtractorError)
    ensures
        error_refusal(e) == Some(Refusal::NonInvoice) <==> e is NonInvoice,
        error_refusal(e) == Some(Refusal::InvalidIssueDate) <==> e is InvalidIssueDate,
        error_refusal(e) == Some(Refusal::InvalidConfidence) <==> e is InvalidConfidence,
        error_refusal(e) == Some(Refusal::LowConfidence) <==> e is LowConfidence,
{
}

/// Cleans the header fields of an extraction (not its items).
pub fn clean_header_fields(e: &mut InvoiceExtraction)
    ensures
        header_view(*final(e)) == cleaned_header(header_view(*old(e))),
        final(e).is_invoice == old(e).is_invoice,
        final(e).confidence == old(e).confidence,
        final(e).needs_review == old(e).needs_review,
        final(e).items == old(e).items,
{
    e.invoice_type = clean_optional(e.invoice_type.take());
    e.invoice_code = clean_optional(e.invoice_code.take());
    e.invoice_number = clean_optional(e.invoice_number.take());
    e.issue_date = clean_optional(e.issue_date.take());
    e.seller.name = clean_optional(e.seller.name.take());
    e.seller.tax_id = clean_optional(e.seller.tax_id.take());
    e.buyer.name = clean_optional(e.buyer.name.take());
    e.buyer.tax_id = clean_optional(e.buyer.tax_id.take());
    let currency = clean_optional(e.currency.take());
    e.currency = match currency {
        Some(c) => Some(c),
        None => Some("CNY".to_owned()),
    };
    e.category = clean_optional(e.category.take());
    e.remarks = clean_optional(e.remarks.take());
    assert(header_view(*e) =~~= cleaned_header(header_view(*old(e))));
}

/// Cleans the items of an extraction and drops those without data.
pub fn clean_items(e: &mut InvoiceExtraction)
    ensures
        items_view(final(e).items@) == kept_items(items_view(old(e).items@)),
        header_view(*final(e)) == header_view(*old(e)),
        final(e).is_invoice == old(e).is_invoice,
        final(e).confidence == old(e).confidence,
        final(e).needs_review == old(e).needs_review,
{
    let mut old_items: Vec<InvoiceItemExtraction> = Vec::new();
    std::mem::swap(&mut old_items, &mut e.items);
    let mut kept: Vec<InvoiceItemExtraction> = Vec::new();
    let mut i: usize = 0;
    while i < old_items.len()
        invariant
            i <= old_items.len(),
            items_view(kept@) == kept_items(items_view(old_items@).take(i as int)),
        decreases old_items.len() - i,
    {
        let c = clean_item_exec(&old_items[i]);
        let ghost t = items_view(old_items@).take(i as int + 1);
        assert(t.drop_last() =~= items_view(old_items@).take(i as int));
        assert(t.last() == item_view(old_items@[i as int]));
        if has_meaningful_item_data(&c) {
            let ghost before = kept@;
            kept.push(c);
            assert(items_view(kept@) =~= items_view(before).push(item_view(c)));
        }
        i += 1;
    }
    assert(items_view(old_items@).take(old_items.len() as int) =~= items_view(old_items@));
    e.items = kept;
}

/// The checks after cleaning, given whether the cleaned issue date parses:
/// refuses the extraction as `refusal_spec` says, or cleans its items.
pub fn finish_normalization(e: &mut InvoiceExtraction, issue_date_ok: bool) -> (r: Result<
    (),
    ExtractorError,
>)
    requires
        old(e).is_invoice,
    ensures
        ({
            let refusal = refusal_spec(
                true,
                ostr(old(e).issue_date),
                issue_date_ok,
                old(e).confidence,
                old(e).needs_review,
            );
            match r {
                Ok(()) => refusal is None && items_view(final(e).items@) == kept_items(
                    items_view(old(e).items@),
                ),
                Err(err) => refusal is Some && error_refusal(err) == refusal && final(e).items
                    == old(e).items,
            }
        }),
        header_view(*final(e)) == header_view(*old(e)),
        r matches Err(ExtractorError::InvalidIssueDate(d)) ==> Some(d@) == ostr(old(e).issue_date),
        final(e).is_invoice == old(e).is_invoice,
        final(e).confidence == old(e).confidence,
        final(e).needs_review == old(e).needs_review,
{
    match &e.issue_date {
        Some(d) => {
            if !issue_date_ok {
                return Err(ExtractorError::InvalidIssueDate(d.clone()));
            }
        },
        None => {},
    }
    match e.confidence {
        Some(ConfidenceBand::OutOfRange) => {
            return Err(ExtractorError::InvalidConfidence);
        },
        _ => {},
    }
    let review = match e.needs_review {
        Some(b) => b,
        None => true,
    };
    let sufficient = match e.confidence {
        Some(ConfidenceBand::Sufficient) => true,
        _ => false,
    };
    if review || !sufficient {
        return Err(ExtractorError::LowConfidence);
    }
    clean_items(e);
    Ok(())
}

/// Normalizes an extraction before it is stored.  It is refused when it is
/// not an invoice, when its cleaned issue date is not a `YYYY-MM-DD` date,
/// when its confidence is out of range, or when it asks for review, states
/// no confidence or one below the threshold; otherwise its text fields are
/// cleaned, the currency defaults to `CNY`, and its items are cleaned with
/// the empty ones dropped.
pub fn normalize_extraction(e: &mut InvoiceExtraction) -> (r: Result<(), ExtractorError>)
    ensures
        ({
            let h = cleaned_header(header_view(*old(e)));
            let date_ok = match h.issue_date {
                Some(d) => ymd_date_accepted(d),
                None => true,
            };
            let refusal = refusal_spec(
                old(e).is_invoice,
                h.issue_date,
                date_ok,
                old(e).confidence,
                old(e).needs_review,
            );
            &&& match r {
                Ok(()) => refusal is None && items_view(final(e).items@) == kept_items(
                    items_view(old(e).items@),
                ),
                Err(err) => refusal is Some && error_refusal(err) == refusal && final(e).items
                    == old(e).items,
            }
            &&& old(e).is_invoice ==> header_view(*final(e)) == h
            &&& !old(e).is_invoice ==> header_view(*final(e)) == header_view(*old(e))
            &&& r matches Err(ExtractorError::InvalidIssueDate(d)) ==> Some(d@) == h.issue_date
        }),
{
    if !e.is_invoice {
        return Err(ExtractorError::NonInvoice);
    }
    clean_header_fields(e);
    let date_ok = match &e.issue_date {
        Some(d) => parses_as_ymd_date(d.as_str()),
        None => true,
    };
    finish_normalization(e, date_ok)
}

/// Every item kept after normalization carries data, and no item is added.
pub proof fn law_kept_items_meaningful(v: Seq<ItemView>)
    ensures
        forall|k: int| 0 <= k < kept_items(v).len() ==> meaningful(#[trigger] kept_items(v)[k]),
        kept_items(v).len() <= v.len(),
    decreases v.len(),
{
    if v.len() > 0 {
        law_kept_items_meaningful(v.drop_last());
    }
}

// ---------------------------------------------------------------------------
// Validating manual edits
// ---------------------------------------------------------------------------

pub struct FieldError {
    pub field: String,
    pub message: String,
}

pub open spec fn valid_status(s: Seq<char>) -> bool {
    s == "pending_confirmation"@ || s == "recognized"@ || s == "reviewed"@ || s == "flagged"@
}

/// The fields of an edit that are refused, in order: a non-empty issue date
/// that does not parse, a non-empty status outside the known ones, a
/// confidence out of range.
pub open spec fn field_errors_spec(
    issue_date: Option<Option<Seq<char>>>,
    date_ok: bool,
    status: Option<Option<Seq<char>>>,
    confidence: Option<Option<ConfidenceBand>>,
) -> Seq<(Seq<char>, Seq<char>)> {
    let a: Seq<(Seq<char>, Seq<char>)> = match issue_date {
        Some(Some(d)) => if d.len() > 0 && !date_ok {
            seq![("issue_date"@, "日期格式必须为 YYYY-MM-DD"@)]
        } else {
            Seq::empty()
        },
        _ => Seq::empty(),
    };
    let b = match status {
        Some(Some(s)) => if s.len() > 0 && !valid_status(s) {
            a.push(
                (
                    "status"@,
                    "状态值无效，允许的值: [\"pending_confirmation\", \"recognized\", \"reviewed\", \"flagged\"]"@,
                ),
            )
        } else {
            a
        },
        _ => a,
    };
    match confidence {
        Some(Some(ConfidenceBand::OutOfRange)) => b.push(("confidence"@, "置信度必须在 0 到 1 之间"@)),
        _ => b,
    }
}

pub open spec fn field_errors_view(v: Seq<FieldError>) -> Seq<(Seq<char>, Seq<char>)> {
    v.map_values(|f: FieldError| (f.field@, f.message@))
}

pub open spec fn oostr(o: Option<Option<String>>) -> Option<Option<Seq<char>>> {
    match o {
        Some(Some(s)) => Some(Some(s@)),
        Some(None) => Some(None),
        None => None,
    }
}

/// The validation of an edit, given whether its issue date parses.
pub fn field_errors(
    issue_date: &Option<Option<String>>,
    issue_date_ok: bool,
    status: &Option<Option<String>>,
    confidence: Option<Option<ConfidenceBand>>,
) -> (r: Vec<FieldError>)
    ensures
        field_errors_view(r@) == field_errors_spec(
            oostr(*issue_date),
            issue_date_ok,
            oostr(*status),
            confidence,
        ),
{
    let mut errors: Vec<FieldError> = Vec::new();
    match issue_date {
        Some(Some(d)) => {
            let dc = chars_of(d.as_str());
            if dc.len() > 0 && !issue_date_ok {
                errors.push(
                    FieldError {
                        field: "issue_date".to_owned(),
                        message: "日期格式必须为 YYYY-MM-DD".to_owned(),
                    },
                );
            }
        },
        _ => {},
    }
    let ghost a = errors@;
    match status {
        Some(Some(s)) => {
            let sc = chars_of(s.as_str());
            let valid = chars_eq_str(&sc, "pending_confirmation") || chars_eq_str(&sc, "recognized")
                || chars_eq_str(&sc, "reviewed") || chars_eq_str(&sc, "flagged");
            if sc.len() > 0 && !valid {
                errors.push(
                    FieldError {
                        field: "status".to_owned(),
                        message: "状态值无效，允许的值: [\"pending_confirmation\", \"recognized\", \"reviewed\", \"flagged\"]".to_owned(),
                    },
                );
            }
        },
        _ => {},
    }
    match confidence {
        Some(Some(ConfidenceBand::OutOfRange)) => {
            errors.push(
                FieldError {
                    field: "confidence".to_owned(),
                    message: "置信度必须在 0 到 1 之间".to_owned(),
                },
            );
        },
        _ => {},
    }
    assert(field_errors_view(errors@) =~= field_errors_spec(
        oostr(*issue_date),
        issue_date_ok,
        oostr(*status),
        confidence,
    ));
    errors
}

/// Validates the issue date, status and confidence of a manual edit; the
/// issue date is checked with chrono's `%Y-%m-%d` parser.
pub fn validate_invoice_fields(
    issue_date: &Option<Option<String>>,
    status: &Option<Option<String>>,
    confidence: Option<Option<ConfidenceBand>>,
) -> (r: Vec<FieldError>)
    ensures
        field_errors_view(r@) == field_errors_spec(
            oostr(*issue_date),
            match oostr(*issue_date) {
                Some(Some(d)) => ymd_date_accepted(d),
                _ => true,
            },
            oostr(*status),
            confidence,
        ),
{
    let ok = match issue_date {
        Some(Some(d)) => parses_as_ymd_date(d.as_str()),
        _ => true,
    };
    field_errors(issue_date, ok, status, confidence)
}

// ---------------------------------------------------------------------------
// Storing extractions
// ---------------------------------------------------------------------------

/// The provider, model and response summary recorded with an extraction:
/// the provider `manual` and the model `unknown` when none is named, the
/// response cut to 500 characters.
pub fn extraction_run_fields(provider_name: Option<String>, model: Option<String>, response_json: &str) -> (r: (
    String,
    String,
    String,
))
    ensures
        r.0@ == match clean_spec(ostr(provider_name)) {
            Some(p) => p,
            None => "manual"@,
        },
        r.1@ == match clean_spec(ostr(model)) {
            Some(m) => m,
            None => "unknown"@,
        },
        r.2@ == crate::llm::truncate_spec(response_json@, 500),
{
    let p = match clean_optional(provider_name) {
        Some(p) => p,
        None => "manual".to_owned(),
    };
    let m = match clean_optional(model) {
        Some(m) => m,
        None => "unknown".to_owned(),
    };
    (p, m, crate::llm::truncate(response_json, 500))
}

/// The name stored for a line item: its own, or `未命名明细`.
pub fn item_insert_name(name: &Option<String>) -> (r: String)
    ensures
        r@ == match ostr(*name) {
            Some(n) => n,
            None => "未命名明细"@,
        },
{
    match name {
        Some(n) => n.clone(),
        None => "未命名明细".to_owned(),
    }
}

// ---------------------------------------------------------------------------
// Edits of line items and batch updates
// ---------------------------------------------------------------------------

pub struct InvoiceItemRow {
    pub id: i64,
    pub name: String,
    pub specification: Option<String>,
    pub unit: Option<String>,
    pub quantity: Option<String>,
    pub unit_price: Option<String>,
    pub amount: Option<String>,
    pub tax_rate: Option<String>,
    pub tax_amount: Option<String>,
}

/// One edit of an invoice's line items.
pub enum InvoiceItemChange {
    Add {
        name: String,
        specification: Option<String>,
        unit: Option<String>,
        quantity: Option<String>,
        unit_price: Option<String>,
        amount: Option<String>,
        tax_rate: Option<String>,
        tax_amount: Option<String>,
    },
    Update {
        id: i64,
        name: Option<String>,
        specification: Option<String>,
        unit: Option<String>,
        quantity: Option<String>,
        unit_price: Option<String>,
        amount: Option<String>,
        tax_rate: Option<String>,
        tax_amount: Option<String>,
    },
    Delete { id: i64 },
}

pub struct UpdateInvoiceItemsRequest {
    pub invoice_id: i64,
    pub items: Vec<InvoiceItemChange>,
}

pub open spec fn text_or_null(o: Option<Seq<char>>) -> SqlValueView {
    match o {
        Some(s) => SqlValueView::Text(s),
        None => SqlValueView::Null,
    }
}

fn value_of(o: &Option<String>) -> (r: SqlValue)
    ensures
        r@ == text_or_null(ostr(*o)),
{
    match o {
        Some(s) => SqlValue::Text(s.clone()),
        None => SqlValue::Null,
    }
}

/// Adds `col = ?n` for a present value.
pub open spec fn add_set(
    st: (Seq<Seq<char>>, Seq<SqlValueView>),
    col: Seq<char>,
    v: Option<Seq<char>>,
) -> (Seq<Seq<char>>, Seq<SqlValueView>) {
    match v {
        Some(x) => (
            st.0.push(numbered(col + " = ?"@, st.1.len() + 1, Seq::empty())),
            st.1.push(SqlValueView::Text(x)),
        ),
        None => st,
    }
}

pub open spec fn item_update_sets(
    name: Option<Seq<char>>,
    specification: Option<Seq<char>>,
    unit: Option<Seq<char>>,
    quantity: Option<Seq<char>>,
    unit_price: Option<Seq<char>>,
    amount: Option<Seq<char>>,
    tax_rate: Option<Seq<char>>,
    tax_amount: Option<Seq<char>>,
) -> (Seq<Seq<char>>, Seq<SqlValueView>) {
    let s0 = add_set((Seq::empty(), Seq::empty()), "name"@, name);
    let s1 = add_set(s0, "specification"@, specification);
    let s2 = add_set(s1, "unit"@, unit);
    let s3 = add_set(s2, "quantity"@, quantity);
    let s4 = add_set(s3, "unit_price"@, unit_price);
    let s5 = add_set(s4, "amount"@, amount);
    let s6 = add_set(s5, "tax_rate"@, tax_rate);
    add_set(s6, "tax_amount"@, tax_amount)
}

fn push_set(sets: &mut Vec<String>, values: &mut Vec<SqlValue>, col: &str, v: &Option<String>)
    requires
        old(values).len() < 100,
    ensures
        (string_views(final(sets)@), values_view(final(values)@)) == add_set(
            (string_views(old(sets)@), values_view(old(values)@)),
            col@,
            ostr(*v),
        ),
        final(values).len() <= old(values).len() + 1,
{
    match v {
        Some(x) => {
            let ghost s0 = sets@;
            let ghost v0 = values@;
            let mut p: Vec<char> = Vec::new();
            push_str(&mut p, col);
            push_str(&mut p, " = ?");
            let ps = string_from_chars(p.as_slice());
            let clause = numbered_text(ps.as_str(), values.len() + 1, "");
            sets.push(clause);
            values.push(SqlValue::Text(x.clone()));
            assert(string_views(sets@) =~= string_views(s0).push(clause@));
            assert(values_view(values@) =~= values_view(v0).push(SqlValueView::Text(x@)));
            assert(""@ =~= Seq::<char>::empty()) by {
                reveal_strlit("");
            }
        },
        None => {},
    }
}

/// The statement that applies one edit of a line item of `invoice_id`: an
/// insert, an update of the given fields (none when no field is given), or
/// a delete; updates and deletes touch only items of that invoice.
pub fn item_change_statement(invoice_id: i64, change: &InvoiceItemChange) -> (r: Option<SqlQuery>)
    ensures
        match change {
            InvoiceItemChange::Add {
                name,
                specification,
                unit,
                quantity,
                unit_price,
                amount,
                tax_rate,
                tax_amount,
            } => r matches Some(q) && q.sql@
                == "INSERT INTO invoice_items (invoice_id, name, specification, unit, quantity, unit_price, amount, tax_rate, tax_amount) VALUES (?1, ?2, ?3, ?4, ?5, ?6, ?7, ?8, ?9)"@
                && values_view(q.params@) == seq![
                SqlValueView::Integer(invoice_id as int),
                SqlValueView::Text(name@),
                text_or_null(ostr(*specification)),
                text_or_null(ostr(*unit)),
                text_or_null(ostr(*quantity)),
                text_or_null(ostr(*unit_price)),
                text_or_null(ostr(*amount)),
                text_or_null(ostr(*tax_rate)),
                text_or_null(ostr(*tax_amount)),
            ],
            InvoiceItemChange::Update {
                id,
                name,
                specification,
                unit,
                quantity,
                unit_price,
                amount,
                tax_rate,
                tax_amount,
            } => {
                let sets = item_update_sets(
                    ostr(*name),
                    ostr(*specification),
                    ostr(*unit),
                    ostr(*quantity),
                    ostr(*unit_price),
                    ostr(*amount),
                    ostr(*tax_rate),
                    ostr(*tax_amount),
                );
                if sets.0.len() == 0 {
                    r is None
                } else {
                    r matches Some(q) && q.sql@ == "UPDATE invoice_items SET "@ + join(sets.0, ", "@)
                        + " WHERE id = ?"@ + crate::text::dec(sets.1.len() + 1) + " AND invoice_id = ?"@
                        + crate::text::dec(sets.1.len() + 2) && values_view(q.params@) == sets.1.push(
                        SqlValueView::Integer(*id as int),
                    ).push(SqlValueView::Integer(invoice_id as int))
                }
            },
            InvoiceItemChange::Delete { id } => r matches Some(q) && q.sql@
                == "DELETE FROM invoice_items WHERE id = ?1 AND invoice_id = ?2"@ && values_view(
                q.params@,
            ) == seq![SqlValueView::Integer(*id as int), SqlValueView::Integer(invoice_id as int)],
        },
{
    match change {
        InvoiceItemChange::Add {
            name,
            specification,
            unit,
            quantity,
            unit_price,
            amount,
            tax_rate,
            tax_amount,
        } => {
            let mut params: Vec<SqlValue> = Vec::new();
            params.push(SqlValue::Integer(invoice_id));
            params.push(SqlValue::Text(name.clone()));
            params.push(value_of(specification));
            params.push(value_of(unit));
            params.push(value_of(quantity));
            params.push(value_of(unit_price));
            params.push(value_of(amount));
            params.push(value_of(tax_rate));
            params.push(value_of(tax_amount));
            assert(values_view(params@) =~= seq![
                SqlValueView::Integer(invoice_id as int),
                SqlValueView::Text(name@),
                text_or_null(ostr(*specification)),
                text_or_null(ostr(*unit)),
                text_or_null(ostr(*quantity)),
                text_or_null(ostr(*unit_price)),
                text_or_null(ostr(*amount)),
                text_or_null(ostr(*tax_rate)),
                text_or_null(ostr(*tax_amount)),
            ]);
            Some(
                SqlQuery {
                    sql: "INSERT INTO invoice_items (invoice_id, name, specification, unit, quantity, unit_price, amount, tax_rate, tax_amount) VALUES (?1, ?2, ?3, ?4, ?5, ?6, ?7, ?8, ?9)".to_owned(),
                    params,
                },
            )
        },
        InvoiceItemChange::Update {
            id,
            name,
            specification,
            unit,
            quantity,
            unit_price,
            amount,
            tax_rate,
            tax_amount,
        } => {
            let mut sets: Vec<String> = Vec::new();
            let mut values: Vec<SqlValue> = Vec::new();
            assert(string_views(sets@) =~= Seq::<Seq<char>>::empty());
            assert(values_view(values@) =~= Seq::<SqlValueView>::empty());
            push_set(&mut sets, &mut values, "name", name);
            push_set(&mut sets, &mut values, "specification", specification);
            push_set(&mut sets, &mut values, "unit", unit);
            push_set(&mut sets, &mut values, "quantity", quantity);
            push_set(&mut sets, &mut values, "unit_price", unit_price);
            push_set(&mut sets, &mut values, "amount", amount);
            push_set(&mut sets, &mut values, "tax_rate", tax_rate);
            push_set(&mut sets, &mut values, "tax_amount", tax_amount);
            if sets.len() == 0 {
                return None;
            }
            let mut sql: Vec<char> = Vec::new();
            push_str(&mut sql, "UPDATE invoice_items SET ");
            let j = join_strings(&sets, ", ");
            push_str(&mut sql, j.as_str());
            push_str(&mut sql, " WHERE id = ?");
            push_usize(&mut sql, values.len() + 1);
            push_str(&mut sql, " AND invoice_id = ?");
            push_usize(&mut sql, values.len() + 2);
            values.push(SqlValue::Integer(*id));
            values.push(SqlValue::Integer(invoice_id));
            Some(SqlQuery { sql: string_from_chars(sql.as_slice()), params: values })
        },
        InvoiceItemChange::Delete { id } => {
            let mut params: Vec<SqlValue> = Vec::new();
            params.push(SqlValue::Integer(*id));
            params.push(SqlValue::Integer(invoice_id));
            assert(values_view(params@) =~= seq![
                SqlValueView::Integer(*id as int),
                SqlValueView::Integer(invoice_id as int),
            ]);
            Some(
                SqlQuery {
                    sql: "DELETE FROM invoice_items WHERE id = ?1 AND invoice_id = ?2".to_owned(),
                    params,
                },
            )
        },
    }
}

pub struct BatchUpdateRequest {
    pub ids: Vec<i64>,
    pub status: Option<String>,
    pub category: Option<String>,
}

/// The ids of a batch, as the decimal texts joined by `,`.
pub open spec fn id_list_spec(ids: Seq<i64>) -> Seq<char> {
    join(ids.map_values(|i: i64| dec_int(i as int)), ","@)
}

pub fn id_list(ids: &[i64]) -> (r: String)
    ensures
        r@ == id_list_spec(ids@),
{
    let mut parts: Vec<String> = Vec::new();
    let mut i: usize = 0;
    while i < ids.len()
        invariant
            i <= ids.len(),
            string_views(parts@) =~= ids@.take(i as int).map_values(|x: i64| dec_int(x as int)),
        decreases ids.len() - i,
    {
        let mut c: Vec<char> = Vec::new();
        push_i64(&mut c, ids[i]);
        let ghost before = parts@;
        parts.push(string_from_chars(c.as_slice()));
        assert(string_views(parts@) =~= string_views(before).push(dec_int(ids@[i as int] as int)));
        assert(ids@.take(i as int + 1) =~= ids@.take(i as int).push(ids@[i as int]));
        i += 1;
    }
    assert(ids@.take(ids.len() as int) =~= ids@);
    join_strings(&parts, ",")
}

/// The updates of a batch: the status, then the category, each for all the
/// ids; nothing for an empty batch.
pub fn batch_update_statements(request: &BatchUpdateRequest) -> (r: Vec<SqlQuery>)
    ensures
        request.ids.len() == 0 ==> r.len() == 0,
        request.ids.len() > 0 ==> r.len() == (if request.status is Some { 1int } else { 0 }) + (
        if request.category is Some { 1int } else { 0 }),
        request.ids.len() > 0 && request.status is Some ==> r@[0].sql@
            == "UPDATE invoices SET status = ?1 WHERE id IN ("@ + id_list_spec(request.ids@) + ")"@
            && values_view(r@[0].params@) == seq![SqlValueView::Text(request.status->0@)],
        request.ids.len() > 0 && request.category is Some ==> ({
            let k = if request.status is Some { 1int } else { 0int };
            r@[k].sql@ == "UPDATE invoices SET category = ?1 WHERE id IN ("@ + id_list_spec(
                request.ids@,
            ) + ")"@ && values_view(r@[k].params@) == seq![SqlValueView::Text(request.category->0@)]
        }),
{
    let mut r: Vec<SqlQuery> = Vec::new();
    if request.ids.len() == 0 {
        return r;
    }
    let ids = id_list(request.ids.as_slice());
    match &request.status {
        Some(s) => {
            let mut sql: Vec<char> = Vec::new();
            push_str(&mut sql, "UPDATE invoices SET status = ?1 WHERE id IN (");
            push_str(&mut sql, ids.as_str());
            push_str(&mut sql, ")");
            let mut params: Vec<SqlValue> = Vec::new();
            params.push(SqlValue::Text(s.clone()));
            assert(values_view(params@) =~= seq![SqlValueView::Text(s@)]);
            r.push(SqlQuery { sql: string_from_chars(sql.as_slice()), params });
        },
        None => {},
    }
    match &request.category {
        Some(c) => {
            let mut sql: Vec<char> = Vec::new();
            push_str(&mut sql, "UPDATE invoices SET category = ?1 WHERE id IN (");
            push_str(&mut sql, ids.as_str());
            push_str(&mut sql, ")");
            let mut params: Vec<SqlValue> = Vec::new();
            params.push(SqlValue::Text(c.clone()));
            assert(values_view(params@) =~= seq![SqlValueView::Text(c@)]);
            r.push(SqlQuery { sql: string_from_chars(sql.as_slice()), params });
        },
        None => {},
    }
    r
}

// ---------------------------------------------------------------------------
// Storing an accepted extraction
// ---------------------------------------------------------------------------

/// The statement that stores an invoice; its confidence is bound by the
/// caller as `?18`, after the values of `?1` to `?17`.
pub open spec fn invoice_insert_sql() -> Seq<char> {
    "INSERT INTO invoices (raw_file_id, invoice_type, invoice_code, invoice_number, issue_date, seller_name, seller_tax_id, buyer_name, buyer_tax_id, currency, amount_without_tax, tax_amount, total_amount, category, remarks, source_page_range, status, confidence, duplicate_status) VALUES (?1, ?2, ?3, ?4, ?5, ?6, ?7, ?8, ?9, ?10, ?11, ?12, ?13, ?14, ?15, ?16, ?17, ?18, 'unknown')"@
}

pub open spec fn invoice_insert_values(raw_file_id: i64, page_range: Option<Seq<char>>, e: InvoiceExtraction) -> Seq<
    SqlValueView,
> {
    seq![
        SqlValueView::Integer(raw_file_id as int),
        text_or_null(ostr(e.invoice_type)),
        text_or_null(ostr(e.invoice_code)),
        text_or_null(ostr(e.invoice_number)),
        text_or_null(ostr(e.issue_date)),
        text_or_null(ostr(e.seller.name)),
        text_or_null(ostr(e.seller.tax_id)),
        text_or_null(ostr(e.buyer.name)),
        text_or_null(ostr(e.buyer.tax_id)),
        SqlValueView::Text(
            match ostr(e.currency) {
                Some(c) => c,
                None => "CNY"@,
            },
        ),
        text_or_null(ostr(e.amount_without_tax)),
        text_or_null(ostr(e.tax_amount)),
        text_or_null(ostr(e.total_amount)),
        text_or_null(ostr(e.category)),
        text_or_null(ostr(e.remarks)),
        text_or_null(page_range),
        SqlValueView::Text("recognized"@),
    ]
}

/// Stores an accepted extraction as a recognized invoice of the raw file,
/// with `CNY` when no currency was read and its duplicate status not yet
/// known.
pub fn invoice_insert(raw_file_id: i64, source_page_range: Option<&str>, e: &InvoiceExtraction) -> (r: SqlQuery)
    ensures
        r.sql@ == invoice_insert_sql(),
        values_view(r.params@) == invoice_insert_values(
            raw_file_id,
            crate::search::opt_str_view(source_page_range),
            *e,
        ),
{
    let currency = match &e.currency {
        Some(c) => c.clone(),
        None => "CNY".to_owned(),
    };
    let page = match source_page_range {
        Some(p) => SqlValue::Text(p.to_owned()),
        None => SqlValue::Null,
    };
    let params: Vec<SqlValue> = vec![
        SqlValue::Integer(raw_file_id),
        value_of(&e.invoice_type),
        value_of(&e.invoice_code),
        value_of(&e.invoice_number),
        value_of(&e.issue_date),
        value_of(&e.seller.name),
        value_of(&e.seller.tax_id),
        value_of(&e.buyer.name),
        value_of(&e.buyer.tax_id),
        SqlValue::Text(currency),
        value_of(&e.amount_without_tax),
        value_of(&e.tax_amount),
        value_of(&e.total_amount),
        value_of(&e.category),
        value_of(&e.remarks),
        page,
        SqlValue::Text("recognized".to_owned()),
    ];
    proof {
        assert(values_view(params@) =~= invoice_insert_values(
            raw_file_id,
            crate::search::opt_str_view(source_page_range),
            *e,
        ));
    }
    SqlQuery {
        sql: "INSERT INTO invoices (raw_file_id, invoice_type, invoice_code, invoice_number, issue_date, seller_name, seller_tax_id, buyer_name, buyer_tax_id, currency, amount_without_tax, tax_amount, total_amount, category, remarks, source_page_range, status, confidence, duplicate_status) VALUES (?1, ?2, ?3, ?4, ?5, ?6, ?7, ?8, ?9, ?10, ?11, ?12, ?13, ?14, ?15, ?16, ?17, ?18, 'unknown')".to_owned(),
        params,
    }
}

pub open spec fn item_insert_sql() -> Seq<char> {
    "INSERT INTO invoice_items (invoice_id, name, specification, unit, quantity, unit_price, amount, tax_rate, tax_amount) VALUES (?1, ?2, ?3, ?4, ?5, ?6, ?7, ?8, ?9)"@
}

/// Stores a line item of an invoice, named `未命名明细` when it has no name.
pub fn item_insert(invoice_id: i64, item: &InvoiceItemExtraction) -> (r: SqlQuery)
    ensures
        r.sql@ == item_insert_sql(),
        values_view(r.params@) == seq![
            SqlValueView::Integer(invoice_id as int),
            SqlValueView::Text(
                match ostr(item.name) {
                    Some(n) => n,
                    None => "未命名明细"@,
                },
            ),
            text_or_null(ostr(item.spec)),
            text_or_null(ostr(item.unit)),
            text_or_null(ostr(item.quantity)),
            text_or_null(ostr(item.unit_price)),
            text_or_null(ostr(item.amount)),
            text_or_null(ostr(item.tax_rate)),
            text_or_null(ostr(item.tax_amount)),
        ],
{
    let params: Vec<SqlValue> = vec![
        SqlValue::Integer(invoice_id),
        SqlValue::Text(item_insert_name(&item.name)),
        value_of(&item.spec),
        value_of(&item.unit),
        value_of(&item.quantity),
        value_of(&item.unit_price),
        value_of(&item.amount),
        value_of(&item.tax_rate),
        value_of(&item.tax_amount),
    ];
    SqlQuery {
        sql: "INSERT INTO invoice_items (invoice_id, name, specification, unit, quantity, unit_price, amount, tax_rate, tax_amount) VALUES (?1, ?2, ?3, ?4, ?5, ?6, ?7, ?8, ?9)".to_owned(),
        params,
    }
}

pub open spec fn extraction_run_sql() -> Seq<char> {
    "INSERT INTO extraction_runs (raw_file_id, invoice_id, provider_name, model, status, request_started_at, response_summary) VALUES (?1, ?2, ?3, ?4, 'completed', CURRENT_TIMESTAMP, ?5)"@
}

/// Records the recognition that produced an invoice: provider `manual` and
/// model `unknown` when none is named, the answer cut to 500 characters.
pub fn extraction_run_insert(
    raw_file_id: i64,
    invoice_id: i64,
    provider_name: Option<String>,
    model: Option<String>,
    response_json: &str,
) -> (r: SqlQuery)
    ensures
        r.sql@ == extraction_run_sql(),
        values_view(r.params@) == seq![
            SqlValueView::Integer(raw_file_id as int),
            SqlValueView::Integer(invoice_id as int),
            SqlValueView::Text(
                match clean_spec(ostr(provider_name)) {
                    Some(p) => p,
                    None => "manual"@,
                },
            ),
            SqlValueView::Text(
                match clean_spec(ostr(model)) {
                    Some(m) => m,
                    None => "unknown"@,
                },
            ),
            SqlValueView::Text(crate::llm::truncate_spec(response_json@, 500)),
        ],
{
    let (p, m, summary) = extraction_run_fields(provider_name, model, response_json);
    let params: Vec<SqlValue> = vec![
        SqlValue::Integer(raw_file_id),
        SqlValue::Integer(invoice_id),
        SqlValue::Text(p),
        SqlValue::Text(m),
        SqlValue::Text(summary),
    ];
    SqlQuery {
        sql: "INSERT INTO extraction_runs (raw_file_id, invoice_id, provider_name, model, status, request_started_at, response_summary) VALUES (?1, ?2, ?3, ?4, 'completed', CURRENT_TIMESTAMP, ?5)".to_owned(),
        params,
    }
}

// ---------------------------------------------------------------------------
// The text embedded for semantic search
// ---------------------------------------------------------------------------

/// The fields of an invoice that its embedding text is made of.
pub struct InvoiceEmbeddingFields {
    pub invoice_type: Option<String>,
    pub seller_name: Option<String>,
    pub buyer_name: Option<String>,
    pub total_amount: Option<String>,
    pub category: Option<String>,
    pub remarks: Option<String>,
    pub items: Vec<InvoiceItemRow>,
}

/// The number of bytes of a character in UTF-8.
pub open spec fn utf8_len(c: char) -> nat {
    if (c as u32) < 0x80 {
        1
    } else if (c as u32) < 0x800 {
        2
    } else if (c as u32) < 0x10000 {
        3
    } else {
        4
    }
}

/// The number of bytes of a text in UTF-8.
pub open spec fn byte_len(s: Seq<char>) -> nat
    decreases s.len(),
{
    if s.len() == 0 {
        0
    } else {
        byte_len(s.drop_last()) + utf8_len(s.last())
    }
}

/// The number of characters whose bytes end exactly at byte `n`, searching
/// from character `k`; none when byte `n` falls inside a character.
pub open spec fn boundary_from(s: Seq<char>, n: nat, k: int) -> Option<int>
    decreases s.len() - k,
{
    if k < 0 || k > s.len() {
        None
    } else if byte_len(s.take(k)) == n {
        Some(k)
    } else if byte_len(s.take(k)) > n || k == s.len() {
        None
    } else {
        boundary_from(s, n, k + 1)
    }
}

/// Cutting the text at byte `n` is possible: it is no longer than `n`
/// bytes, or byte `n` starts a character.
pub open spec fn cut_ok(s: Seq<char>, n: nat) -> bool {
    byte_len(s) <= n || boundary_from(s, n, 0) is Some
}

/// The first `n` bytes of the text.
pub open spec fn cut_bytes(s: Seq<char>, n: nat) -> Seq<char> {
    if byte_len(s) <= n {
        s
    } else {
        match boundary_from(s, n, 0) {
            Some(k) => s.take(k),
            None => s,
        }
    }
}

pub open spec fn labelled(label: Seq<char>, o: Option<Seq<char>>) -> Seq<Seq<char>> {
    match o {
        Some(v) => seq![label + v],
        None => Seq::empty(),
    }
}

pub open spec fn item_names(items: Seq<InvoiceItemRow>) -> Seq<Seq<char>> {
    items.map_values(|i: InvoiceItemRow| i.name@)
}

/// The labelled parts: type, seller, buyer, amount, category, the item names
/// joined by commas, and the remarks when not empty.
pub open spec fn embedding_parts(f: InvoiceEmbeddingFields) -> Seq<Seq<char>> {
    labelled("类型:"@, ostr(f.invoice_type)) + labelled("卖方:"@, ostr(f.seller_name)) + labelled(
        "买方:"@,
        ostr(f.buyer_name),
    ) + labelled("金额:"@, ostr(f.total_amount)) + labelled("类别:"@, ostr(f.category)) + (if f.items.len()
        > 0 {
        seq!["项目:"@ + join(item_names(f.items@), ","@)]
    } else {
        Seq::empty()
    }) + (match ostr(f.remarks) {
        Some(r) => if r.len() > 0 {
            seq!["备注:"@ + r]
        } else {
            Seq::empty()
        },
        None => Seq::empty(),
    })
}

/// The parts joined by spaces.
pub open spec fn embedding_text_spec(f: InvoiceEmbeddingFields) -> Seq<char> {
    join(embedding_parts(f), " "@)
}

/// The longest embedding text, in bytes.
pub const EMBEDDING_TEXT_MAX_BYTES: usize = 8192;

fn push_labelled(parts: &mut Vec<String>, label: &str, value: &Option<String>)
    ensures
        string_views(final(parts)@) == string_views(old(parts)@) + labelled(label@, ostr(*value)),
{
    match value {
        Some(v) => {
            let mut c: Vec<char> = Vec::new();
            push_str(&mut c, label);
            push_str(&mut c, v.as_str());
            let ghost before = parts@;
            parts.push(string_from_chars(c.as_slice()));
            assert(string_views(parts@) =~= string_views(before) + labelled(label@, ostr(*value)));
        },
        None => {
            assert(string_views(parts@) =~= string_views(parts@) + labelled(label@, ostr(*value)));
        },
    }
}

/// The embedding text of an invoice before it is cut to length.
pub fn embedding_text_full(fields: &InvoiceEmbeddingFields) -> (r: String)
    ensures
        r@ == embedding_text_spec(*fields),
{
    let mut parts: Vec<String> = Vec::new();
    push_labelled(&mut parts, "类型:", &fields.invoice_type);
    push_labelled(&mut parts, "卖方:", &fields.seller_name);
    push_labelled(&mut parts, "买方:", &fields.buyer_name);
    push_labelled(&mut parts, "金额:", &fields.total_amount);
    push_labelled(&mut parts, "类别:", &fields.category);
    let ghost head = string_views(parts@);
    if fields.items.len() > 0 {
        let mut names: Vec<String> = Vec::new();
        let mut i: usize = 0;
        while i < fields.items.len()
            invariant
                i <= fields.items.len(),
                string_views(names@) =~= item_names(fields.items@).take(i as int),
            decreases fields.items.len() - i,
        {
            let ghost before = names@;
            names.push(fields.items[i].name.clone());
            assert(string_views(names@) =~= string_views(before).push(fields.items@[i as int].name@));
            assert(item_names(fields.items@).take(i + 1) =~= item_names(fields.items@).take(i as int).push(
                fields.items@[i as int].name@,
            ));
            i = i + 1;
        }
        assert(item_names(fields.items@).take(fields.items.len() as int) =~= item_names(fields.items@));
        let joined = join_strings(&names, ",");
        let mut c: Vec<char> = Vec::new();
        push_str(&mut c, "项目:");
        push_str(&mut c, joined.as_str());
        parts.push(string_from_chars(c.as_slice()));
    }
    let ghost mid = string_views(parts@);
    assert(mid =~= head + (if fields.items.len() > 0 {
        seq!["项目:"@ + join(item_names(fields.items@), ","@)]
    } else {
        Seq::<Seq<char>>::empty()
    }));
    match &fields.remarks {
        Some(r) => {
            if !r.as_str().is_empty() {
                let mut c: Vec<char> = Vec::new();
                push_str(&mut c, "备注:");
                push_str(&mut c, r.as_str());
                parts.push(string_from_chars(c.as_slice()));
            }
        },
        None => {},
    }
    assert(string_views(parts@) =~= embedding_parts(*fields));
    join_strings(&parts, " ")
}

proof fn lemma_byte_len_push(s: Seq<char>, i: int)
    requires
        0 <= i < s.len(),
    ensures
        byte_len(s.take(i + 1)) == byte_len(s.take(i)) + utf8_len(s[i]),
{
    assert(s.take(i + 1).drop_last() =~= s.take(i));
}

proof fn lemma_boundary_skip(s: Seq<char>, n: nat, k: int)
    requires
        0 <= k <= s.len(),
        forall|j: int| 0 <= j < k ==> byte_len(#[trigger] s.take(j)) < n,
    ensures
        boundary_from(s, n, 0) == boundary_from(s, n, k),
    decreases k,
{
    if k > 0 {
        assert(byte_len(s.take(k - 1)) < n);
        lemma_boundary_skip(s, n, k - 1);
    }
}

fn utf8_width(c: char) -> (r: usize)
    ensures
        r == utf8_len(c),
{
    let v = c as u32;
    if v < 0x80 {
        1
    } else if v < 0x800 {
        2
    } else if v < 0x10000 {
        3
    } else {
        4
    }
}

/// The first `max_bytes` bytes of a text that can be cut there.
pub fn cut_to_bytes(text: &str, max_bytes: usize) -> (r: String)
    requires
        cut_ok(text@, max_bytes as nat),
    ensures
        r@ == cut_bytes(text@, max_bytes as nat),
{
    let chars = chars_of(text);
    let mut i: usize = 0;
    let mut acc: u128 = 0;
    assert(chars@.take(0) =~= Seq::<char>::empty());
    while i < chars.len() && acc < max_bytes as u128
        invariant
            i <= chars.len(),
            chars@ == text@,
            acc == byte_len(chars@.take(i as int)),
            acc <= max_bytes + 4,
            forall|j: int| 0 <= j < i ==> byte_len(#[trigger] chars@.take(j)) < max_bytes,
        decreases chars.len() - i,
    {
        proof {
            lemma_byte_len_push(chars@, i as int);
        }
        let ghost prev = i;
        acc = acc + utf8_width(chars[i]) as u128;
        i = i + 1;
        assert forall|j: int| 0 <= j < i implies byte_len(#[trigger] chars@.take(j)) < max_bytes by {
            if j == prev {
            }
        }
    }
    proof {
        lemma_boundary_skip(chars@, max_bytes as nat, i as int);
    }
    if i == chars.len() && acc <= max_bytes as u128 {
        assert(chars@.take(i as int) =~= chars@);
        return text.to_string();
    }
    if acc == max_bytes as u128 {
        proof {
            if i == chars.len() {
                assert(chars@.take(i as int) =~= chars@);
            }
        }
        assert(byte_len(chars@) > max_bytes) by {
            assert(i < chars.len());
            lemma_byte_len_push(chars@, i as int);
            lemma_byte_len_mono(chars@, i + 1);
        }
        let mut out: Vec<char> = Vec::new();
        let mut k: usize = 0;
        while k < i
            invariant
                k <= i <= chars.len(),
                out@ =~= chars@.take(k as int),
            decreases i - k,
        {
            out.push(chars[k]);
            k = k + 1;
        }
        return string_from_chars(out.as_slice());
    }
    // the cut falls inside a character, which `cut_ok` rules out
    proof {
        assert(acc > max_bytes);
        assert(boundary_from(chars@, max_bytes as nat, i as int) is None);
        lemma_byte_len_mono(chars@, i as int);
    }
    text.to_string()
}

proof fn lemma_byte_len_mono(s: Seq<char>, k: int)
    requires
        0 <= k <= s.len(),
    ensures
        byte_len(s.take(k)) <= byte_len(s),
    decreases s.len() - k,
{
    if k < s.len() {
        lemma_byte_len_push(s, k);
        lemma_byte_len_mono(s, k + 1);
    } else {
        assert(s.take(k) =~= s);
    }
}

/// The text that represents an invoice for semantic search: the labelled
/// fields joined by spaces, cut to its first 8192 bytes.
pub fn invoice_to_embedding_text(fields: &InvoiceEmbeddingFields) -> (r: String)
    requires
        cut_ok(embedding_text_spec(*fields), EMBEDDING_TEXT_MAX_BYTES as nat),
    ensures
        r@ == cut_bytes(embedding_text_spec(*fields), EMBEDDING_TEXT_MAX_BYTES as nat),
{
    let full = embedding_text_full(fields);
    cut_to_bytes(full.as_str(), EMBEDDING_TEXT_MAX_BYTES)
}


// ---------------------------------------------------------------------------
// The detail of a stored invoice
// ---------------------------------------------------------------------------

/// An invoice row as stored; the confidence, a float, is read by the caller.
pub struct StoredInvoice {
    pub id: i64,
    pub raw_file_id: i64,
    pub invoice_type: Option<String>,
    pub invoice_code: Option<String>,
    pub invoice_number: Option<String>,
    pub issue_date: Option<String>,
    pub seller_name: Option<String>,
    pub seller_tax_id: Option<String>,
    pub buyer_name: Option<String>,
    pub buyer_tax_id: Option<String>,
    pub currency: Option<String>,
    pub amount_without_tax: Option<String>,
    pub tax_amount: Option<String>,
    pub total_amount: Option<String>,
    pub category: Option<String>,
    pub remarks: Option<String>,
    pub source_page_range: Option<String>,
    pub status: Option<String>,
    pub duplicate_status: Option<String>,
    pub created_at: String,
    pub updated_at: String,
}

/// The raw file an invoice came from, as stored.
pub struct RawFileInfo {
    pub original_name: Option<String>,
    pub mime_type: Option<String>,
    pub storage_path: Option<String>,
}

/// Everything shown for one invoice (its confidence is the caller's).
pub struct InvoiceDetail {
    pub id: i64,
    pub raw_file_id: i64,
    pub invoice_type: Option<String>,
    pub invoice_code: Option<String>,
    pub invoice_number: Option<String>,
    pub issue_date: Option<String>,
    pub seller_name: Option<String>,
    pub seller_tax_id: Option<String>,
    pub buyer_name: Option<String>,
    pub buyer_tax_id: Option<String>,
    pub currency: String,
    pub amount_without_tax: Option<String>,
    pub tax_amount: Option<String>,
    pub total_amount: Option<String>,
    pub category: Option<String>,
    pub remarks: Option<String>,
    pub source_page_range: Option<String>,
    pub status: String,
    pub duplicate_status: String,
    pub created_at: String,
    pub updated_at: String,
    pub items: Vec<InvoiceItemRow>,
    pub raw_file_name: Option<String>,
    pub raw_file_mime: Option<String>,
    pub raw_file_path: Option<String>,
    pub thumbnail_path: Option<String>,
    pub extraction_model: Option<String>,
    pub extraction_provider: Option<String>,
}

pub open spec fn or_default(o: Option<String>, d: Seq<char>) -> Seq<char> {
    match o {
        Some(s) => s@,
        None => d,
    }
}

/// The statement that reads an invoice row, in the order of
/// `StoredInvoice`'s fields with the confidence after the page range.
pub fn detail_invoice_sql() -> (r: &'static str)
    ensures
        r@ == "SELECT id, raw_file_id, invoice_type, invoice_code, invoice_number, issue_date, seller_name, seller_tax_id, buyer_name, buyer_tax_id, currency, amount_without_tax, tax_amount, total_amount, category, remarks, source_page_range, confidence, status, duplicate_status, created_at, updated_at FROM invoices WHERE id = ?1"@,
{
    "SELECT id, raw_file_id, invoice_type, invoice_code, invoice_number, issue_date, seller_name, seller_tax_id, buyer_name, buyer_tax_id, currency, amount_without_tax, tax_amount, total_amount, category, remarks, source_page_range, confidence, status, duplicate_status, created_at, updated_at FROM invoices WHERE id = ?1"
}

/// The statement that reads an invoice's line items, by id ascending.
pub fn detail_items_sql() -> (r: &'static str)
    ensures
        r@ == "SELECT id, name, specification, unit, quantity, unit_price, amount, tax_rate, tax_amount FROM invoice_items WHERE invoice_id = ?1 ORDER BY id"@,
{
    "SELECT id, name, specification, unit, quantity, unit_price, amount, tax_rate, tax_amount FROM invoice_items WHERE invoice_id = ?1 ORDER BY id"
}

/// The statement that reads the raw file of an invoice.
pub fn detail_raw_file_sql() -> (r: &'static str)
    ensures
        r@ == "SELECT rf.original_name, rf.mime_type, rf.storage_path FROM invoices inv JOIN raw_files rf ON rf.id = inv.raw_file_id WHERE inv.id = ?1"@,
{
    "SELECT rf.original_name, rf.mime_type, rf.storage_path FROM invoices inv JOIN raw_files rf ON rf.id = inv.raw_file_id WHERE inv.id = ?1"
}

/// The statement that reads the model and provider of an invoice's latest
/// recognition run.
pub fn detail_extraction_sql() -> (r: &'static str)
    ensures
        r@ == "SELECT model, provider_name FROM extraction_runs WHERE invoice_id = ?1 ORDER BY id DESC LIMIT 1"@,
{
    "SELECT model, provider_name FROM extraction_runs WHERE invoice_id = ?1 ORDER BY id DESC LIMIT 1"
}

/// The detail of an invoice from its stored row, its line items, its raw
/// file, which of its preview candidates exist (see
/// `thumbnail_candidates`) and its latest recognition run, if any. A
/// missing currency reads as `CNY`, a missing status as
/// `pending_confirmation`, a missing duplicate status as `unknown`; the
/// preview is the first candidate that exists.
pub fn invoice_detail(
    stored: StoredInvoice,
    items: Vec<InvoiceItemRow>,
    raw_file: RawFileInfo,
    thumbnail_exists: &Vec<bool>,
    extraction: Option<(Option<String>, Option<String>)>,
) -> (r: InvoiceDetail)
    ensures
        r.id == stored.id,
        r.raw_file_id == stored.raw_file_id,
        r.invoice_type == stored.invoice_type,
        r.invoice_code == stored.invoice_code,
        r.invoice_number == stored.invoice_number,
        r.issue_date == stored.issue_date,
        r.seller_name == stored.seller_name,
        r.seller_tax_id == stored.seller_tax_id,
        r.buyer_name == stored.buyer_name,
        r.buyer_tax_id == stored.buyer_tax_id,
        r.currency@ == or_default(stored.currency, "CNY"@),
        r.amount_without_tax == stored.amount_without_tax,
        r.tax_amount == stored.tax_amount,
        r.total_amount == stored.total_amount,
        r.category == stored.category,
        r.remarks == stored.remarks,
        r.source_page_range == stored.source_page_range,
        r.status@ == or_default(stored.status, "pending_confirmation"@),
        r.duplicate_status@ == or_default(stored.duplicate_status, "unknown"@),
        r.created_at == stored.created_at,
        r.updated_at == stored.updated_at,
        r.items == items,
        r.raw_file_name == raw_file.original_name,
        r.raw_file_mime == raw_file.mime_type,
        r.raw_file_path == raw_file.storage_path,
        ostr(r.thumbnail_path) == crate::document::first_existing(
            crate::document::thumbnail_candidates_spec(stored.raw_file_id, ostr(stored.source_page_range)),
            thumbnail_exists@,
        ),
        match extraction {
            Some((m, p)) => r.extraction_model == m && r.extraction_provider == p,
            None => r.extraction_model is None && r.extraction_provider is None,
        },
{
    let thumbnail_path = match &stored.source_page_range {
        Some(range) => crate::document::thumbnail_path(stored.raw_file_id, Some(range.as_str()), thumbnail_exists),
        None => crate::document::thumbnail_path(stored.raw_file_id, None, thumbnail_exists),
    };
    let (extraction_model, extraction_provider) = match extraction {
        Some((m, p)) => (m, p),
        None => (None, None),
    };
    InvoiceDetail {
        id: stored.id,
        raw_file_id: stored.raw_file_id,
        invoice_type: stored.invoice_type,
        invoice_code: stored.invoice_code,
        invoice_number: stored.invoice_number,
        issue_date: stored.issue_date,
        seller_name: stored.seller_name,
        seller_tax_id: stored.seller_tax_id,
        buyer_name: stored.buyer_name,
        buyer_tax_id: stored.buyer_tax_id,
        currency: crate::mail::string_or(stored.currency, "CNY"),
        amount_without_tax: stored.amount_without_tax,
        tax_amount: stored.tax_amount,
        total_amount: stored.total_amount,
        category: stored.category,
        remarks: stored.remarks,
        source_page_range: stored.source_page_range,
        status: crate::mail::string_or(stored.status, "pending_confirmation"),
        duplicate_status: crate::mail::string_or(stored.duplicate_status, "unknown"),
        created_at: stored.created_at,
        updated_at: stored.updated_at,
        items,
        raw_file_name: raw_file.original_name,
        raw_file_mime: raw_file.mime_type,
        raw_file_path: raw_file.storage_path,
        thumbnail_path,
        extraction_model,
        extraction_provider,
    }
}
} // verus!
