//! Recognizing a stored file: whether its pages are rendered from a PDF,
//! the page labels, the totals collected over its pages, the titles of the
//! events recorded, and what a failed automatic recognition leaves behind.
use vstd::prelude::*;

use crate::llm::LlmProviderConfig;
use crate::search::ostr;
use crate::sql::join;
use crate::text::{chars_eq_str, chars_of, dec, push_str, push_usize, string_from_chars};
use crate::xlsx::string_views;

verus! {

pub struct RecognizeRawFileRequest {
    pub raw_file_id: i64,
    pub config: LlmProviderConfig,
}

/// How the images of a stored file are obtained.
#[derive(PartialEq, Eq, Structural)]
pub enum RecognitionSource {
    /// Each page of a PDF is rendered and recognized.
    PdfPages,
    /// The file is one image.
    Image,
}

pub fn recognition_source(mime_type: &str) -> (r: RecognitionSource)
    ensures
        (r == RecognitionSource::PdfPages) == (mime_type@ == "application/pdf"@),
{
    let m = chars_of(mime_type);
    if chars_eq_str(&m, "application/pdf") {
        RecognitionSource::PdfPages
    } else {
        RecognitionSource::Image
    }
}

/// The page range stored with the invoice of a rendered page: its number.
pub fn page_range_label(page_number: usize) -> (r: String)
    ensures
        r@ == dec(page_number as nat),
{
    let mut v: Vec<char> = Vec::new();
    push_usize(&mut v, page_number);
    string_from_chars(v.as_slice())
}

pub open spec fn preview_line_spec(page: Option<Seq<char>>, preview: Seq<char>) -> Seq<char> {
    (match page {
        Some(p) => "page "@ + p,
        None => "image"@,
    }) + ": "@ + preview
}

/// The line of a page in the combined response preview.
pub fn preview_line(page: Option<&str>, preview: &str) -> (r: String)
    ensures
        r@ == preview_line_spec(crate::search::opt_str_view(page), preview@),
{
    let mut v: Vec<char> = Vec::new();
    match page {
        Some(p) => {
            push_str(&mut v, "page ");
            push_str(&mut v, p);
        },
        None => push_str(&mut v, "image"),
    }
    push_str(&mut v, ": ");
    push_str(&mut v, preview);
    string_from_chars(v.as_slice())
}

/// Durations, token counts and previews collected over the pages of a
/// file.
pub struct RecognitionTotals {
    pub duration_ms: u128,
    pub prompt_tokens: i64,
    pub completion_tokens: i64,
    pub total_tokens: i64,
    pub previews: Vec<String>,
    pub model: String,
}

/// What the recognition of one page reported.
pub struct PageRecognition {
    pub model: String,
    pub duration_ms: u128,
    pub prompt_tokens: i64,
    pub completion_tokens: i64,
    pub total_tokens: i64,
}

/// The totals before the first page: nothing counted, the configured model.
pub fn start_totals(configured_model: String) -> (r: RecognitionTotals)
    ensures
        r.duration_ms == 0,
        r.prompt_tokens == 0,
        r.completion_tokens == 0,
        r.total_tokens == 0,
        r.previews.len() == 0,
        r.model == configured_model,
{
    RecognitionTotals {
        duration_ms: 0,
        prompt_tokens: 0,
        completion_tokens: 0,
        total_tokens: 0,
        previews: Vec::new(),
        model: configured_model,
    }
}

/// The sums of a page fit their integer types.
pub open spec fn page_fits(t: RecognitionTotals, p: PageRecognition) -> bool {
    &&& t.duration_ms + p.duration_ms <= u128::MAX
    &&& i64::MIN <= t.prompt_tokens + p.prompt_tokens <= i64::MAX
    &&& i64::MIN <= t.completion_tokens + p.completion_tokens <= i64::MAX
    &&& i64::MIN <= t.total_tokens + p.total_tokens <= i64::MAX
}

/// Adds a recognized page: its model becomes the reported one, its duration
/// and tokens are added, its preview line appended.
pub fn add_page(totals: &mut RecognitionTotals, page: PageRecognition, page_range: Option<&str>, preview: &str)
    requires
        page_fits(*old(totals), page),
    ensures
        final(totals).model == page.model,
        final(totals).duration_ms == old(totals).duration_ms + page.duration_ms,
        final(totals).prompt_tokens == old(totals).prompt_tokens + page.prompt_tokens,
        final(totals).completion_tokens == old(totals).completion_tokens + page.completion_tokens,
        final(totals).total_tokens == old(totals).total_tokens + page.total_tokens,
        string_views(final(totals).previews@) == string_views(old(totals).previews@).push(
            preview_line_spec(crate::search::opt_str_view(page_range), preview@),
        ),
{
    totals.duration_ms = totals.duration_ms + page.duration_ms;
    totals.prompt_tokens = totals.prompt_tokens + page.prompt_tokens;
    totals.completion_tokens = totals.completion_tokens + page.completion_tokens;
    totals.total_tokens = totals.total_tokens + page.total_tokens;
    let line = preview_line(page_range, preview);
    let ghost before = totals.previews@;
    totals.previews.push(line);
    assert(string_views(totals.previews@) =~= string_views(before).push(
        preview_line_spec(crate::search::opt_str_view(page_range), preview@),
    ));
    totals.model = page.model;
}

/// The combined preview of a file: the pages' lines joined by newlines.
pub fn combined_preview(totals: &RecognitionTotals) -> (r: String)
    ensures
        r@ == join(string_views(totals.previews@), "\n"@),
{
    crate::sql::join_strings(&totals.previews, "\n")
}

/// The title of the event of a recognized invoice: its seller, or `未知`.
pub fn recognition_title(seller_name: Option<String>) -> (r: String)
    ensures
        r@ == match ostr(seller_name) {
            Some(s) => s,
            None => "未知"@,
        },
{
    match seller_name {
        Some(s) => s,
        None => "未知".to_owned(),
    }
}

/// The title of the event of a failed automatic recognition.
pub fn auto_recognition_failure_title(file_name: Option<&str>) -> (r: String)
    ensures
        r@ == match file_name {
            Some(n) => "自动识别失败: "@ + n@,
            None => "自动识别失败"@,
        },
{
    match file_name {
        Some(n) => {
            let mut v: Vec<char> = Vec::new();
            push_str(&mut v, "自动识别失败: ");
            push_str(&mut v, n);
            string_from_chars(v.as_slice())
        },
        None => "自动识别失败".to_owned(),
    }
}

/// How the import job of a file ends after its recognition: imported, or
/// failed with the user-facing message of the error.
pub fn recognition_job_outcome(error: Option<&str>) -> (r: (&'static str, Option<String>))
    ensures
        error is None ==> r.0@ == "imported"@ && r.1 is None,
        error matches Some(e) ==> r.0@ == "failed"@ && (r.1 matches Some(m) && m@
            == crate::app_core::import_failure_spec(e@)),
{
    match error {
        Some(e) => ("failed", Some(crate::app_core::import_failure_message(e))),
        None => ("imported", None),
    }
}

/// The directories of generated images removed after a failed automatic
/// recognition, under the thumbnails directory.
pub fn generated_image_dirs() -> (r: Vec<&'static str>)
    ensures
        r@.map_values(|s: &str| s@) == seq!["previews"@, "normalized"@, "pdf-pages"@],
{
    let r = vec!["previews", "normalized", "pdf-pages"];
    assert(r@.map_values(|s: &str| s@) =~= seq!["previews"@, "normalized"@, "pdf-pages"@]);
    r
}

/// An embedding is generated for a new invoice only when the vector store
/// and the local engine are both switched on.
pub fn should_embed(chroma_enabled: bool, embedding_enabled: bool) -> (b: bool)
    ensures
        b == (chroma_enabled && embedding_enabled),
{
    chroma_enabled && embedding_enabled
}

} // verus!
