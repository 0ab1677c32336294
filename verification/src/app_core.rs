//! Records and messages of the application's state: health and queue
//! reports, results of maintenance tasks, the user-facing message of a
//! failed import, and the cache key of date-filtered statistics.
use vstd::prelude::*;

use crate::text::{chars_of, contains_seq, contains_str, push_str, string_from_chars};

verus! {

/// Declares the standard path buffer so that records can hold one.
#[verifier::external_type_specification]
#[verifier::external_body]
pub struct ExPathBuf(std::path::PathBuf);

/// Health of the application, for the diagnostics panel.
pub struct AppHealth {
    pub app_data_dir: String,
    pub database_path: String,
    pub migration_version: i64,
}

/// A stored file waiting for recognition.
pub struct RawFileForRecognition {
    pub id: i64,
    pub original_name: String,
    pub mime_type: String,
    pub storage_path: std::path::PathBuf,
}

/// Recognition tasks waiting and running.
pub struct RecognitionQueueStatus {
    pub pending: i64,
    pub running: i64,
    pub max_concurrent: usize,
}

/// Result of exporting logs or a backup.
pub struct ExportLogsResult {
    pub file_path: String,
    pub byte_size: u64,
}

/// Files and records removed by a storage cleanup, and the space freed.
pub struct CleanupStorageResult {
    pub files_removed: usize,
    pub db_records_removed: usize,
    pub bytes_freed: u64,
}

/// Counts of a full regeneration of embeddings.
pub struct RegenerateEmbeddingsResult {
    pub total_invoices: usize,
    pub success_count: usize,
    pub failure_count: usize,
}

/// The directories and files of the application's data.
pub struct AppPaths {
    pub app_data_dir: std::path::PathBuf,
    pub database_path: std::path::PathBuf,
    pub raw_dir: std::path::PathBuf,
    pub thumbnails_dir: std::path::PathBuf,
    pub logs_dir: std::path::PathBuf,
    pub llm_audit_dir: std::path::PathBuf,
    pub agent_uploads_dir: std::path::PathBuf,
    pub sessions_dir: std::path::PathBuf,
}

pub open spec fn not_invoice_error(e: Seq<char>) -> bool {
    contains_seq(e, "文件不含有发票"@) || contains_seq(e, "non-invoice"@)
}

pub open spec fn unreadable_error(e: Seq<char>) -> bool {
    contains_seq(e, "置信度过低"@) || contains_seq(e, "did not include a JSON object"@)
        || contains_seq(e, "invalid extraction JSON"@) || contains_seq(
        e,
        "provider response did not include assistant content"@,
    )
}

/// The message shown for a failed import: no invoice in the file; a
/// recognition that gave nothing usable; or the error itself after
/// `识别失败：`.
pub open spec fn import_failure_spec(e: Seq<char>) -> Seq<char> {
    if not_invoice_error(e) {
        "文件不含有发票"@
    } else if unreadable_error(e) {
        "识别失败：可能是图片分辨率不清晰、内容不完整，或文件不含有可识别的发票。"@
    } else {
        "识别失败："@ + e
    }
}

pub fn import_failure_message(error: &str) -> (r: String)
    ensures
        r@ == import_failure_spec(error@),
{
    let e = chars_of(error);
    if contains_str(&e, "文件不含有发票") || contains_str(&e, "non-invoice") {
        "文件不含有发票".to_owned()
    } else if contains_str(&e, "置信度过低") || contains_str(&e, "did not include a JSON object")
        || contains_str(&e, "invalid extraction JSON") || contains_str(
        &e,
        "provider response did not include assistant content",
    ) {
        "识别失败：可能是图片分辨率不清晰、内容不完整，或文件不含有可识别的发票。".to_owned()
    } else {
        let mut out: Vec<char> = Vec::new();
        push_str(&mut out, "识别失败：");
        push_str(&mut out, error);
        string_from_chars(out.as_slice())
    }
}

pub open spec fn opt_or_empty(o: Option<String>) -> Seq<char> {
    match o {
        Some(s) => s@,
        None => Seq::empty(),
    }
}

/// The cache key of statistics over a date range: `from|to`, an absent bound
/// written as empty text.
pub fn cache_key(date_from: &Option<String>, date_to: &Option<String>) -> (r: String)
    ensures
        r@ == opt_or_empty(*date_from) + "|"@ + opt_or_empty(*date_to),
{
    let mut out: Vec<char> = Vec::new();
    match date_from {
        Some(f) => push_str(&mut out, f.as_str()),
        None => {},
    }
    push_str(&mut out, "|");
    match date_to {
        Some(t) => push_str(&mut out, t.as_str()),
        None => {},
    }
    string_from_chars(out.as_slice())
}

/// Two date ranges share a cache key only when they are the same range,
/// as long as their bounds hold no `|`.
pub proof fn law_cache_key_distinguishes(f1: Seq<char>, t1: Seq<char>, f2: Seq<char>, t2: Seq<char>)
    requires
        !f1.contains('|'),
        !f2.contains('|'),
        f1 + "|"@ + t1 == f2 + "|"@ + t2,
    ensures
        f1 == f2,
        t1 == t2,
{
    reveal_strlit("|");
    let a = f1 + "|"@ + t1;
    if f1.len() < f2.len() {
        assert(a[f1.len() as int] == '|');
        assert(f2[f1.len() as int] == a[f1.len() as int]);
        assert(f2.contains('|'));
    } else if f2.len() < f1.len() {
        assert(a[f2.len() as int] == '|');
        assert(f1[f2.len() as int] == a[f2.len() as int]);
        assert(f1.contains('|'));
    } else {
        assert(f1 =~= a.take(f1.len() as int));
        assert(f2 =~= a.take(f2.len() as int));
        assert(t1 =~= a.skip(f1.len() as int + 1));
        assert(t2 =~= a.skip(f2.len() as int + 1));
    }
}


} // verus!
