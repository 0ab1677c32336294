//! Importing files: the path of a dropped or typed source (including
//! `file://` URIs with percent escapes), what an import does with a file
//! whose content is already stored, paging of the import history and the
//! counts reported after an import.
use vstd::prelude::*;
use vstd::utf8::{decode_utf8, valid_utf8};
use vstd::string::StringSliceAdditionalSpecFns;

use crate::text::{
    chars_eq_str, chars_of, lower_chars, lower_seq, slice_chars, starts_with, starts_with_str,
    string_from_chars, trim, trim_str,
};

verus! {

pub struct ImportRequest {
    pub paths: Vec<String>,
}

/// One import job as listed to the user.
pub struct ImportJobSummary {
    pub id: i64,
    pub raw_file_id: Option<i64>,
    pub invoice_id: Option<i64>,
    pub source_path: String,
    pub original_name: Option<String>,
    pub current_name: Option<String>,
    pub status: String,
    pub sha256: Option<String>,
    pub storage_path: Option<String>,
    pub mime_type: Option<String>,
    pub error_message: Option<String>,
    pub source_type: String,
    pub created_at: String,
    pub updated_at: String,
}

/// A page of the import history.
pub struct ImportJobListResult {
    pub jobs: Vec<ImportJobSummary>,
    pub total_count: i64,
    pub page: i64,
    pub page_size: i64,
    pub total_pages: i64,
}

// ---------------------------------------------------------------------------
// Percent-decoding
// ---------------------------------------------------------------------------

/// The value of an ASCII hexadecimal digit.
pub open spec fn hex_spec(b: u8) -> Option<u8> {
    if 48 <= b <= 57 {
        Some((b - 48) as u8)
    } else if 97 <= b <= 102 {
        Some((b - 97 + 10) as u8)
    } else if 65 <= b <= 70 {
        Some((b - 65 + 10) as u8)
    } else {
        None
    }
}

pub fn hex_value(byte: u8) -> (r: Option<u8>)
    ensures
        r == hex_spec(byte),
{
    if 48u8 <= byte && byte <= 57u8 {
        Some(byte - 48u8)
    } else if 97u8 <= byte && byte <= 102u8 {
        Some(byte - 97u8 + 10)
    } else if 65u8 <= byte && byte <= 70u8 {
        Some(byte - 65u8 + 10)
    } else {
        None
    }
}

/// `%XY` with two hexadecimal digits becomes the byte `0xXY`; every other
/// byte is kept.
pub open spec fn percent_decode_spec(b: Seq<u8>) -> Seq<u8>
    decreases b.len(),
{
    if b.len() == 0 {
        Seq::empty()
    } else if b[0] == 37 && b.len() > 2 && hex_spec(b[1]) is Some && hex_spec(b[2]) is Some {
        seq![(hex_spec(b[1])->0 * 16 + hex_spec(b[2])->0) as u8] + percent_decode_spec(b.skip(3))
    } else {
        seq![b[0]] + percent_decode_spec(b.skip(1))
    }
}

/// The text of a byte sequence with invalid UTF-8 replaced, as
/// `String::from_utf8_lossy` gives it.
pub uninterp spec fn utf8_lossy(b: Seq<u8>) -> Seq<char>;

/// `String::from_utf8_lossy`: valid UTF-8 is decoded as is; what replaces
/// invalid sequences is left to the standard library and only named here.
#[verifier::external_body]
pub(crate) fn from_utf8_lossy(bytes: &[u8]) -> (r: String)
    ensures
        r@ == utf8_lossy(bytes@),
        valid_utf8(bytes@) ==> r@ == decode_utf8(bytes@),
{
    String::from_utf8_lossy(bytes).into_owned()
}

fn decode_bytes(bytes: &[u8]) -> (r: Vec<u8>)
    ensures
        r@ == percent_decode_spec(bytes@),
{
    let mut out: Vec<u8> = Vec::new();
    let mut i: usize = 0;
    assert(bytes@.skip(0) =~= bytes@);
    assert(out@ + percent_decode_spec(bytes@.skip(0)) =~= percent_decode_spec(bytes@));
    while i < bytes.len()
        invariant
            i <= bytes.len(),
            out@ + percent_decode_spec(bytes@.skip(i as int)) == percent_decode_spec(bytes@),
        decreases bytes.len() - i,
    {
        let ghost rest = bytes@.skip(i as int);
        if bytes[i] == 37u8 && bytes.len() - i > 2 {
            let high = hex_value(bytes[i + 1]);
            let low = hex_value(bytes[i + 2]);
            match (high, low) {
                (Some(h), Some(l)) => {
                    assert(rest[1] == bytes@[i + 1] && rest[2] == bytes@[i + 2]);
                    assert(h < 16 && l < 16);
                    let v: u8 = (h << 4u8) | l;
                    assert(v == h * 16 + l) by (bit_vector)
                        requires
                            h < 16,
                            l < 16,
                            v == (h << 4u8) | l,
                    ;
                    let ghost before = out@;
                    out.push(v);
                    assert(rest.skip(3) =~= bytes@.skip(i + 3));
                    assert(before + percent_decode_spec(rest) =~= out@ + percent_decode_spec(
                        bytes@.skip(i + 3),
                    ));
                    i += 3;
                    continue;
                },
                _ => {},
            }
        }
        let ghost before = out@;
        out.push(bytes[i]);
        assert(rest[0] == bytes@[i as int]);
        assert(rest.skip(1) =~= bytes@.skip(i + 1));
        assert(before + percent_decode_spec(rest) =~= out@ + percent_decode_spec(bytes@.skip(i + 1)));
        i += 1;
    }
    assert(bytes@.skip(bytes.len() as int) =~= Seq::<u8>::empty());
    out
}

/// Decodes percent escapes in the UTF-8 bytes of a path; invalid UTF-8 in
/// the result is replaced.
pub fn percent_decode_path(value: &str) -> (r: String)
    ensures
        r@ == utf8_lossy(percent_decode_spec(value.spec_bytes())),
        valid_utf8(percent_decode_spec(value.spec_bytes())) ==> r@ == decode_utf8(
            percent_decode_spec(value.spec_bytes()),
        ),
{
    let bytes = value.as_bytes();
    let out = decode_bytes(bytes);
    from_utf8_lossy(out.as_slice())
}

proof fn lemma_decode_without_percent(b: Seq<u8>)
    requires
        !b.contains(37u8),
    ensures
        percent_decode_spec(b) == b,
    decreases b.len(),
{
    if b.len() > 0 {
        assert(b[0] != 37u8);
        let t = b.skip(1);
        assert forall|k: int| 0 <= k < t.len() implies t[k] != 37u8 by {
            assert(t[k] == b[k + 1]);
        }
        lemma_decode_without_percent(t);
        assert(seq![b[0]] + t =~= b);
    }
}

proof fn lemma_scalar_no_percent(c: char)
    requires
        c != '%',
    ensures
        !vstd::utf8::encode_scalar(c as u32).contains(37u8),
{
    let v = c as u32;
    assert(v != 37);
    let e = vstd::utf8::encode_scalar(v);
    assert(v <= 0x7F ==> (v & 0x7F) as u8 != 37u8) by (bit_vector)
        requires
            v != 37,
    ;
    assert((0xC0u8 | ((v >> 6u32) & 0x1F) as u8) != 37u8) by (bit_vector);
    assert((0xE0u8 | ((v >> 12u32) & 0x0F) as u8) != 37u8) by (bit_vector);
    assert((0xF0u8 | ((v >> 18u32) & 0x7) as u8) != 37u8) by (bit_vector);
    assert((0x80u8 | (v & 0x3F) as u8) != 37u8) by (bit_vector);
    assert((0x80u8 | ((v >> 6u32) & 0x3F) as u8) != 37u8) by (bit_vector);
    assert((0x80u8 | ((v >> 12u32) & 0x3F) as u8) != 37u8) by (bit_vector);
    assert forall|k: int| 0 <= k < e.len() implies e[k] != 37u8 by {}
}

proof fn lemma_encoding_no_percent(s: Seq<char>)
    requires
        !s.contains('%'),
    ensures
        !vstd::utf8::encode_utf8(s).contains(37u8),
    decreases s.len(),
{
    if s.len() > 0 {
        assert(s[0] != '%');
        let t = s.drop_first();
        assert forall|k: int| 0 <= k < t.len() implies t[k] != '%' by {
            assert(t[k] == s[k + 1]);
        }
        lemma_encoding_no_percent(t);
        lemma_scalar_no_percent(s[0]);
        let a = vstd::utf8::encode_scalar(s[0] as u32);
        let b = vstd::utf8::encode_utf8(t);
        assert forall|k: int| 0 <= k < (a + b).len() implies (a + b)[k] != 37u8 by {
            if k < a.len() {
                assert((a + b)[k] == a[k]);
            } else {
                assert((a + b)[k] == b[k - a.len()]);
            }
        }
    }
}

/// A path without `%` is decoded to itself.
pub proof fn law_decode_without_percent_is_identity(s: Seq<char>)
    requires
        !s.contains('%'),
    ensures
        percent_decode_spec(vstd::utf8::encode_utf8(s)) == vstd::utf8::encode_utf8(s),
        decode_utf8(percent_decode_spec(vstd::utf8::encode_utf8(s))) == s,
{
    let b = vstd::utf8::encode_utf8(s);
    lemma_encoding_no_percent(s);
    lemma_decode_without_percent(b);
    vstd::utf8::encode_utf8_decode_utf8(s);
}

// ---------------------------------------------------------------------------
// Source paths
// ---------------------------------------------------------------------------

/// The path of a `file://` URI (the scheme in any ASCII case, an optional
/// `localhost/` host), before decoding; other text is no file URI.
pub open spec fn file_uri_path(v: Seq<char>) -> Option<Seq<char>> {
    if starts_with(lower_seq(v), "file://"@) {
        let p = v.skip(7);
        if starts_with(p, "localhost/"@) {
            Some(p.skip(10))
        } else {
            Some(p)
        }
    } else {
        None
    }
}

/// The path named by a `file://` URI, percent-decoded; `None` for other
/// text.  Paths keep their `/` separators.
pub fn strip_file_uri(value: &str) -> (r: Option<String>)
    ensures
        match file_uri_path(value@) {
            Some(p) => r matches Some(s) && s@ == utf8_lossy(
                percent_decode_spec(vstd::utf8::encode_utf8(p)),
            ),
            None => r is None,
        },
{
    let v = chars_of(value);
    let lower = lower_chars(&v);
    if !starts_with_str(&lower, "file://") {
        return None;
    }
    proof {
        reveal_strlit("file://");
        reveal_strlit("localhost/");
    }
    let p = slice_chars(&v, 7, v.len());
    assert(p@ =~= value@.skip(7));
    let path = if starts_with_str(&p, "localhost/") {
        let q = slice_chars(&p, 10, p.len());
        assert(q@ =~= p@.skip(10));
        q
    } else {
        p
    };
    let text = string_from_chars(path.as_slice());
    Some(percent_decode_path(text.as_str()))
}

/// The path an import reads: the trimmed text, or the path of a `file://`
/// URI given as that text.
pub fn normalize_source_path(source_path: &str) -> (r: String)
    ensures
        match file_uri_path(trim(source_path@)) {
            Some(p) => r@ == utf8_lossy(percent_decode_spec(vstd::utf8::encode_utf8(p))),
            None => r@ == trim(source_path@),
        },
{
    let t = trim_str(source_path);
    let text = string_from_chars(t.as_slice());
    match strip_file_uri(text.as_str()) {
        Some(p) => p,
        None => text,
    }
}

// ---------------------------------------------------------------------------
// Importing one file
// ---------------------------------------------------------------------------

/// What an import does with a readable file, given what is stored already.
#[derive(PartialEq, Eq, Structural)]
pub enum ImportDecision {
    /// The content is stored and recognized, or being recognized: the job is
    /// a duplicate of that stored file.
    Duplicate { raw_file_id: i64 },
    /// The content is stored but has no invoice yet: the job reuses it so
    /// that recognition can run again.
    Reuse { raw_file_id: i64 },
    /// New content: store it.
    Store,
}

pub open spec fn import_decision_spec(
    stored: Option<i64>,
    has_invoice: bool,
    recognizing: bool,
) -> ImportDecision {
    match stored {
        Some(id) => if has_invoice || recognizing {
            ImportDecision::Duplicate { raw_file_id: id }
        } else {
            ImportDecision::Reuse { raw_file_id: id }
        },
        None => ImportDecision::Store,
    }
}

pub fn import_decision(stored_raw_file: Option<i64>, has_invoice: bool, recognizing: bool) -> (r:
    ImportDecision)
    ensures
        r == import_decision_spec(stored_raw_file, has_invoice, recognizing),
{
    match stored_raw_file {
        Some(id) => if has_invoice || recognizing {
            ImportDecision::Duplicate { raw_file_id: id }
        } else {
            ImportDecision::Reuse { raw_file_id: id }
        },
        None => ImportDecision::Store,
    }
}

/// The status a job records for a decision.
pub fn decision_status(d: &ImportDecision) -> (r: &'static str)
    ensures
        d is Duplicate ==> r@ == "duplicate"@,
        !(d is Duplicate) ==> r@ == "imported"@,
{
    match d {
        ImportDecision::Duplicate { .. } => "duplicate",
        _ => "imported",
    }
}

/// Content already recognized is never imported as new: the same file
/// imported again is a duplicate once its invoice exists, or while it is
/// being recognized; before that it is taken again under the same stored
/// file, so that it can be recognized again.
pub proof fn law_recognized_content_is_duplicate(id: i64, recognizing: bool)
    ensures
        import_decision_spec(Some(id), true, recognizing) == (ImportDecision::Duplicate {
            raw_file_id: id,
        }),
        import_decision_spec(Some(id), false, true) == (ImportDecision::Duplicate { raw_file_id: id }),
        import_decision_spec(Some(id), false, false) == (ImportDecision::Reuse { raw_file_id: id }),
{
}

/// Paging of the import history: the page at least 1, the page size between
/// 1 and 200, and the number of pages rounded up (0 for no jobs).
pub struct ImportPaging {
    pub page: i64,
    pub page_size: i64,
    pub offset: i64,
}

pub open spec fn import_page_spec(page: i64) -> int {
    if page < 1 {
        1
    } else {
        page as int
    }
}

pub open spec fn import_page_size_spec(page_size: i64) -> int {
    if page_size < 1 {
        1
    } else if page_size > 200 {
        200
    } else {
        page_size as int
    }
}

pub fn import_paging(page: i64, page_size: i64) -> (r: ImportPaging)
    requires
        (import_page_spec(page) - 1) * import_page_size_spec(page_size) <= i64::MAX,
    ensures
        r.page == import_page_spec(page),
        r.page_size == import_page_size_spec(page_size),
        r.offset == (r.page - 1) * r.page_size,
{
    let p = if page < 1 {
        1
    } else {
        page
    };
    let s = if page_size < 1 {
        1
    } else if page_size > 200 {
        200
    } else {
        page_size
    };
    ImportPaging { page: p, page_size: s, offset: (p - 1) * s }
}

pub fn import_total_pages(total_count: i64, page_size: i64) -> (r: i64)
    requires
        total_count >= 0,
        1 <= page_size <= 200,
        total_count + page_size - 1 <= i64::MAX,
    ensures
        r == (total_count + page_size - 1) / (page_size as int),
{
    (total_count + (page_size - 1)) / page_size
}

/// Counts reported after an import.
pub struct ImportCounts {
    pub total: usize,
    pub imported: usize,
    pub duplicates: usize,
    pub failed: usize,
}

pub open spec fn count_status(jobs: Seq<ImportJobSummary>, status: Seq<char>) -> nat
    decreases jobs.len(),
{
    if jobs.len() == 0 {
        0
    } else {
        count_status(jobs.drop_last(), status) + if jobs.last().status@ == status {
            1nat
        } else {
            0nat
        }
    }
}

/// The raw files to recognize after an import: those of the imported jobs.
pub open spec fn imported_ids(jobs: Seq<ImportJobSummary>) -> Seq<i64>
    decreases jobs.len(),
{
    if jobs.len() == 0 {
        Seq::empty()
    } else {
        let prev = imported_ids(jobs.drop_last());
        let j = jobs.last();
        if j.status@ == "imported"@ && j.raw_file_id is Some {
            prev.push(j.raw_file_id->0)
        } else {
            prev
        }
    }
}

proof fn lemma_count_le(jobs: Seq<ImportJobSummary>, status: Seq<char>)
    ensures
        count_status(jobs, status) <= jobs.len(),
    decreases jobs.len(),
{
    if jobs.len() > 0 {
        lemma_count_le(jobs.drop_last(), status);
    }
}

/// The counts of an import and the raw files it hands to recognition.
pub fn import_outcome(jobs: &Vec<ImportJobSummary>) -> (r: (ImportCounts, Vec<i64>))
    ensures
        r.0.total == jobs.len(),
        r.0.imported == count_status(jobs@, "imported"@),
        r.0.duplicates == count_status(jobs@, "duplicate"@),
        r.0.failed == count_status(jobs@, "failed"@),
        r.1@ == imported_ids(jobs@),
{
    let mut imported: usize = 0;
    let mut duplicates: usize = 0;
    let mut failed: usize = 0;
    let mut ids: Vec<i64> = Vec::new();
    let mut i: usize = 0;
    while i < jobs.len()
        invariant
            i <= jobs.len(),
            imported == count_status(jobs@.take(i as int), "imported"@),
            duplicates == count_status(jobs@.take(i as int), "duplicate"@),
            failed == count_status(jobs@.take(i as int), "failed"@),
            ids@ == imported_ids(jobs@.take(i as int)),
        decreases jobs.len() - i,
    {
        let ghost t = jobs@.take(i as int + 1);
        assert(t.drop_last() =~= jobs@.take(i as int));
        assert(t.last() == jobs@[i as int]);
        proof {
            lemma_count_le(jobs@.take(i as int), "imported"@);
            lemma_count_le(jobs@.take(i as int), "duplicate"@);
            lemma_count_le(jobs@.take(i as int), "failed"@);
        }
        let s = chars_of(jobs[i].status.as_str());
        if chars_eq_str(&s, "imported") {
            imported += 1;
            match jobs[i].raw_file_id {
                Some(id) => ids.push(id),
                None => {},
            }
        }
        if chars_eq_str(&s, "duplicate") {
            duplicates += 1;
        }
        if chars_eq_str(&s, "failed") {
            failed += 1;
        }
        i += 1;
    }
    assert(jobs@.take(jobs.len() as int) =~= jobs@);
    (ImportCounts { total: jobs.len(), imported, duplicates, failed }, ids)
}

/// The message recorded on jobs that an interrupted run left unfinished.
pub fn interrupted_job_message() -> (r: &'static str)
    ensures
        r@ == "上次运行中断，任务已停止。请重新导入或重新识别。"@,
{
    "上次运行中断，任务已停止。请重新导入或重新识别。"
}

/// The statuses of jobs that a run leaves unfinished when it stops.
pub open spec fn unfinished_status(status: Seq<char>) -> bool {
    status == "importing"@ || status == "pending"@ || status == "processing"@ || status == "recognizing"@
}

/// What recovery makes of a job: an unfinished job whose raw file already
/// has an invoice counts as imported, with no error; any other unfinished
/// job failed, with the interruption message; other jobs are left alone
/// (none).
pub open spec fn recovered_job_spec(status: Seq<char>, has_invoice: bool) -> Option<(Seq<char>, Option<Seq<char>>)> {
    if unfinished_status(status) {
        if has_invoice {
            Some(("imported"@, None))
        } else {
            Some(("failed"@, Some("上次运行中断，任务已停止。请重新导入或重新识别。"@)))
        }
    } else {
        None
    }
}

/// The new status and error message of a job after an interrupted run;
/// `has_invoice` says whether the job's raw file has an invoice.
pub fn recovered_job(status: &str, has_invoice: bool) -> (r: Option<(&'static str, Option<&'static str>)>)
    ensures
        match recovered_job_spec(status@, has_invoice) {
            Some((st, err)) => r matches Some(p) && p.0@ == st && match err {
                Some(m) => p.1 matches Some(e) && e@ == m,
                None => p.1 is None,
            },
            None => r is None,
        },
{
    let unfinished = crate::text::str_eq(status, "importing") || crate::text::str_eq(status, "pending")
        || crate::text::str_eq(status, "processing") || crate::text::str_eq(status, "recognizing");
    if !unfinished {
        None
    } else if has_invoice {
        Some(("imported", None))
    } else {
        Some(("failed", Some(interrupted_job_message())))
    }
}

/// After recovery no job is left unfinished, and a job whose raw file has an
/// invoice is never marked failed.
pub proof fn law_recovery_finishes_jobs(status: Seq<char>, has_invoice: bool)
    ensures
        recovered_job_spec(status, has_invoice) matches Some((st, _)) ==> !unfinished_status(st),
        has_invoice ==> !(recovered_job_spec(status, has_invoice) matches Some((st, _)) && st == "failed"@),
{
    reveal_strlit("imported");
    reveal_strlit("failed");
    reveal_strlit("importing");
    reveal_strlit("pending");
    reveal_strlit("processing");
    reveal_strlit("recognizing");
    // the two outcomes and the four unfinished statuses all differ in length
    assert("imported"@.len() == 8 && "failed"@.len() == 6);
}

/// The unfinished jobs, each with its status and whether its raw file has
/// an invoice (1) or not (0).
pub fn unfinished_jobs_query() -> (r: &'static str)
    ensures
        r@ == "SELECT j.id, j.status, CASE WHEN j.raw_file_id IS NOT NULL AND EXISTS (SELECT 1 FROM invoices inv WHERE inv.raw_file_id = j.raw_file_id) THEN 1 ELSE 0 END FROM import_jobs j WHERE j.status IN ('importing', 'pending', 'processing', 'recognizing')"@,
{
    "SELECT j.id, j.status, CASE WHEN j.raw_file_id IS NOT NULL AND EXISTS (SELECT 1 FROM invoices inv WHERE inv.raw_file_id = j.raw_file_id) THEN 1 ELSE 0 END FROM import_jobs j WHERE j.status IN ('importing', 'pending', 'processing', 'recognizing')"
}

/// The update that recovery makes to job `job_id`, at time `now`: its new
/// status and error message as `recovered_job` decides them; none for a job
/// that recovery leaves alone.
pub fn recovery_update(job_id: i64, status: &str, has_invoice: bool, now: &str) -> (r: Option<
    crate::exporter::SqlQuery,
>)
    ensures
        match recovered_job_spec(status@, has_invoice) {
            Some((st, err)) => r matches Some(q) && q.sql@
                == "UPDATE import_jobs SET status = ?1, error_message = ?2, updated_at = ?3 WHERE id = ?4"@
                && crate::sql::values_view(q.params@) == seq![
                crate::sql::SqlValueView::Text(st),
                match err {
                    Some(m) => crate::sql::SqlValueView::Text(m),
                    None => crate::sql::SqlValueView::Null,
                },
                crate::sql::SqlValueView::Text(now@),
                crate::sql::SqlValueView::Integer(job_id as int),
            ],
            None => r is None,
        },
{
    match recovered_job(status, has_invoice) {
        None => None,
        Some((st, err)) => {
            let mut params: Vec<crate::sql::SqlValue> = Vec::new();
            params.push(crate::sql::SqlValue::Text(st.to_owned()));
            match err {
                Some(m) => params.push(crate::sql::SqlValue::Text(m.to_owned())),
                None => params.push(crate::sql::SqlValue::Null),
            }
            params.push(crate::sql::SqlValue::Text(now.to_owned()));
            params.push(crate::sql::SqlValue::Integer(job_id));
            assert(crate::sql::values_view(params@) =~= seq![
                crate::sql::SqlValueView::Text(st@),
                match err {
                    Some(m) => crate::sql::SqlValueView::Text(m@),
                    None => crate::sql::SqlValueView::Null,
                },
                crate::sql::SqlValueView::Text(now@),
                crate::sql::SqlValueView::Integer(job_id as int),
            ]);
            Some(crate::exporter::SqlQuery {
                sql: "UPDATE import_jobs SET status = ?1, error_message = ?2, updated_at = ?3 WHERE id = ?4".to_owned(),
                params,
            })
        },
    }
}

} // verus!
