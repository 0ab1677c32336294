//! The activity log: paging of the log, its query with an optional type
//! filter, and the texts of the entries recorded after an import or a
//! recognition.  The row of a notification is declared here for its
//! readers; notifications are stored and read by plain statements of the
//! caller.
use vstd::prelude::*;

use crate::text::{dec, push_str, push_u64, push_usize, string_from_chars};

verus! {

pub struct EventRow {
    pub id: i64,
    pub event_type: String,
    pub title: String,
    pub description: String,
    pub status: String,
    pub reference_type: Option<String>,
    pub reference_id: Option<i64>,
    pub metadata_json: Option<String>,
    pub created_at: String,
}

pub struct EventListResult {
    pub events: Vec<EventRow>,
    pub total_count: i64,
    pub page: i64,
    pub page_size: i64,
    pub total_pages: i64,
}

pub struct NotificationRow {
    pub id: i64,
    pub level: String,
    pub title: String,
    pub message: String,
    pub is_read: bool,
    pub reference_type: Option<String>,
    pub reference_id: Option<i64>,
    pub created_at: String,
}

/// Page, page size and offset of the log: the page at least 1, the size
/// between 1 and 100.
pub struct EventPaging {
    pub page: i64,
    pub page_size: i64,
    pub offset: i64,
}

pub open spec fn event_page_spec(page: i64) -> int {
    if page < 1 {
        1
    } else {
        page as int
    }
}

pub open spec fn event_page_size_spec(page_size: i64) -> int {
    if page_size < 1 {
        1
    } else if page_size > 100 {
        100
    } else {
        page_size as int
    }
}

pub fn event_paging(page: i64, page_size: i64) -> (r: EventPaging)
    requires
        (event_page_spec(page) - 1) * event_page_size_spec(page_size) <= i64::MAX,
    ensures
        r.page == event_page_spec(page),
        r.page_size == event_page_size_spec(page_size),
        r.offset == (r.page - 1) * r.page_size,
{
    let p = if page < 1 {
        1
    } else {
        page
    };
    let s = if page_size < 1 {
        1
    } else if page_size > 100 {
        100
    } else {
        page_size
    };
    EventPaging { page: p, page_size: s, offset: (p - 1) * s }
}

/// The number of pages of the log: the count divided by the page size,
/// rounded up.
pub fn event_total_pages(total_count: i64, page_size: i64) -> (r: i64)
    requires
        total_count >= 0,
        1 <= page_size <= 100,
        total_count + page_size - 1 <= i64::MAX,
    ensures
        r == (total_count + page_size - 1) / (page_size as int),
{
    (total_count + (page_size - 1)) / page_size
}

/// The statements that count and list the log, with the type filter bound
/// to `?1` when there is one.
pub struct EventQueries {
    pub count_sql: String,
    pub list_sql: String,
}

pub open spec fn event_where(filtered: bool) -> Seq<char> {
    if filtered {
        "WHERE event_type = ?1"@
    } else {
        Seq::empty()
    }
}

pub fn event_queries(filtered: bool) -> (r: EventQueries)
    ensures
        r.count_sql@ == "SELECT COUNT(*) FROM events "@ + event_where(filtered),
        filtered ==> r.list_sql@
            == "SELECT id, event_type, title, description, status, reference_type, reference_id, metadata_json, created_at FROM events WHERE event_type = ?1 ORDER BY created_at DESC LIMIT ?2 OFFSET ?3"@,
        !filtered ==> r.list_sql@
            == "SELECT id, event_type, title, description, status, reference_type, reference_id, metadata_json, created_at FROM events ORDER BY created_at DESC LIMIT ?1 OFFSET ?2"@,
{
    let mut c: Vec<char> = Vec::new();
    push_str(&mut c, "SELECT COUNT(*) FROM events ");
    if filtered {
        push_str(&mut c, "WHERE event_type = ?1");
    }
    proof {
        if !filtered {
            assert(c@ =~= "SELECT COUNT(*) FROM events "@ + Seq::<char>::empty());
        }
    }
    let list = if filtered {
        "SELECT id, event_type, title, description, status, reference_type, reference_id, metadata_json, created_at FROM events WHERE event_type = ?1 ORDER BY created_at DESC LIMIT ?2 OFFSET ?3".to_owned()
    } else {
        "SELECT id, event_type, title, description, status, reference_type, reference_id, metadata_json, created_at FROM events ORDER BY created_at DESC LIMIT ?1 OFFSET ?2".to_owned()
    };
    EventQueries { count_sql: string_from_chars(c.as_slice()), list_sql: list }
}

/// The title and description of the entry recorded after an import.
pub fn import_event_text(
    file_count: usize,
    success_count: usize,
    duplicate_count: usize,
    failure_count: usize,
) -> (r: (String, String))
    ensures
        r.0@ == "导入 "@ + dec(file_count as nat) + " 个文件"@,
        r.1@ == "成功 "@ + dec(success_count as nat) + "，重复 "@ + dec(duplicate_count as nat)
            + "，失败 "@ + dec(failure_count as nat),
{
    let mut t: Vec<char> = Vec::new();
    push_str(&mut t, "导入 ");
    push_usize(&mut t, file_count);
    push_str(&mut t, " 个文件");
    let mut d: Vec<char> = Vec::new();
    push_str(&mut d, "成功 ");
    push_usize(&mut d, success_count);
    push_str(&mut d, "，重复 ");
    push_usize(&mut d, duplicate_count);
    push_str(&mut d, "，失败 ");
    push_usize(&mut d, failure_count);
    (string_from_chars(t.as_slice()), string_from_chars(d.as_slice()))
}

/// The title, description and status of the entry recorded after a
/// recognition; the duration is in milliseconds.
pub fn recognition_event_text(
    invoice_title: &str,
    success: bool,
    duration_ms: u64,
    model: &str,
    page_count: usize,
) -> (r: (String, String, &'static str))
    ensures
        success ==> r.0@ == "识别发票: "@ + invoice_title@ && r.1@ == "模型 "@ + model@ + "，耗时 "@
            + dec(duration_ms as nat) + "ms，"@ + dec(page_count as nat) + " 页"@ && r.2@
            == "completed"@,
        !success ==> r.0@ == "识别失败: "@ + invoice_title@ && r.1@ == "模型 "@ + model@ + "，耗时 "@
            + dec(duration_ms as nat) + "ms"@ && r.2@ == "failed"@,
{
    let mut t: Vec<char> = Vec::new();
    let mut d: Vec<char> = Vec::new();
    push_str(&mut d, "模型 ");
    push_str(&mut d, model);
    push_str(&mut d, "，耗时 ");
    push_u64(&mut d, duration_ms);
    if success {
        push_str(&mut t, "识别发票: ");
        push_str(&mut t, invoice_title);
        push_str(&mut d, "ms，");
        push_usize(&mut d, page_count);
        push_str(&mut d, " 页");
        (string_from_chars(t.as_slice()), string_from_chars(d.as_slice()), "completed")
    } else {
        push_str(&mut t, "识别失败: ");
        push_str(&mut t, invoice_title);
        push_str(&mut d, "ms");
        (string_from_chars(t.as_slice()), string_from_chars(d.as_slice()), "failed")
    }
}

} // verus!
