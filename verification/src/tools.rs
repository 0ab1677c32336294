//! Checks and texts of the assistant's tools: which paths a tool may write,
//! the current month as a date range, the arguments the tools default or
//! clamp, and the messages of refused calls and of template exports.
use vstd::prelude::*;

use crate::text::{
    chars_eq, chars_eq_str, chars_of, dec, dec_int, push_chars, push_i64, push_str, push_usize, split_all,
    split_pieces, starts_with, string_from_chars, views,
};
use crate::xlsx::string_views;

verus! {

// ---------------------------------------------------------------------------
// Paths a tool may touch
// ---------------------------------------------------------------------------

/// The components of a Unix path as `Path::components` gives them: the root
/// `/` when the path starts with one, a leading `.` when it starts with
/// one, then the non-empty names between separators other than `.`.
pub open spec fn path_components(s: Seq<char>) -> Seq<Seq<char>> {
    let pieces = split_all(s, "/"@);
    let head: Seq<Seq<char>> = if s.len() > 0 && s[0] == '/' {
        seq!["/"@]
    } else if pieces.len() > 0 && pieces[0] == "."@ {
        seq!["."@]
    } else {
        Seq::empty()
    };
    head + named_parts(pieces)
}

/// The pieces that name something: not empty and not `.`.
pub open spec fn named_parts(pieces: Seq<Seq<char>>) -> Seq<Seq<char>>
    decreases pieces.len(),
{
    if pieces.len() == 0 {
        Seq::empty()
    } else {
        let prev = named_parts(pieces.drop_last());
        let p = pieces.last();
        if p.len() > 0 && p != "."@ {
            prev.push(p)
        } else {
            prev
        }
    }
}

/// `Path::starts_with`: the components of `base` begin those of `path`.
pub open spec fn path_starts_with(path: Seq<char>, base: Seq<char>) -> bool {
    let a = path_components(path);
    let b = path_components(base);
    b.len() <= a.len() && a.take(b.len() as int) == b
}

fn components(s: &str) -> (r: Vec<Vec<char>>)
    ensures
        views(r@) == path_components(s@),
{
    let c = chars_of(s);
    let slash = chars_of("/");
    proof {
        reveal_strlit("/");
        reveal_strlit(".");
        crate::text::lemma_split_nonempty(c@, slash@);
    }
    let pieces = split_pieces(&c, &slash);
    let ghost ps = split_all(s@, "/"@);
    let mut r: Vec<Vec<char>> = Vec::new();
    if c.len() > 0 && c[0] == '/' {
        r.push(chars_of("/"));
    } else if pieces.len() > 0 && chars_eq_str(&pieces[0], ".") {
        assert(ps[0] == pieces@[0]@);
        r.push(chars_of("."));
    }
    let ghost head = views(r@);
    assert(head == if s@.len() > 0 && s@[0] == '/' {
        seq!["/"@]
    } else if ps.len() > 0 && ps[0] == "."@ {
        seq!["."@]
    } else {
        Seq::<Seq<char>>::empty()
    });
    let mut i: usize = 0;
    while i < pieces.len()
        invariant
            i <= pieces.len(),
            views(pieces@) == ps,
            views(r@) == head + named_parts(ps.take(i as int)),
        decreases pieces.len() - i,
    {
        assert(ps[i as int] == pieces@[i as int]@);
        let ghost before = views(r@);
        let ghost kept = named_parts(ps.take(i as int));
        assert(ps.take(i as int + 1).drop_last() =~= ps.take(i as int));
        assert(ps.take(i as int + 1).last() == ps[i as int]);
        if pieces[i].len() > 0 && !chars_eq_str(&pieces[i], ".") {
            let p = crate::text::slice_chars(&pieces[i], 0, pieces[i].len());
            assert(p@ =~= ps[i as int]);
            r.push(p);
            assert(views(r@) =~= before.push(p@));
            assert(head + kept.push(p@) =~= (head + kept).push(p@));
        }
        i += 1;
    }
    assert(ps.take(pieces.len() as int) =~= ps);
    r
}

fn has_prefix(a: &Vec<Vec<char>>, b: &Vec<Vec<char>>) -> (r: bool)
    ensures
        r == (views(b@).len() <= views(a@).len() && views(a@).take(views(b@).len() as int) == views(
            b@,
        )),
{
    if b.len() > a.len() {
        return false;
    }
    let mut i: usize = 0;
    while i < b.len()
        invariant
            i <= b.len() <= a.len(),
            forall|k: int| 0 <= k < i ==> a@[k]@ == b@[k]@,
        decreases b.len() - i,
    {
        if !chars_eq(&a[i], &b[i]) {
            assert(views(a@).take(b.len() as int)[i as int] != views(b@)[i as int]);
            return false;
        }
        i += 1;
    }
    assert(views(a@).take(b.len() as int) =~= views(b@));
    true
}

/// Whether a tool may touch a path: none with a `..` component; those
/// inside the application's data directory, the temporary directory or the
/// desktop.
pub open spec fn agent_path_check(
    path: Seq<char>,
    app_data_dir: Seq<char>,
    temp_dir: Seq<char>,
    desktop_dir: Option<Seq<char>>,
) -> Result<(), Seq<char>> {
    if path_components(path).contains(".."@) {
        Err("路径不允许包含 .."@)
    } else if path_starts_with(path, app_data_dir) || path_starts_with(path, temp_dir) || (
    match desktop_dir {
        Some(d) => path_starts_with(path, d),
        None => false,
    }) {
        Ok(())
    } else {
        Err("路径不在允许的目录中: "@ + path)
    }
}

pub fn validate_agent_path(path: &str, app_data_dir: &str, temp_dir: &str, desktop_dir: Option<&str>) -> (r:
    Result<(), String>)
    ensures
        match agent_path_check(
            path@,
            app_data_dir@,
            temp_dir@,
            crate::search::opt_str_view(desktop_dir),
        ) {
            Ok(()) => r is Ok,
            Err(m) => r matches Err(e) && e@ == m,
        },
{
    let pc = components(path);
    let dots = chars_of("..");
    let mut i: usize = 0;
    while i < pc.len()
        invariant
            i <= pc.len(),
            dots@ == ".."@,
            views(pc@) == path_components(path@),
            forall|k: int| 0 <= k < i ==> pc@[k]@ != ".."@,
        decreases pc.len() - i,
    {
        if chars_eq(&pc[i], &dots) {
            assert(views(pc@)[i as int] == ".."@);
            assert(views(pc@).contains(".."@));
            return Err("路径不允许包含 ..".to_owned());
        }
        i += 1;
    }
    proof {
        if views(pc@).contains(".."@) {
            let k = choose|k: int| 0 <= k < views(pc@).len() && views(pc@)[k] == ".."@;
            assert(pc@[k]@ == ".."@);
        }
    }
    let app = components(app_data_dir);
    let tmp = components(temp_dir);
    let allowed = has_prefix(&pc, &app) || has_prefix(&pc, &tmp) || match desktop_dir {
        Some(d) => {
            let dc = components(d);
            has_prefix(&pc, &dc)
        },
        None => false,
    };
    if allowed {
        Ok(())
    } else {
        let mut m: Vec<char> = Vec::new();
        push_str(&mut m, "路径不在允许的目录中: ");
        push_str(&mut m, path);
        Err(string_from_chars(m.as_slice()))
    }
}

// ---------------------------------------------------------------------------
// The current month
// ---------------------------------------------------------------------------

pub open spec fn is_leap_year(y: int) -> bool {
    (y % 4 == 0 && y % 100 != 0) || y % 400 == 0
}

/// The number of days of a month of the proleptic Gregorian calendar.
pub open spec fn days_in_month_spec(y: int, m: int) -> int {
    if m == 2 {
        if is_leap_year(y) {
            29
        } else {
            28
        }
    } else if m == 4 || m == 6 || m == 9 || m == 11 {
        30
    } else {
        31
    }
}

pub fn days_in_month(year: i32, month: u32) -> (r: u32)
    requires
        1 <= month <= 12,
    ensures
        r == days_in_month_spec(year as int, month as int),
        28 <= r <= 31,
{
    if month == 2 {
        if (year % 4 == 0 && year % 100 != 0) || year % 400 == 0 {
            29
        } else {
            28
        }
    } else if month == 4 || month == 6 || month == 9 || month == 11 {
        30
    } else {
        31
    }
}

/// Digits of `n`, zero-padded to `width`.
pub open spec fn padded(n: nat, width: nat) -> Seq<char> {
    let d = dec(n);
    if d.len() < width {
        Seq::new((width - d.len()) as nat, |i: int| '0') + d
    } else {
        d
    }
}

/// A date as chrono writes it: the year with four digits (a sign and at
/// least four digits outside 0..=9999), then the month and the day with two.
pub open spec fn date_text_spec(y: int, m: nat, d: nat) -> Seq<char> {
    (if 0 <= y <= 9999 {
        padded(y as nat, 4)
    } else if y < 0 {
        "-"@ + padded((-y) as nat, 4)
    } else {
        "+"@ + padded(y as nat, 4)
    }) + "-"@ + padded(m, 2) + "-"@ + padded(d, 2)
}

fn push_padded(out: &mut Vec<char>, n: u64, width: usize)
    requires
        width <= 20,
    ensures
        final(out)@ == old(out)@ + padded(n as nat, width as nat),
{
    let mut digits: Vec<char> = Vec::new();
    crate::text::push_u64(&mut digits, n);
    assert(digits@ =~= dec(n as nat));
    let ghost start = out@;
    if digits.len() < width {
        let k = width - digits.len();
        let mut i: usize = 0;
        while i < k
            invariant
                i <= k,
                out@ =~= start + Seq::new(i as nat, |j: int| '0'),
            decreases k - i,
        {
            out.push('0');
            i += 1;
        }
    }
    let ghost mid = out@;
    crate::text::push_chars(out, &digits);
    proof {
        if digits@.len() < width {
            assert(out@ =~= start + (Seq::new((width - digits@.len()) as nat, |j: int| '0') + digits@));
        } else {
            assert(out@ =~= start + digits@);
        }
    }
}

pub fn date_text(year: i32, month: u32, day: u32) -> (r: String)
    ensures
        r@ == date_text_spec(year as int, month as nat, day as nat),
{
    let mut out: Vec<char> = Vec::new();
    if 0 <= year && year <= 9999 {
        push_padded(&mut out, year as u64, 4);
    } else if year < 0 {
        out.push('-');
        let ghost s = out@;
        push_padded(&mut out, (0i64 - year as i64) as u64, 4);
        assert(out@ =~= "-"@ + padded((-year) as nat, 4)) by {
            reveal_strlit("-");
        }
    } else {
        out.push('+');
        push_padded(&mut out, year as u64, 4);
        assert(out@ =~= "+"@ + padded(year as nat, 4)) by {
            reveal_strlit("+");
        }
    }
    let ghost y = out@;
    push_str(&mut out, "-");
    push_padded(&mut out, month as u64, 2);
    push_str(&mut out, "-");
    push_padded(&mut out, day as u64, 2);
    string_from_chars(out.as_slice())
}

/// Today and the current month as a date range, as the date-context tool
/// reports them.
pub struct DateContext {
    pub today: String,
    pub month_from: String,
    pub month_to: String,
    pub year: i32,
    pub month: u32,
}

pub fn date_context(year: i32, month: u32, day: u32) -> (r: DateContext)
    requires
        1 <= month <= 12,
    ensures
        r.today@ == date_text_spec(year as int, month as nat, day as nat),
        r.month_from@ == date_text_spec(year as int, month as nat, 1),
        r.month_to@ == date_text_spec(
            year as int,
            month as nat,
            days_in_month_spec(year as int, month as int) as nat,
        ),
        r.year == year,
        r.month == month,
{
    let last = days_in_month(year, month);
    DateContext {
        today: date_text(year, month, day),
        month_from: date_text(year, month, 1),
        month_to: date_text(year, month, last),
        year,
        month,
    }
}

/// The month range covers whole months: February has 29 days exactly in
/// leap years, and every month ends on day 28 to 31.
pub proof fn law_month_end(y: int, m: int)
    requires
        1 <= m <= 12,
    ensures
        28 <= days_in_month_spec(y, m) <= 31,
        m == 2 ==> (days_in_month_spec(y, m) == 29 <==> is_leap_year(y)),
{
}

// ---------------------------------------------------------------------------
// Arguments and messages
// ---------------------------------------------------------------------------

/// The rows a spreadsheet inspection shows: 5 unless asked, between 1 and
/// 20.
pub fn inspection_rows(max_rows: Option<u64>) -> (r: usize)
    ensures
        r == match max_rows {
            Some(v) => if v < 1 {
                1
            } else if v > 20 {
                20
            } else {
                v as int
            },
            None => 5,
        },
{
    match max_rows {
        Some(v) => if v < 1 {
            1
        } else if v > 20 {
            20
        } else {
            v as usize
        },
        None => 5,
    }
}

/// The message of a tool call without a required argument.
pub fn missing_argument(name: &str) -> (r: String)
    ensures
        r@ == "缺少 "@ + name@ + " 参数"@,
{
    let mut m: Vec<char> = Vec::new();
    push_str(&mut m, "缺少 ");
    push_str(&mut m, name);
    push_str(&mut m, " 参数");
    string_from_chars(m.as_slice())
}

/// An attachment is usable by a tool only in its own conversation.
pub fn attachment_access(attachment_session: i64, session_id: i64) -> (r: Result<(), String>)
    ensures
        attachment_session == session_id ==> r is Ok,
        attachment_session != session_id ==> (r matches Err(m) && m@ == "附件不属于当前会话"@),
{
    if attachment_session == session_id {
        Ok(())
    } else {
        Err("附件不属于当前会话".to_owned())
    }
}

/// Where a confirmed template export goes.
pub enum ExportDestination {
    /// The user cancelled.
    Cancelled,
    /// A file named for the time on the desktop.
    Desktop,
    /// The path the call named.
    Path { path: String },
    /// No destination: the call named none.
    Missing,
}

/// The destination of a confirmed export from the user's choice and the
/// path in the call.
pub fn export_destination(choice: Option<&str>, output_path: Option<&str>) -> (r: ExportDestination)
    ensures
        (choice matches Some(c) && c@ == "cancel"@) ==> r is Cancelled,
        (choice matches Some(c) && c@ == "desktop"@) ==> r is Desktop,
        !(choice matches Some(c) && (c@ == "cancel"@ || c@ == "desktop"@)) ==> match output_path {
            Some(p) => r matches ExportDestination::Path { path } && path@ == p@,
            None => r is Missing,
        },
{
    proof {
        reveal_strlit("cancel");
        reveal_strlit("desktop");
        assert("cancel"@.len() != "desktop"@.len());
    }
    let c = match choice {
        Some(c) => chars_of(c),
        None => Vec::new(),
    };
    if choice.is_some() && chars_eq_str(&c, "cancel") {
        ExportDestination::Cancelled
    } else if choice.is_some() && chars_eq_str(&c, "desktop") {
        ExportDestination::Desktop
    } else {
        match output_path {
            Some(p) => ExportDestination::Path { path: p.to_owned() },
            None => ExportDestination::Missing,
        }
    }
}

/// The file name of an export to the desktop; `stamp` is the local time as
/// `YYYYmmdd_HHMMSS`.
pub fn desktop_export_name(stamp: &str) -> (r: String)
    ensures
        r@ == "发票导出_"@ + stamp@ + ".xlsx"@,
{
    let mut m: Vec<char> = Vec::new();
    push_str(&mut m, "发票导出_");
    push_str(&mut m, stamp);
    push_str(&mut m, ".xlsx");
    string_from_chars(m.as_slice())
}

/// The question asked before a template export: the template, the number
/// of invoices and of mapped columns, and the plan's warnings.
pub fn template_export_question(template_name: &str, row_count: usize, mapped_count: usize, warnings: &Vec<
    String,
>) -> (r: String)
    ensures
        r@ == "将按模板「"@ + template_name@ + "」导出 "@ + dec(row_count as nat) + " 张发票（已映射 "@
            + dec(mapped_count as nat) + " 列）"@ + (if warnings.len() == 0 {
            Seq::<char>::empty()
        } else {
            "\n注意: "@ + crate::sql::join(string_views(warnings@), "; "@)
        }),
{
    let mut m: Vec<char> = Vec::new();
    push_str(&mut m, "将按模板「");
    push_str(&mut m, template_name);
    push_str(&mut m, "」导出 ");
    push_usize(&mut m, row_count);
    push_str(&mut m, " 张发票（已映射 ");
    push_usize(&mut m, mapped_count);
    push_str(&mut m, " 列）");
    let ghost head = m@;
    if warnings.len() > 0 {
        push_str(&mut m, "\n注意: ");
        let j = crate::sql::join_strings(warnings, "; ");
        push_str(&mut m, j.as_str());
    } else {
        assert(m@ =~= head + Seq::<char>::empty());
    }
    string_from_chars(m.as_slice())
}

// ---------------------------------------------------------------------------
// Spreadsheets uploaded to the assistant
// ---------------------------------------------------------------------------

/// The last component of a path as `Path::file_name` reads it: none when
/// there is no component or the last one is the root, `.` or `..`.
pub open spec fn path_file_name(path: Seq<char>) -> Option<Seq<char>> {
    let c = path_components(path);
    if c.len() > 0 && c.last() != "/"@ && c.last() != "."@ && c.last() != ".."@ {
        Some(c.last())
    } else {
        None
    }
}

/// `Path::new(path).file_name()`, as text: the final component when it is a
/// normal one (not the root, `.` or `..`).
#[verifier::external_body]
fn file_name_of(path: &str) -> (r: Option<String>)
    ensures
        match r {
            Some(n) => path_file_name(path@) == Some(n@),
            None => path_file_name(path@) is None,
        },
{
    std::path::Path::new(path).file_name().and_then(|n| n.to_str()).map(|n| n.to_owned())
}

/// The first MIME type that `mime_guess` knows for a path's extension.
pub uninterp spec fn guessed_mime(path: Seq<char>) -> Option<Seq<char>>;

/// `mime_guess::from_path(path).first_raw()`: the first type registered for
/// the path's extension, none when the extension is missing or unknown.
/// The table of types is the crate's and is only named here.
#[verifier::external_body]
fn first_guessed_mime(path: &str) -> (r: Option<String>)
    ensures
        crate::search::ostr(r) == guessed_mime(path@),
{
    mime_guess::from_path(path).first_raw().map(|m| m.to_owned())
}

pub open spec fn upload_check_spec(source_path: Seq<char>) -> Result<Seq<char>, Seq<char>> {
    let ext = match crate::mail::path_extension(source_path) {
        Some(e) => crate::text::lower_seq(e),
        None => Seq::empty(),
    };
    if ext == "xlsx"@ || ext == "csv"@ {
        Ok(
            match path_file_name(source_path) {
                Some(n) => n,
                None => "attachment"@,
            },
        )
    } else {
        Err("目前 Agent 仅支持上传 xlsx/csv 表格"@)
    }
}

/// Checks a file before it is attached to an assistant session: only `xlsx`
/// and `csv` files (by extension, in any case) are taken. Gives the name
/// under which the attachment is shown, `attachment` when the path has no
/// file name.
pub fn agent_upload_check(source_path: &str) -> (r: Result<String, String>)
    ensures
        match upload_check_spec(source_path@) {
            Ok(n) => r matches Ok(s) && s@ == n,
            Err(m) => r matches Err(e) && e@ == m,
        },
{
    let ext: Vec<char> = match crate::mail::file_extension(source_path) {
        Some(e) => crate::text::lower_chars(&chars_of(e.as_str())),
        None => Vec::new(),
    };
    if chars_eq_str(&ext, "xlsx") || chars_eq_str(&ext, "csv") {
        match file_name_of(source_path) {
            Some(n) => Ok(n),
            None => Ok("attachment".to_owned()),
        }
    } else {
        Err("目前 Agent 仅支持上传 xlsx/csv 表格".to_owned())
    }
}

/// The MIME type recorded for a stored attachment: the one guessed from its
/// extension, if any.
pub fn agent_upload_mime(stored_path: &str) -> (r: Option<String>)
    ensures
        crate::search::ostr(r) == guessed_mime(stored_path@),
{
    first_guessed_mime(stored_path)
}

// ---------------------------------------------------------------------------
// Questions asked before a tool runs, and the user's answers
// ---------------------------------------------------------------------------

pub open spec fn opt_text(o: Option<&str>) -> Option<Seq<char>> {
    match o {
        Some(s) => Some(s@),
        None => None,
    }
}

pub open spec fn export_scope_spec(invoice_count: nat) -> Seq<char> {
    if invoice_count > 0 {
        dec(invoice_count) + " 张发票"@
    } else {
        "匹配条件的发票"@
    }
}

pub open spec fn export_columns_spec(columns: Option<Seq<Seq<char>>>) -> Seq<char> {
    match columns {
        Some(c) => if c.len() == 0 {
            "全部默认列"@
        } else {
            "列: "@ + crate::sql::join(c, ", "@)
        },
        None => "全部默认列"@,
    }
}

pub open spec fn export_dates_spec(from: Option<Seq<char>>, to: Option<Seq<char>>) -> Seq<char> {
    match (from, to) {
        (Some(f), Some(t)) => "，日期 "@ + f + " 至 "@ + t,
        (Some(f), None) => "，日期从 "@ + f + " 起"@,
        (None, Some(t)) => "，日期截至 "@ + t,
        (None, None) => Seq::empty(),
    }
}

pub open spec fn export_question_spec(
    format: Option<Seq<char>>,
    invoice_count: nat,
    columns: Option<Seq<Seq<char>>>,
    from: Option<Seq<char>>,
    to: Option<Seq<char>>,
) -> Seq<char> {
    "将导出"@ + export_scope_spec(invoice_count) + "为 "@ + (match format {
        Some(f) => f,
        None => "csv"@,
    }) + " 格式，"@ + export_columns_spec(columns) + export_dates_spec(from, to) + "。请选择保存位置。"@
}

fn push_export_scope(out: &mut Vec<char>, invoice_count: usize)
    ensures
        final(out)@ == old(out)@ + export_scope_spec(invoice_count as nat),
{
    if invoice_count > 0 {
        push_usize(out, invoice_count);
        push_str(out, " 张发票");
    } else {
        push_str(out, "匹配条件的发票");
    }
}

fn push_export_columns(out: &mut Vec<char>, columns: Option<&Vec<String>>)
    ensures
        final(out)@ == old(out)@ + export_columns_spec(
            match columns {
                Some(c) => Some(string_views(c@)),
                None => None,
            },
        ),
{
    match columns {
        Some(c) => {
            if c.len() == 0 {
                push_str(out, "全部默认列");
            } else {
                push_str(out, "列: ");
                let j = crate::sql::join_strings(c, ", ");
                push_str(out, j.as_str());
            }
        },
        None => push_str(out, "全部默认列"),
    }
}

fn push_export_dates(out: &mut Vec<char>, date_from: Option<&str>, date_to: Option<&str>)
    ensures
        final(out)@ == old(out)@ + export_dates_spec(opt_text(date_from), opt_text(date_to)),
{
    match (date_from, date_to) {
        (Some(f), Some(t)) => {
            push_str(out, "，日期 ");
            push_str(out, f);
            push_str(out, " 至 ");
            push_str(out, t);
        },
        (Some(f), None) => {
            push_str(out, "，日期从 ");
            push_str(out, f);
            push_str(out, " 起");
        },
        (None, Some(t)) => {
            push_str(out, "，日期截至 ");
            push_str(out, t);
        },
        (None, None) => {
            assert(out@ =~= out@ + Seq::<char>::empty());
        },
    }
}

/// The question asked before an export: how many invoices (or those that
/// match), the format (`csv` when none), the named columns or all default
/// columns, and the date range.
pub fn export_question(
    format: Option<&str>,
    invoice_count: usize,
    columns: Option<&Vec<String>>,
    date_from: Option<&str>,
    date_to: Option<&str>,
) -> (r: String)
    ensures
        r@ == export_question_spec(
            opt_text(format),
            invoice_count as nat,
            match columns {
                Some(c) => Some(string_views(c@)),
                None => None,
            },
            opt_text(date_from),
            opt_text(date_to),
        ),
{
    let mut out: Vec<char> = Vec::new();
    push_str(&mut out, "将导出");
    push_export_scope(&mut out, invoice_count);
    push_str(&mut out, "为 ");
    match format {
        Some(f) => push_str(&mut out, f),
        None => push_str(&mut out, "csv"),
    }
    push_str(&mut out, " 格式，");
    push_export_columns(&mut out, columns);
    push_export_dates(&mut out, date_from, date_to);
    push_str(&mut out, "。请选择保存位置。");
    string_from_chars(out.as_slice())
}

/// The name of an export file: `xlsx` when that format was asked for, else
/// `csv`.
pub fn export_file_name(stamp: &str, format: Option<&str>) -> (r: String)
    ensures
        r@ == "发票导出_"@ + stamp@ + "."@ + (if opt_text(format) == Some("xlsx"@) {
            "xlsx"@
        } else {
            "csv"@
        }),
{
    let mut out: Vec<char> = Vec::new();
    push_str(&mut out, "发票导出_");
    push_str(&mut out, stamp);
    push_str(&mut out, ".");
    let xlsx = match format {
        Some(f) => crate::text::str_eq(f, "xlsx"),
        None => false,
    };
    if xlsx {
        push_str(&mut out, "xlsx");
    } else {
        push_str(&mut out, "csv");
    }
    string_from_chars(out.as_slice())
}

/// A button offered with a question.
pub struct ConfirmOption {
    pub label: String,
    pub value: String,
    pub style: Option<String>,
}

pub open spec fn option_view(o: ConfirmOption) -> (Seq<char>, Seq<char>, Option<Seq<char>>) {
    (o.label@, o.value@, crate::search::ostr(o.style))
}

fn confirm_option(label: &str, value: &str, style: &str) -> (r: ConfirmOption)
    ensures
        option_view(r) == (label@, value@, Some(style@)),
{
    ConfirmOption { label: label.to_owned(), value: value.to_owned(), style: Some(style.to_owned()) }
}

/// The answers offered when an export has no path yet: save to the
/// desktop, pick a place, or cancel; none when the path is given.
pub fn save_location_options(has_user_path: bool) -> (r: Option<Vec<ConfirmOption>>)
    ensures
        has_user_path ==> r is None,
        !has_user_path ==> (r matches Some(v) && v@.map_values(|o: ConfirmOption| option_view(o)) == seq![
            ("保存到桌面"@, "desktop"@, Some("primary"@)),
            ("选择位置..."@, "pick_path"@, Some("secondary"@)),
            ("取消"@, "cancel"@, Some("danger"@)),
        ]),
{
    if has_user_path {
        None
    } else {
        let v = vec![
            confirm_option("保存到桌面", "desktop", "primary"),
            confirm_option("选择位置...", "pick_path", "secondary"),
            confirm_option("取消", "cancel", "danger"),
        ];
        assert(v@.map_values(|o: ConfirmOption| option_view(o)) =~= seq![
            ("保存到桌面"@, "desktop"@, Some("primary"@)),
            ("选择位置..."@, "pick_path"@, Some("secondary"@)),
            ("取消"@, "cancel"@, Some("danger"@)),
        ]);
        Some(v)
    }
}

pub open spec fn ids_text(ids: Seq<i64>) -> Seq<char> {
    "["@ + crate::sql::join(ids.map_values(|i: i64| dec_int(i as int)), ", "@) + "]"@
}

/// The question asked before invoices are merged into a target.
pub fn merge_question(source_ids: &Vec<i64>, target_id: i64) -> (r: String)
    ensures
        r@ == "将发票 "@ + ids_text(source_ids@) + " 合并到发票 #"@ + dec_int(target_id as int) + "，是否确认？"@,
{
    let mut parts: Vec<String> = Vec::new();
    let mut i: usize = 0;
    while i < source_ids.len()
        invariant
            i <= source_ids.len(),
            string_views(parts@) =~= source_ids@.take(i as int).map_values(|x: i64| dec_int(x as int)),
        decreases source_ids.len() - i,
    {
        let mut c: Vec<char> = Vec::new();
        push_i64(&mut c, source_ids[i]);
        let ghost before = parts@;
        parts.push(string_from_chars(c.as_slice()));
        assert(string_views(parts@) =~= string_views(before).push(dec_int(source_ids@[i as int] as int)));
        assert(source_ids@.take(i + 1) =~= source_ids@.take(i as int).push(source_ids@[i as int]));
        i = i + 1;
    }
    assert(source_ids@.take(source_ids.len() as int) =~= source_ids@);
    let mut out: Vec<char> = Vec::new();
    push_str(&mut out, "将发票 ");
    push_str(&mut out, "[");
    let j = crate::sql::join_strings(&parts, ", ");
    push_str(&mut out, j.as_str());
    push_str(&mut out, "]");
    push_str(&mut out, " 合并到发票 #");
    push_i64(&mut out, target_id);
    push_str(&mut out, "，是否确认？");
    string_from_chars(out.as_slice())
}

/// The question of the `ask_user` tool: its message, else `请确认`.
pub fn ask_user_question(message: Option<&str>) -> (r: String)
    ensures
        r@ == match opt_text(message) {
            Some(m) => m,
            None => "请确认"@,
        },
{
    match message {
        Some(m) => m.to_owned(),
        None => "请确认".to_owned(),
    }
}

/// What the user answered to `ask_user`.
pub enum AskUserAnswer {
    /// The desktop was chosen; the caller adds its path.
    Desktop,
    /// Their own text, after choosing `__other__`.
    Other { text: String },
    /// One of the offered choices.
    Selected { choice: String },
    /// Nothing was chosen.
    NoChoice,
}

/// Reads the user's answer: `desktop`, their own text when they chose
/// `__other__` and wrote something, another non-empty choice, or nothing.
pub fn ask_user_answer(choice: Option<&str>, text: Option<&str>) -> (r: AskUserAnswer)
    ensures
        ({
            let c = match opt_text(choice) {
                Some(x) => x,
                None => Seq::empty(),
            };
            let t = match opt_text(text) {
                Some(x) => x,
                None => Seq::empty(),
            };
            if c == "desktop"@ {
                r is Desktop
            } else if c == "__other__"@ && t.len() > 0 {
                r matches AskUserAnswer::Other { text: x } && x@ == t
            } else if c.len() > 0 {
                r matches AskUserAnswer::Selected { choice: x } && x@ == c
            } else {
                r is NoChoice
            }
        }),
{
    let c: &str = match choice {
        Some(x) => x,
        None => "",
    };
    let t: &str = match text {
        Some(x) => x,
        None => "",
    };
    proof {
        reveal_strlit("");
        assert(""@ =~= Seq::<char>::empty());
    }
    if crate::text::str_eq(c, "desktop") {
        AskUserAnswer::Desktop
    } else if crate::text::str_eq(c, "__other__") && !t.is_empty() {
        AskUserAnswer::Other { text: t.to_owned() }
    } else if !c.is_empty() {
        AskUserAnswer::Selected { choice: c.to_owned() }
    } else {
        AskUserAnswer::NoChoice
    }
}

} // verus!
