//! Mailbox sources and their synchronization: the settings of a new source,
//! the statement that edits one, the replies of a POP3 server, the IMAP
//! search of new mail, the UIDLs already processed, which attachments are
//! imported and the messages shown after a connection test.
use vstd::prelude::*;

use crate::exporter::SqlQuery;
use crate::importer::ImportJobSummary;
use crate::search::{numbered, numbered_text, ostr};
use crate::sql::{join, join_strings, values_view, SqlValue, SqlValueView};
use crate::text::{
    chars_eq_str, chars_of, contains_seq, contains_str, dec, dec_int, is_whitespace, is_ws,
    lower_chars, lower_seq, parse_unsigned, parse_usize, push_chars, push_i64, push_str,
    push_u64, push_usize, slice_chars, split_all, split_pieces, starts_with, starts_with_str,
    string_from_chars, trim, trim_chars, views,
};
use crate::xlsx::string_views;

verus! {

// ---------------------------------------------------------------------------
// Records
// ---------------------------------------------------------------------------

/// A mailbox the application reads invoices from.
pub struct EmailSource {
    pub id: i64,
    pub name: String,
    pub protocol: String,
    pub imap_host: String,
    pub imap_port: i64,
    pub username: String,
    pub password: String,
    pub auth_method: String,
    pub use_ssl: bool,
    pub folder: String,
    pub name_keywords: String,
    pub max_email_age_days: i64,
    pub enabled: bool,
    pub last_uid: i64,
    pub poll_interval_seconds: i64,
    pub processed_uidls: String,
    pub last_sync_at: Option<String>,
    pub status: String,
    pub error_message: Option<String>,
    pub created_at: String,
    pub updated_at: String,
}

pub struct AddEmailSourceRequest {
    pub name: Option<String>,
    pub protocol: Option<String>,
    pub imap_host: String,
    pub imap_port: Option<i64>,
    pub username: String,
    pub password: String,
    pub auth_method: Option<String>,
    pub use_ssl: Option<bool>,
    pub folder: Option<String>,
    pub name_keywords: Option<String>,
    pub max_email_age_days: Option<i64>,
    pub poll_interval_seconds: Option<i64>,
}

pub struct UpdateEmailSourceRequest {
    pub name: Option<String>,
    pub protocol: Option<String>,
    pub imap_host: Option<String>,
    pub imap_port: Option<i64>,
    pub username: Option<String>,
    pub password: Option<String>,
    pub auth_method: Option<String>,
    pub use_ssl: Option<bool>,
    pub folder: Option<String>,
    pub name_keywords: Option<String>,
    pub max_email_age_days: Option<i64>,
    pub poll_interval_seconds: Option<i64>,
    pub enabled: Option<bool>,
}

pub struct EmailTestResult {
    pub success: bool,
    pub message: String,
    pub folder_count: Option<i64>,
}

pub struct EmailSyncResult {
    pub source_id: i64,
    pub fetched_count: usize,
    pub imported_count: usize,
    pub jobs: Vec<ImportJobSummary>,
}

pub enum EmailError {
    Database(String),
    Imap(String),
    Pop3(String),
    Tls(String),
    NotFound(i64),
}

// ---------------------------------------------------------------------------
// Outside text functions
// ---------------------------------------------------------------------------

/// The Unicode lowercase of a text, as `str::to_lowercase` gives it.
pub uninterp spec fn lowercase(s: Seq<char>) -> Seq<char>;

/// `str::to_lowercase`; the Unicode case mapping itself is only named.
#[verifier::external_body]
fn to_lowercase(s: &str) -> (r: String)
    ensures
        r@ == lowercase(s@),
{
    s.to_lowercase()
}

/// The Unicode lowercase of a text.
pub(crate) fn lowercase_text(s: &str) -> (r: String)
    ensures
        r@ == lowercase(s@),
{
    to_lowercase(s)
}

/// Index of the last `.` in a text, -1 when there is none.
pub open spec fn last_dot(f: Seq<char>) -> int
    decreases f.len(),
{
    if f.len() == 0 {
        -1
    } else if f.last() == '.' {
        f.len() - 1
    } else {
        last_dot(f.drop_last())
    }
}

/// The extension of a file name as `Path::extension` reads it: what follows
/// the last `.` of the final component, none when that component is missing,
/// holds no `.`, or holds one only at its start.
pub open spec fn path_extension(name: Seq<char>) -> Option<Seq<char>> {
    match crate::tools::path_file_name(name) {
        Some(f) => if last_dot(f) > 0 {
            Some(f.skip(last_dot(f) + 1))
        } else {
            None
        },
        None => None,
    }
}

/// `Path::new(name).extension()`, as text: the part of the file name after
/// its last `.`, none when there is no file name, no `.`, or only a leading
/// one.
#[verifier::external_body]
pub(crate) fn file_extension(name: &str) -> (r: Option<String>)
    ensures
        match r {
            Some(e) => path_extension(name@) == Some(e@),
            None => path_extension(name@) is None,
        },
{
    std::path::Path::new(name).extension().and_then(|e| e.to_str()).map(|e| e.to_owned())
}

// ---------------------------------------------------------------------------
// Adding and editing sources
// ---------------------------------------------------------------------------

/// The settings of a new source with its defaults applied.
pub struct NewEmailSource {
    pub name: String,
    pub protocol: String,
    pub imap_host: String,
    pub imap_port: i64,
    pub username: String,
    pub password: String,
    pub auth_method: String,
    pub use_ssl: bool,
    pub folder: String,
    pub name_keywords: String,
    pub max_email_age_days: i64,
    pub poll_interval_seconds: i64,
}

pub(crate) fn string_or(o: Option<String>, d: &str) -> (r: String)
    ensures
        r@ == match ostr(o) {
            Some(s) => s,
            None => d@,
        },
{
    match o {
        Some(s) => s,
        None => d.to_owned(),
    }
}

/// A new source: IMAP unless said otherwise, port 993 (995 for POP3),
/// password login over SSL, the `INBOX` folder, mail of the last 30 days,
/// polled every 300 seconds; no name and no keywords unless given.
pub fn new_email_source(request: AddEmailSourceRequest) -> (r: NewEmailSource)
    ensures
        r.name@ == match ostr(request.name) {
            Some(s) => s,
            None => Seq::empty(),
        },
        r.protocol@ == match ostr(request.protocol) {
            Some(s) => s,
            None => "imap"@,
        },
        r.imap_port == match request.imap_port {
            Some(p) => p as int,
            None => if r.protocol@ == "pop3"@ {
                995int
            } else {
                993int
            },
        },
        r.imap_host == request.imap_host,
        r.username == request.username,
        r.password == request.password,
        r.auth_method@ == match ostr(request.auth_method) {
            Some(s) => s,
            None => "password"@,
        },
        r.use_ssl == match request.use_ssl {
            Some(b) => b,
            None => true,
        },
        r.folder@ == match ostr(request.folder) {
            Some(s) => s,
            None => "INBOX"@,
        },
        r.name_keywords@ == match ostr(request.name_keywords) {
            Some(s) => s,
            None => Seq::empty(),
        },
        r.max_email_age_days == match request.max_email_age_days {
            Some(d) => d as int,
            None => 30int,
        },
        r.poll_interval_seconds == match request.poll_interval_seconds {
            Some(d) => d as int,
            None => 300int,
        },
{
    let name = match request.name {
        Some(s) => s,
        None => String::new(),
    };
    let protocol = string_or(request.protocol, "imap");
    let pc = chars_of(protocol.as_str());
    let imap_port = match request.imap_port {
        Some(p) => p,
        None => if chars_eq_str(&pc, "pop3") {
            995
        } else {
            993
        },
    };
    let name_keywords = match request.name_keywords {
        Some(s) => s,
        None => String::new(),
    };
    NewEmailSource {
        name,
        protocol,
        imap_host: request.imap_host,
        imap_port,
        username: request.username,
        password: request.password,
        auth_method: string_or(request.auth_method, "password"),
        use_ssl: match request.use_ssl {
            Some(b) => b,
            None => true,
        },
        folder: string_or(request.folder, "INBOX"),
        name_keywords,
        max_email_age_days: match request.max_email_age_days {
            Some(d) => d,
            None => 30,
        },
        poll_interval_seconds: match request.poll_interval_seconds {
            Some(d) => d,
            None => 300,
        },
    }
}

/// A value set by an edit of a source.
pub enum EditValue {
    Text(Seq<char>),
    Integer(int),
}

pub open spec fn edit_value_view(v: EditValue) -> SqlValueView {
    match v {
        EditValue::Text(s) => SqlValueView::Text(s),
        EditValue::Integer(i) => SqlValueView::Integer(i),
    }
}

/// Adds `col = ?n` for a present value; `n` counts the value itself.
pub open spec fn add_edit(
    st: (Seq<Seq<char>>, Seq<SqlValueView>),
    col: Seq<char>,
    v: Option<EditValue>,
) -> (Seq<Seq<char>>, Seq<SqlValueView>) {
    match v {
        Some(x) => (
            st.0.push(numbered(col + " = ?"@, st.1.len() + 1, Seq::empty())),
            st.1.push(edit_value_view(x)),
        ),
        None => st,
    }
}

pub open spec fn text_edit(o: Option<String>) -> Option<EditValue> {
    match o {
        Some(s) => Some(EditValue::Text(s@)),
        None => None,
    }
}

pub open spec fn int_edit(o: Option<i64>) -> Option<EditValue> {
    match o {
        Some(i) => Some(EditValue::Integer(i as int)),
        None => None,
    }
}

pub open spec fn bool_edit(o: Option<bool>) -> Option<EditValue> {
    match o {
        Some(b) => Some(EditValue::Integer(if b { 1int } else { 0int })),
        None => None,
    }
}

/// The assignments of an edit, in the order of the fields.
pub open spec fn source_edits(r: UpdateEmailSourceRequest) -> (Seq<Seq<char>>, Seq<SqlValueView>) {
    let s0 = add_edit((Seq::empty(), Seq::empty()), "name"@, text_edit(r.name));
    let s1 = add_edit(s0, "protocol"@, text_edit(r.protocol));
    let s2 = add_edit(s1, "imap_host"@, text_edit(r.imap_host));
    let s3 = add_edit(s2, "imap_port"@, int_edit(r.imap_port));
    let s4 = add_edit(s3, "username"@, text_edit(r.username));
    let s5 = add_edit(s4, "password"@, text_edit(r.password));
    let s6 = add_edit(s5, "auth_method"@, text_edit(r.auth_method));
    let s7 = add_edit(s6, "use_ssl"@, bool_edit(r.use_ssl));
    let s8 = add_edit(s7, "folder"@, text_edit(r.folder));
    let s9 = add_edit(s8, "name_keywords"@, text_edit(r.name_keywords));
    let s10 = add_edit(s9, "max_email_age_days"@, int_edit(r.max_email_age_days));
    let s11 = add_edit(s10, "poll_interval_seconds"@, int_edit(r.poll_interval_seconds));
    add_edit(s11, "enabled"@, bool_edit(r.enabled))
}

fn push_edit(sets: &mut Vec<String>, values: &mut Vec<SqlValue>, col: &str, v: SqlValue, Ghost(e): Ghost<
    EditValue,
>)
    requires
        old(values).len() < 100,
        v@ == edit_value_view(e),
    ensures
        (string_views(final(sets)@), values_view(final(values)@)) == add_edit(
            (string_views(old(sets)@), values_view(old(values)@)),
            col@,
            Some(e),
        ),
        final(values).len() == old(values).len() + 1,
{
    let ghost s0 = sets@;
    let ghost v0 = values@;
    values.push(v);
    let mut p: Vec<char> = Vec::new();
    push_str(&mut p, col);
    push_str(&mut p, " = ?");
    let ps = string_from_chars(p.as_slice());
    let clause = numbered_text(ps.as_str(), values.len(), "");
    sets.push(clause);
    assert(string_views(sets@) =~= string_views(s0).push(clause@));
    assert(values_view(values@) =~= values_view(v0).push(edit_value_view(e)));
    assert(""@ =~= Seq::<char>::empty()) by {
        reveal_strlit("");
    }
}

fn edit_text(sets: &mut Vec<String>, values: &mut Vec<SqlValue>, col: &str, v: &Option<String>)
    requires
        old(values).len() < 100,
    ensures
        (string_views(final(sets)@), values_view(final(values)@)) == add_edit(
            (string_views(old(sets)@), values_view(old(values)@)),
            col@,
            text_edit(*v),
        ),
        final(values).len() <= old(values).len() + 1,
{
    match v {
        Some(s) => push_edit(sets, values, col, SqlValue::Text(s.clone()), Ghost(EditValue::Text(s@))),
        None => {},
    }
}

fn edit_int(sets: &mut Vec<String>, values: &mut Vec<SqlValue>, col: &str, v: Option<i64>)
    requires
        old(values).len() < 100,
    ensures
        (string_views(final(sets)@), values_view(final(values)@)) == add_edit(
            (string_views(old(sets)@), values_view(old(values)@)),
            col@,
            int_edit(v),
        ),
        final(values).len() <= old(values).len() + 1,
{
    match v {
        Some(i) => push_edit(sets, values, col, SqlValue::Integer(i), Ghost(EditValue::Integer(i as int))),
        None => {},
    }
}

fn edit_bool(sets: &mut Vec<String>, values: &mut Vec<SqlValue>, col: &str, v: Option<bool>)
    requires
        old(values).len() < 100,
    ensures
        (string_views(final(sets)@), values_view(final(values)@)) == add_edit(
            (string_views(old(sets)@), values_view(old(values)@)),
            col@,
            bool_edit(v),
        ),
        final(values).len() <= old(values).len() + 1,
{
    match v {
        Some(b) => {
            let i: i64 = if b {
                1
            } else {
                0
            };
            push_edit(
                sets,
                values,
                col,
                SqlValue::Integer(i),
                Ghost(EditValue::Integer(if b { 1int } else { 0int })),
            )
        },
        None => {},
    }
}

/// The statement that edits source `id`: the given fields, and the time of
/// the edit; none when no field is given.
pub fn update_email_source_statement(id: i64, request: &UpdateEmailSourceRequest) -> (r: Option<
    SqlQuery,
>)
    ensures
        ({
            let e = source_edits(*request);
            if e.0.len() == 0 {
                r is None
            } else {
                r matches Some(q) && q.sql@ == "UPDATE email_sources SET "@ + join(e.0, ", "@)
                    + ", updated_at = CURRENT_TIMESTAMP WHERE id = ?"@ + dec(e.1.len() + 1)
                    && values_view(q.params@) == e.1.push(SqlValueView::Integer(id as int))
            }
        }),
{
    let mut sets: Vec<String> = Vec::new();
    let mut values: Vec<SqlValue> = Vec::new();
    assert(string_views(sets@) =~= Seq::<Seq<char>>::empty());
    assert(values_view(values@) =~= Seq::<SqlValueView>::empty());
    edit_text(&mut sets, &mut values, "name", &request.name);
    edit_text(&mut sets, &mut values, "protocol", &request.protocol);
    edit_text(&mut sets, &mut values, "imap_host", &request.imap_host);
    edit_int(&mut sets, &mut values, "imap_port", request.imap_port);
    edit_text(&mut sets, &mut values, "username", &request.username);
    edit_text(&mut sets, &mut values, "password", &request.password);
    edit_text(&mut sets, &mut values, "auth_method", &request.auth_method);
    edit_bool(&mut sets, &mut values, "use_ssl", request.use_ssl);
    edit_text(&mut sets, &mut values, "folder", &request.folder);
    edit_text(&mut sets, &mut values, "name_keywords", &request.name_keywords);
    edit_int(&mut sets, &mut values, "max_email_age_days", request.max_email_age_days);
    edit_int(&mut sets, &mut values, "poll_interval_seconds", request.poll_interval_seconds);
    edit_bool(&mut sets, &mut values, "enabled", request.enabled);
    if sets.len() == 0 {
        return None;
    }
    let mut sql: Vec<char> = Vec::new();
    push_str(&mut sql, "UPDATE email_sources SET ");
    let j = join_strings(&sets, ", ");
    push_str(&mut sql, j.as_str());
    push_str(&mut sql, ", updated_at = CURRENT_TIMESTAMP WHERE id = ?");
    push_usize(&mut sql, values.len() + 1);
    values.push(SqlValue::Integer(id));
    Some(SqlQuery { sql: string_from_chars(sql.as_slice()), params: values })
}

// ---------------------------------------------------------------------------
// Server replies and login errors
// ---------------------------------------------------------------------------

pub open spec fn pop3_auth_failure(lower: Seq<char>) -> bool {
    contains_seq(lower, "err"@) && (contains_seq(lower, "auth"@) || contains_seq(lower, "pass"@)
        || contains_seq(lower, "user"@))
}

pub open spec fn auth_hint() -> Seq<char> {
    "。如果使用国内邮箱（163/QQ/Yeah等），请使用「授权码」而非登录密码"@
}

/// The reply of a POP3 command: `+OK` is success; an error that mentions
/// authentication, a password or a user is a login failure with a hint
/// about authorization codes; anything else is a failed command.
pub fn pop3_reply(resp: &str) -> (r: Result<String, EmailError>)
    ensures
        starts_with(resp@, "+OK"@) ==> (r matches Ok(s) && s@ == resp@),
        !starts_with(resp@, "+OK"@) && pop3_auth_failure(lowercase(resp@)) ==> (r matches Err(
            EmailError::Pop3(m),
        ) && m@ == "认证失败: "@ + resp@ + auth_hint()),
        !starts_with(resp@, "+OK"@) && !pop3_auth_failure(lowercase(resp@)) ==> (r matches Err(
            EmailError::Pop3(m),
        ) && m@ == "command failed: "@ + resp@),
{
    let rc = chars_of(resp);
    if starts_with_str(&rc, "+OK") {
        return Ok(string_from_chars(rc.as_slice()));
    }
    let lower = to_lowercase(resp);
    let lc = chars_of(lower.as_str());
    let mut out: Vec<char> = Vec::new();
    if contains_str(&lc, "err") && (contains_str(&lc, "auth") || contains_str(&lc, "pass")
        || contains_str(&lc, "user")) {
        push_str(&mut out, "认证失败: ");
        push_chars(&mut out, &rc);
        push_str(&mut out, "。如果使用国内邮箱（163/QQ/Yeah等），请使用「授权码」而非登录密码");
    } else {
        push_str(&mut out, "command failed: ");
        push_chars(&mut out, &rc);
    }
    Err(EmailError::Pop3(string_from_chars(out.as_slice())))
}

pub open spec fn login_related(msg: Seq<char>) -> bool {
    contains_seq(msg, "LOGIN"@) || contains_seq(msg, "login"@) || contains_seq(msg, "AUTHENTICATE"@)
        || contains_seq(msg, "authenticate"@)
}

/// The error of a failed IMAP login, from the server's message: a login
/// failure gets the hint about authorization codes.
pub fn imap_login_error(msg: &str) -> (r: EmailError)
    ensures
        login_related(msg@) ==> (r matches EmailError::Imap(m) && m@ == msg@ + auth_hint()),
        !login_related(msg@) ==> (r matches EmailError::Imap(m) && m@ == "login: "@ + msg@),
{
    let mc = chars_of(msg);
    let mut out: Vec<char> = Vec::new();
    if contains_str(&mc, "LOGIN") || contains_str(&mc, "login") || contains_str(&mc, "AUTHENTICATE")
        || contains_str(&mc, "authenticate") {
        push_chars(&mut out, &mc);
        push_str(&mut out, "。如果使用国内邮箱（163/QQ/Yeah等），请使用「授权码」而非登录密码");
    } else {
        push_str(&mut out, "login: ");
        push_chars(&mut out, &mc);
    }
    EmailError::Imap(string_from_chars(out.as_slice()))
}

// ---------------------------------------------------------------------------
// IMAP: what to fetch
// ---------------------------------------------------------------------------

/// The UID search of new mail: UIDs after the last one seen, and mail since
/// the cutoff date when an age limit is set; everything when neither.
pub open spec fn search_criteria_spec(last_uid: int, max_age_days: int, since: Seq<char>) -> Seq<
    char,
> {
    let a = if last_uid > 0 {
        "UID "@ + dec_int(last_uid + 1) + ":*"@
    } else {
        Seq::empty()
    };
    let b = if max_age_days > 0 {
        if a.len() == 0 {
            "SINCE "@ + since
        } else {
            a + " SINCE "@ + since
        }
    } else {
        a
    };
    if b.len() == 0 {
        "1:*"@
    } else {
        b
    }
}

/// The IMAP search of a sync; `since` is the cutoff date as `DD-Mon-YYYY`.
pub fn imap_search_criteria(last_uid: i64, max_age_days: i64, since: &str) -> (r: String)
    requires
        last_uid < i64::MAX,
    ensures
        r@ == search_criteria_spec(last_uid as int, max_age_days as int, since@),
{
    let mut c: Vec<char> = Vec::new();
    if last_uid > 0 {
        push_str(&mut c, "UID ");
        push_i64(&mut c, last_uid + 1);
        push_str(&mut c, ":*");
    }
    let ghost a = c@;
    if max_age_days > 0 {
        if c.len() == 0 {
            push_str(&mut c, "SINCE ");
            push_str(&mut c, since);
        } else {
            push_str(&mut c, " SINCE ");
            push_str(&mut c, since);
        }
    }
    if c.len() == 0 {
        return "1:*".to_owned();
    }
    proof {
        if max_age_days > 0 && a.len() == 0 {
            assert(c@ =~= "SINCE "@ + since@);
        }
    }
    string_from_chars(c.as_slice())
}

/// The UIDs to fetch, as decimal text joined by `,`.
pub fn uid_set(uids: &[u32]) -> (r: String)
    ensures
        r@ == join(uids@.map_values(|u: u32| dec(u as nat)), ","@),
{
    let mut parts: Vec<String> = Vec::new();
    let mut i: usize = 0;
    while i < uids.len()
        invariant
            i <= uids.len(),
            string_views(parts@) =~= uids@.take(i as int).map_values(|u: u32| dec(u as nat)),
        decreases uids.len() - i,
    {
        let mut c: Vec<char> = Vec::new();
        push_u64(&mut c, uids[i] as u64);
        let ghost before = parts@;
        parts.push(string_from_chars(c.as_slice()));
        assert(string_views(parts@) =~= string_views(before).push(dec(uids@[i as int] as nat)));
        assert(uids@.take(i as int + 1) =~= uids@.take(i as int).push(uids@[i as int]));
        i += 1;
    }
    assert(uids@.take(uids.len() as int) =~= uids@);
    join_strings(&parts, ",")
}

pub open spec fn max_uid_spec(last_uid: int, uids: Seq<Option<u32>>) -> int
    decreases uids.len(),
{
    if uids.len() == 0 {
        last_uid
    } else {
        let m = max_uid_spec(last_uid, uids.drop_last());
        let u = match uids.last() {
            Some(u) => u as int,
            None => 0int,
        };
        if u > m {
            u
        } else {
            m
        }
    }
}

/// The last UID after a sync: the largest of the last one seen and those
/// fetched (a message without UID counts as 0).
pub fn max_uid(last_uid: i64, uids: &[Option<u32>]) -> (r: i64)
    ensures
        r == max_uid_spec(last_uid as int, uids@),
        r >= last_uid,
{
    let mut m = last_uid;
    let mut i: usize = 0;
    while i < uids.len()
        invariant
            i <= uids.len(),
            m == max_uid_spec(last_uid as int, uids@.take(i as int)),
            m >= last_uid,
        decreases uids.len() - i,
    {
        let ghost t = uids@.take(i as int + 1);
        assert(t.drop_last() =~= uids@.take(i as int));
        let u: i64 = match uids[i] {
            Some(u) => u as i64,
            None => 0,
        };
        if u > m {
            m = u;
        }
        i += 1;
    }
    assert(uids@.take(uids.len() as int) =~= uids@);
    m
}

// ---------------------------------------------------------------------------
// Attachments
// ---------------------------------------------------------------------------

/// `split_whitespace`: completed words and the word being read.
pub open spec fn words_acc(s: Seq<char>) -> (Seq<Seq<char>>, Seq<char>)
    decreases s.len(),
{
    if s.len() == 0 {
        (Seq::empty(), Seq::empty())
    } else {
        let (ws, cur) = words_acc(s.drop_last());
        if is_ws(s.last()) {
            if cur.len() > 0 {
                (ws.push(cur), Seq::empty())
            } else {
                (ws, Seq::empty())
            }
        } else {
            (ws, cur.push(s.last()))
        }
    }
}

/// The maximal runs of non-whitespace characters, in order.
pub open spec fn words(s: Seq<char>) -> Seq<Seq<char>> {
    let (ws, cur) = words_acc(s);
    if cur.len() > 0 {
        ws.push(cur)
    } else {
        ws
    }
}

pub fn split_words(s: &str) -> (r: Vec<String>)
    ensures
        string_views(r@) == words(s@),
{
    let c = chars_of(s);
    let mut ws: Vec<String> = Vec::new();
    let mut cur: Vec<char> = Vec::new();
    let mut i: usize = 0;
    while i < c.len()
        invariant
            i <= c.len(),
            c@ == s@,
            (string_views(ws@), cur@) == words_acc(c@.take(i as int)),
        decreases c.len() - i,
    {
        let ghost t = c@.take(i as int + 1);
        assert(t.drop_last() =~= c@.take(i as int));
        assert(t.last() == c@[i as int]);
        if is_whitespace(c[i]) {
            if cur.len() > 0 {
                let ghost before = ws@;
                ws.push(string_from_chars(cur.as_slice()));
                assert(string_views(ws@) =~= string_views(before).push(cur@));
                cur = Vec::new();
            }
        } else {
            cur.push(c[i]);
        }
        i += 1;
    }
    assert(c@.take(c.len() as int) =~= c@);
    if cur.len() > 0 {
        let ghost before = ws@;
        ws.push(string_from_chars(cur.as_slice()));
        assert(string_views(ws@) =~= string_views(before).push(cur@));
    }
    ws
}

/// The keywords of a source: its words, lowercased, the empty ones dropped.
pub open spec fn keywords_spec(ws: Seq<Seq<char>>) -> Seq<Seq<char>>
    decreases ws.len(),
{
    if ws.len() == 0 {
        Seq::empty()
    } else {
        let prev = keywords_spec(ws.drop_last());
        let l = lowercase(ws.last());
        if l.len() > 0 {
            prev.push(l)
        } else {
            prev
        }
    }
}

pub fn attachment_keywords(name_keywords: &str) -> (r: Vec<String>)
    ensures
        string_views(r@) == keywords_spec(words(name_keywords@)),
{
    let ws = split_words(name_keywords);
    let mut r: Vec<String> = Vec::new();
    let mut i: usize = 0;
    while i < ws.len()
        invariant
            i <= ws.len(),
            string_views(r@) == keywords_spec(string_views(ws@).take(i as int)),
        decreases ws.len() - i,
    {
        let ghost t = string_views(ws@).take(i as int + 1);
        assert(t.drop_last() =~= string_views(ws@).take(i as int));
        assert(t.last() == ws@[i as int]@);
        let l = to_lowercase(ws[i].as_str());
        let lc = chars_of(l.as_str());
        if lc.len() > 0 {
            let ghost before = r@;
            r.push(l);
            assert(string_views(r@) =~= string_views(before).push(lowercase(ws@[i as int]@)));
        }
        i += 1;
    }
    assert(string_views(ws@).take(ws.len() as int) =~= string_views(ws@));
    r
}

pub open spec fn allowed_extension(e: Seq<char>) -> bool {
    e == "pdf"@ || e == "png"@ || e == "jpg"@ || e == "jpeg"@ || e == "bmp"@ || e == "tiff"@ || e
        == "tif"@
}

/// An attachment is imported when its lowercased name contains one of the
/// keywords (any name when there are none) and its extension, lowercased,
/// is that of a PDF or an image.
pub open spec fn attachment_wanted_spec(filename: Seq<char>, keywords: Seq<Seq<char>>) -> bool {
    &&& (keywords.len() == 0 || exists|k: int|
        0 <= k < keywords.len() && contains_seq(lowercase(filename), #[trigger] keywords[k]))
    &&& match path_extension(filename) {
        Some(e) => allowed_extension(lowercase(e)),
        None => false,
    }
}

/// An attachment is wanted exactly when its name passes the keywords (no
/// keywords, or a keyword inside its lowercased name) and its lowercased
/// extension is one of `pdf`, `png`, `jpg`, `jpeg`, `bmp`, `tiff`, `tif`.
pub proof fn law_pdf_and_image_attachments_wanted(filename: Seq<char>, keywords: Seq<Seq<char>>)
    ensures
        attachment_wanted_spec(filename, keywords) <==> ((keywords.len() == 0 || exists|k: int|
            0 <= k < keywords.len() && contains_seq(lowercase(filename), #[trigger] keywords[k]))
            && match path_extension(filename) {
            Some(e) => lowercase(e) == "pdf"@ || lowercase(e) == "png"@ || lowercase(e) == "jpg"@
                || lowercase(e) == "jpeg"@ || lowercase(e) == "bmp"@ || lowercase(e) == "tiff"@
                || lowercase(e) == "tif"@,
            None => false,
        }),
{
}

pub fn attachment_wanted(filename: &str, keywords: &Vec<String>) -> (b: bool)
    ensures
        b == attachment_wanted_spec(filename@, string_views(keywords@)),
{
    if keywords.len() > 0 {
        let lower = to_lowercase(filename);
        let lc = chars_of(lower.as_str());
        let mut found = false;
        let mut i: usize = 0;
        while i < keywords.len()
            invariant
                i <= keywords.len(),
                lc@ == lowercase(filename@),
                found == exists|k: int|
                    0 <= k < i && contains_seq(lc@, #[trigger] string_views(keywords@)[k]),
            decreases keywords.len() - i,
        {
            let kc = chars_of(keywords[i].as_str());
            assert(string_views(keywords@)[i as int] == keywords@[i as int]@);
            if crate::text::contains_chars(&lc, &kc) {
                found = true;
            }
            i += 1;
        }
        if !found {
            return false;
        }
    }
    match file_extension(filename) {
        Some(e) => {
            let l = to_lowercase(e.as_str());
            let lc = chars_of(l.as_str());
            chars_eq_str(&lc, "pdf") || chars_eq_str(&lc, "png") || chars_eq_str(&lc, "jpg")
                || chars_eq_str(&lc, "jpeg") || chars_eq_str(&lc, "bmp") || chars_eq_str(&lc, "tiff")
                || chars_eq_str(&lc, "tif")
        },
        None => false,
    }
}

/// A leaf part of a mail is an attachment when it names a file or its
/// lowercased content type is an application or an image type.
pub fn is_attachment(has_filename: bool, mimetype: &str) -> (b: bool)
    ensures
        b == (has_filename || starts_with(lowercase(mimetype@), "application/"@) || starts_with(
            lowercase(mimetype@),
            "image/"@,
        )),
{
    let l = to_lowercase(mimetype);
    let lc = chars_of(l.as_str());
    has_filename || starts_with_str(&lc, "application/") || starts_with_str(&lc, "image/")
}

/// The name of an attachment: its file name, or `attachment`.
pub fn attachment_name(filename: Option<String>) -> (r: String)
    ensures
        r@ == match ostr(filename) {
            Some(f) => f,
            None => "attachment"@,
        },
{
    string_or(filename, "attachment")
}

// ---------------------------------------------------------------------------
// Attachments of a whole message
// ---------------------------------------------------------------------------

/// One part of a parsed message: the `filename` parameter of its
/// `Content-Disposition`, its MIME type, its decoded body (none when the
/// transfer encoding cannot be undone) and how many subparts it has.
pub struct MailPart {
    pub filename: Option<String>,
    pub mimetype: String,
    pub body: Option<Vec<u8>>,
    pub subpart_count: usize,
}

pub struct MailPartView {
    pub filename: Option<Seq<char>>,
    pub mimetype: Seq<char>,
    pub body: Option<Seq<u8>>,
    pub subpart_count: nat,
}

pub open spec fn part_view(p: MailPart) -> MailPartView {
    MailPartView {
        filename: ostr(p.filename),
        mimetype: p.mimetype@,
        body: match p.body {
            Some(b) => Some(b@),
            None => None,
        },
        subpart_count: p.subpart_count as nat,
    }
}

pub open spec fn part_views(s: Seq<MailPart>) -> Seq<MailPartView> {
    s.map_values(|p: MailPart| part_view(p))
}

pub open spec fn parts_view(r: Option<Vec<MailPart>>) -> Option<Seq<MailPartView>> {
    match r {
        Some(v) => Some(part_views(v@)),
        None => None,
    }
}

/// The parts of a raw message as `mailparse` reads them, in depth-first
/// pre-order (the message itself first); none when it cannot be parsed.
pub uninterp spec fn parsed_mail(raw: Seq<u8>) -> Option<Seq<MailPartView>>;

/// `mailparse::parse_mail(raw)` and its `parts()`: each part, in the
/// crate's depth-first pre-order, with its `filename` disposition
/// parameter, MIME type, `get_body_raw()` and number of subparts; none when
/// the message cannot be parsed.
#[verifier::external_body]
fn parse_message(raw: &[u8]) -> (r: Option<Vec<MailPart>>)
    ensures
        parts_view(r) == parsed_mail(raw@),
{
    let mail = mailparse::parse_mail(raw).ok()?;
    let mut out = Vec::new();
    for p in mail.parts() {
        out.push(MailPart {
            filename: p.get_content_disposition().params.get("filename").cloned(),
            mimetype: p.ctype.mimetype.clone(),
            body: p.get_body_raw().ok(),
            subpart_count: p.subparts.len(),
        });
    }
    Some(out)
}

/// The name an attachment is saved under.
pub open spec fn part_name(filename: Option<Seq<char>>) -> Seq<char> {
    match filename {
        Some(f) => f,
        None => "attachment"@,
    }
}

/// A part is imported when it is a leaf, an attachment, wanted for its
/// name, and its body could be decoded.
pub open spec fn part_wanted(p: MailPartView, keywords: Seq<Seq<char>>) -> bool {
    &&& p.subpart_count == 0
    &&& (p.filename is Some || starts_with(lowercase(p.mimetype), "application/"@) || starts_with(
        lowercase(p.mimetype),
        "image/"@,
    ))
    &&& attachment_wanted_spec(part_name(p.filename), keywords)
    &&& p.body is Some
}

/// The attachments imported from a message's parts, as (name, body), in
/// the order of the parts.
pub open spec fn wanted_attachments_spec(parts: Seq<MailPartView>, keywords: Seq<Seq<char>>) -> Seq<
    (Seq<char>, Seq<u8>),
>
    decreases parts.len(),
{
    if parts.len() == 0 {
        Seq::empty()
    } else {
        let prev = wanted_attachments_spec(parts.drop_last(), keywords);
        let p = parts.last();
        if part_wanted(p, keywords) {
            prev.push((part_name(p.filename), p.body.unwrap()))
        } else {
            prev
        }
    }
}

pub open spec fn attachments_view(v: Seq<(String, Vec<u8>)>) -> Seq<(Seq<char>, Seq<u8>)> {
    v.map_values(|a: (String, Vec<u8>)| (a.0@, a.1@))
}

/// The invoice attachments of a raw message: its leaf parts, depth first,
/// that are attachments (a file name, or an `application/` or `image/`
/// type), wanted for their name, and whose body decodes; none when the
/// message cannot be parsed.
pub fn wanted_attachments(raw: &[u8], keywords: &Vec<String>) -> (r: Option<Vec<(String, Vec<u8>)>>)
    ensures
        match parsed_mail(raw@) {
            None => r is None,
            Some(ps) => r matches Some(v) && attachments_view(v@) == wanted_attachments_spec(
                ps,
                string_views(keywords@),
            ),
        },
{
    let mut parts = match parse_message(raw) {
        Some(p) => p,
        None => return None,
    };
    let ghost all = part_views(parts@);
    let ghost kw = string_views(keywords@);
    let mut out: Vec<(String, Vec<u8>)> = Vec::new();
    let ghost mut done: int = 0;
    while parts.len() > 0
        invariant
            0 <= done <= all.len(),
            part_views(parts@) == all.skip(done),
            attachments_view(out@) == wanted_attachments_spec(all.take(done), kw),
            kw == string_views(keywords@),
        decreases parts.len(),
    {
        let ghost before = parts@;
        let p = parts.remove(0);
        proof {
            assert(before.len() > 0);
            assert(p == before[0]);
            assert(part_views(before)[0] == part_view(before[0]));
            assert(part_views(before).len() == all.len() - done);
            assert(all.skip(done)[0] == all[done]);
            assert(part_view(p) == all[done]);
            assert(part_views(parts@) =~= all.skip(done + 1)) by {
                assert(parts@ =~= before.subrange(1, before.len() as int));
                assert forall|j: int| 0 <= j < parts@.len() implies part_views(parts@)[j] == all.skip(
                    done + 1,
                )[j] by {
                    assert(part_views(before)[j + 1] == all.skip(done)[j + 1]);
                }
            }
            assert(all.take(done + 1).drop_last() =~= all.take(done));
            assert(all.take(done + 1).last() == all[done]);
        }
        let leaf = p.subpart_count == 0;
        let attachment = is_attachment(p.filename.is_some(), p.mimetype.as_str());
        let name = attachment_name(p.filename);
        let wanted = attachment_wanted(&name, keywords);
        if leaf && attachment && wanted {
            match p.body {
                Some(b) => {
                    let ghost prev = out@;
                    out.push((name, b));
                    proof {
                        assert(attachments_view(out@) =~= attachments_view(prev).push(
                            (name@, b@),
                        ));
                    }
                },
                None => {},
            }
        }
        proof {
            done = done + 1;
        }
    }
    proof {
        assert(all.take(done) =~= all);
    }
    Some(out)
}

// ---------------------------------------------------------------------------
// POP3: UIDLs
// ---------------------------------------------------------------------------

/// A line of the `UIDL` listing: the message number, a space, the UIDL
/// (trimmed); a line without a space or with a bad number is skipped.
pub open spec fn uidl_line_spec(line: Seq<char>) -> Option<(u32, Seq<char>)> {
    match crate::text::find_from(line, " "@, 0) {
        Some(i) => match parse_unsigned(line.take(i), u32::MAX as nat) {
            Some(n) => Some((n as u32, trim(line.skip(i + 1)))),
            None => None,
        },
        None => None,
    }
}

pub fn parse_uidl_line(line: &str) -> (r: Option<(u32, String)>)
    ensures
        match uidl_line_spec(line@) {
            Some((n, u)) => r matches Some(p) && p.0 == n && p.1@ == u,
            None => r is None,
        },
{
    let lc = chars_of(line);
    let space = chars_of(" ");
    proof {
        reveal_strlit(" ");
    }
    match crate::text::find_chars(&lc, &space, 0) {
        Some(i) => {
            proof {
                crate::text::lemma_find_from(lc@, space@, 0);
            }
            let head = slice_chars(&lc, 0, i);
            assert(head@ =~= lc@.take(i as int));
            match parse_usize(&head) {
                Some(n) => {
                    if n > 0xFFFF_FFFFusize {
                        return None;
                    }
                    let rest = slice_chars(&lc, i + 1, lc.len());
                    assert(rest@ =~= lc@.skip(i + 1));
                    let t = trim_chars(&rest);
                    Some((n as u32, string_from_chars(t.as_slice())))
                },
                None => None,
            }
        },
        None => None,
    }
}

/// The UIDLs already processed, as stored: comma-separated, trimmed, the
/// empty ones dropped.
pub open spec fn processed_set_spec(stored: Seq<char>) -> Set<Seq<char>> {
    Set::new(
        |u: Seq<char>|
            u.len() > 0 && exists|k: int|
                0 <= k < split_all(stored, ","@).len() && trim(
                    #[trigger] split_all(stored, ","@)[k],
                ) == u,
    )
}

fn contains_text(v: &Vec<String>, s: &Vec<char>) -> (b: bool)
    ensures
        b == string_views(v@).contains(s@),
{
    let mut i: usize = 0;
    while i < v.len()
        invariant
            i <= v.len(),
            forall|j: int| 0 <= j < i ==> v@[j]@ != s@,
        decreases v.len() - i,
    {
        if chars_eq_str(s, v[i].as_str()) {
            assert(string_views(v@)[i as int] == s@);
            return true;
        }
        i += 1;
    }
    proof {
        if string_views(v@).contains(s@) {
            let j = choose|j: int| 0 <= j < string_views(v@).len() && string_views(v@)[j] == s@;
            assert(v@[j]@ == s@);
        }
    }
    false
}

/// The processed UIDLs as a list without repetitions.
pub fn processed_uidls(stored: &str) -> (r: Vec<String>)
    ensures
        string_views(r@).to_set() == processed_set_spec(stored@),
        string_views(r@).no_duplicates(),
{
    let sc = chars_of(stored);
    let comma = chars_of(",");
    proof {
        reveal_strlit(",");
    }
    let pieces = split_pieces(&sc, &comma);
    let ghost ps = split_all(stored@, ","@);
    assert(views(pieces@) == ps);
    let mut r: Vec<String> = Vec::new();
    let mut i: usize = 0;
    while i < pieces.len()
        invariant
            i <= pieces.len(),
            views(pieces@) == ps,
            ps == split_all(stored@, ","@),
            string_views(r@).no_duplicates(),
            forall|u: Seq<char>|
                #![trigger string_views(r@).contains(u)]
                string_views(r@).contains(u) <==> (u.len() > 0 && exists|k: int|
                    0 <= k < i && trim(#[trigger] ps[k]) == u),
        decreases pieces.len() - i,
    {
        assert(ps[i as int] == pieces@[i as int]@);
        let t = trim_chars(&pieces[i]);
        let ghost before = string_views(r@);
        if t.len() > 0 && !contains_text(&r, &t) {
            r.push(string_from_chars(t.as_slice()));
            assert(string_views(r@) =~= before.push(t@));
            assert forall|a: int, b: int|
                0 <= a < string_views(r@).len() && 0 <= b < string_views(r@).len() && a != b implies string_views(
                r@,
            )[a] != string_views(r@)[b] by {
                if a < before.len() && b < before.len() {
                    assert(before[a] != before[b]);
                }
            }
        }
        assert forall|u: Seq<char>|
            #![trigger string_views(r@).contains(u)]
            string_views(r@).contains(u) <==> (u.len() > 0 && exists|k: int|
                0 <= k < i + 1 && trim(#[trigger] ps[k]) == u) by {
            if string_views(r@).contains(u) {
                if before.contains(u) {
                    let k = choose|k: int| 0 <= k < i && trim(#[trigger] ps[k]) == u;
                    assert(0 <= k < i + 1 && trim(ps[k]) == u);
                } else {
                    let j = choose|j: int| 0 <= j < string_views(r@).len() && string_views(r@)[j] == u;
                    assert(string_views(r@).len() == before.len() + 1);
                    if j < before.len() {
                        assert(string_views(r@)[j] == before[j]);
                        assert(before.contains(u));
                    }
                    assert(u == t@);
                    assert(trim(ps[i as int]) == u);
                }
            }
            if u.len() > 0 && exists|k: int| 0 <= k < i + 1 && trim(#[trigger] ps[k]) == u {
                let k = choose|k: int| 0 <= k < i + 1 && trim(#[trigger] ps[k]) == u;
                if k < i {
                    assert(before.contains(u));
                    let j = choose|j: int| 0 <= j < before.len() && before[j] == u;
                    assert(string_views(r@)[j] == u);
                } else {
                    assert(u == t@);
                    if before.contains(u) {
                        let j = choose|j: int| 0 <= j < before.len() && before[j] == u;
                        assert(string_views(r@)[j] == u);
                    } else {
                        assert(string_views(r@)[before.len() as int] == u);
                    }
                }
            }
        }
        i += 1;
    }
    assert(string_views(r@).to_set() =~= processed_set_spec(stored@));
    r
}

/// The messages of a listing not processed yet, in listing order.
pub open spec fn new_messages_spec(all: Seq<(u32, Seq<char>)>, processed: Set<Seq<char>>) -> Seq<
    (u32, Seq<char>),
>
    decreases all.len(),
{
    if all.len() == 0 {
        Seq::empty()
    } else {
        let prev = new_messages_spec(all.drop_last(), processed);
        if processed.contains(all.last().1) {
            prev
        } else {
            prev.push(all.last())
        }
    }
}

pub open spec fn uidls_view(v: Seq<(u32, String)>) -> Seq<(u32, Seq<char>)> {
    v.map_values(|p: (u32, String)| (p.0, p.1@))
}

pub fn new_messages(all: &Vec<(u32, String)>, processed: &Vec<String>) -> (r: Vec<(u32, String)>)
    ensures
        uidls_view(r@) == new_messages_spec(uidls_view(all@), string_views(processed@).to_set()),
{
    let mut r: Vec<(u32, String)> = Vec::new();
    let mut i: usize = 0;
    while i < all.len()
        invariant
            i <= all.len(),
            uidls_view(r@) == new_messages_spec(
                uidls_view(all@).take(i as int),
                string_views(processed@).to_set(),
            ),
        decreases all.len() - i,
    {
        let ghost t = uidls_view(all@).take(i as int + 1);
        assert(t.drop_last() =~= uidls_view(all@).take(i as int));
        assert(t.last() == (all@[i as int].0, all@[i as int].1@));
        let (n, u) = &all[i];
        let uc = chars_of(u.as_str());
        if !contains_text(processed, &uc) {
            let ghost before = r@;
            r.push((*n, u.clone()));
            assert(uidls_view(r@) =~= uidls_view(before).push((*n, u@)));
        }
        i += 1;
    }
    assert(uidls_view(all@).take(all.len() as int) =~= uidls_view(all@));
    r
}

proof fn lemma_push_to_set(s: Seq<Seq<char>>, x: Seq<char>)
    ensures
        s.push(x).to_set() == s.to_set().insert(x),
{
    let t = s.push(x);
    assert forall|a: Seq<char>| t.contains(a) <==> (s.contains(a) || a == x) by {
        if t.contains(a) {
            let j = choose|j: int| 0 <= j < t.len() && t[j] == a;
            if j < s.len() {
                assert(s[j] == a);
            }
        }
        if s.contains(a) {
            let j = choose|j: int| 0 <= j < s.len() && s[j] == a;
            assert(t[j] == a);
        }
        if a == x {
            assert(t[s.len() as int] == a);
        }
    }
    assert(t.to_set() =~= s.to_set().insert(x));
}

/// Records a UIDL as processed (once).
pub fn mark_processed(processed: &mut Vec<String>, uidl: &str)
    requires
        string_views(old(processed)@).no_duplicates(),
    ensures
        string_views(final(processed)@).to_set() == string_views(old(processed)@).to_set().insert(
            uidl@,
        ),
        string_views(final(processed)@).no_duplicates(),
{
    let uc = chars_of(uidl);
    if !contains_text(processed, &uc) {
        let ghost before = string_views(processed@);
        processed.push(uidl.to_owned());
        assert(string_views(processed@) =~= before.push(uidl@));
        assert forall|a: int, b: int|
            0 <= a < string_views(processed@).len() && 0 <= b < string_views(processed@).len() && a
                != b implies string_views(processed@)[a] != string_views(processed@)[b] by {
            if a < before.len() && b < before.len() {
                assert(before[a] != before[b]);
            }
        }
        proof {
            lemma_push_to_set(before, uidl@);
        }
    } else {
        assert(string_views(processed@).to_set().contains(uidl@));
        assert(string_views(processed@).to_set() =~= string_views(processed@).to_set().insert(
            uidl@,
        ));
    }
}

/// What happened to one new message of a POP3 sync.
#[derive(PartialEq, Eq, Structural)]
pub enum Pop3MessageOutcome {
    /// Older than the age limit: skipped and remembered.
    TooOld,
    /// Could not be retrieved: tried again next time.
    RetrieveFailed,
    /// Could not be parsed: tried again next time.
    ParseFailed,
    /// Its attachments were extracted: remembered.
    Processed,
}

/// Whether a message is remembered as processed after its outcome.
pub open spec fn remembered(o: Pop3MessageOutcome) -> bool {
    o == Pop3MessageOutcome::TooOld || o == Pop3MessageOutcome::Processed
}

/// Records the outcome of a message: too old or processed messages are
/// not fetched again; failed ones are.
pub fn record_message_outcome(processed: &mut Vec<String>, uidl: &str, outcome: Pop3MessageOutcome)
    requires
        string_views(old(processed)@).no_duplicates(),
    ensures
        remembered(outcome) ==> string_views(final(processed)@).to_set() == string_views(
            old(processed)@,
        ).to_set().insert(uidl@),
        !remembered(outcome) ==> final(processed)@ == old(processed)@,
        string_views(final(processed)@).no_duplicates(),
{
    match outcome {
        Pop3MessageOutcome::TooOld => mark_processed(processed, uidl),
        Pop3MessageOutcome::Processed => mark_processed(processed, uidl),
        _ => {},
    }
}

/// A message remembered as processed is not fetched by a later sync.
pub proof fn law_processed_not_refetched(
    all: Seq<(u32, Seq<char>)>,
    processed: Set<Seq<char>>,
    uidl: Seq<char>,
)
    ensures
        forall|k: int|
            0 <= k < new_messages_spec(all, processed.insert(uidl)).len() ==> (#[trigger] new_messages_spec(
                all,
                processed.insert(uidl),
            )[k]).1 != uidl,
    decreases all.len(),
{
    if all.len() > 0 {
        law_processed_not_refetched(all.drop_last(), processed, uidl);
        let prev = new_messages_spec(all.drop_last(), processed.insert(uidl));
        if !processed.insert(uidl).contains(all.last().1) {
            let r = prev.push(all.last());
            assert forall|k: int| 0 <= k < r.len() implies (#[trigger] r[k]).1 != uidl by {
                if k < prev.len() {
                    assert(r[k] == prev[k]);
                }
            }
        }
    }
}

/// The stored form of the processed UIDLs.
pub fn processed_text(processed: &Vec<String>) -> (r: String)
    ensures
        r@ == join(string_views(processed@), ","@),
{
    join_strings(processed, ",")
}

/// The seconds since the epoch of a message date as `mailparse` reads it.
pub uninterp spec fn mail_date_seconds(date: Seq<char>) -> Option<int>;

/// `mailparse::dateparse(date)`: the timestamp of an RFC 2822 date, none
/// when the text is not understood. How the date is read is the crate's and
/// is only named here.
#[verifier::external_body]
fn parse_mail_date(date: &str) -> (r: Option<i64>)
    ensures
        match r {
            Some(t) => mail_date_seconds(date@) == Some(t as int),
            None => mail_date_seconds(date@) is None,
        },
{
    mailparse::dateparse(date).ok()
}

/// Whether chrono can represent a timestamp (seconds since the epoch) as a
/// UTC date and time: its day, counted with January 1 of 1 CE as day 1 (the
/// epoch falls on day 719163), lies between January 1, 262144 BCE (day
/// -95746129) and December 31, 262142 CE (day 95745399).
pub open spec fn utc_timestamp_representable(secs: int) -> bool {
    let day = secs / 86400 + 719163;
    -95746129 <= day <= 95745399
}

/// `chrono::DateTime::from_timestamp(secs, 0).is_some()`: `Some` exactly when
/// the day of `secs` lies within `NaiveDate::MIN..=NaiveDate::MAX`; the time
/// of day always exists for a nanosecond part of 0.
#[verifier::external_body]
fn utc_timestamp_ok(secs: i64) -> (r: bool)
    ensures
        r == utc_timestamp_representable(secs as int),
{
    chrono::DateTime::from_timestamp(secs, 0).is_some()
}

pub open spec fn message_too_old_spec(lines: Seq<Seq<char>>, cutoff_secs: int, cutoff_nanos: nat) -> bool {
    match header_date_spec(lines) {
        Some(d) => match mail_date_seconds(d) {
            Some(t) => utc_timestamp_representable(t) && (t < cutoff_secs || (t == cutoff_secs && cutoff_nanos
                > 0)),
            None => false,
        },
        None => false,
    }
}

/// Whether a message, judged by the `Date:` header among its first lines,
/// was sent before the cutoff (given as whole seconds since the epoch and
/// the nanoseconds past them). A message whose date is missing, unreadable
/// or outside the dates chrono represents is not too old.
pub fn message_too_old(header_lines: &Vec<String>, cutoff_secs: i64, cutoff_nanos: u32) -> (b: bool)
    ensures
        b == message_too_old_spec(string_views(header_lines@), cutoff_secs as int, cutoff_nanos as nat),
{
    match header_date(header_lines) {
        Some(d) => match parse_mail_date(d.as_str()) {
            Some(t) => utc_timestamp_ok(t) && (t < cutoff_secs || (t == cutoff_secs && cutoff_nanos > 0)),
            None => false,
        },
        None => false,
    }
}

/// The `Date:` header among the first lines of a message: the first line
/// whose first five characters are `date:` in any ASCII case (the only
/// characters that lowercase to these), without them, trimmed.
pub open spec fn header_date_spec(lines: Seq<Seq<char>>) -> Option<Seq<char>>
    decreases lines.len(),
{
    if lines.len() == 0 {
        None
    } else if lines[0].len() >= 5 && lower_seq(lines[0].take(5)) == "date:"@ {
        Some(trim(lines[0].skip(5)))
    } else {
        header_date_spec(lines.drop_first())
    }
}

pub fn header_date(lines: &Vec<String>) -> (r: Option<String>)
    ensures
        match header_date_spec(string_views(lines@)) {
            Some(d) => r matches Some(s) && s@ == d,
            None => r is None,
        },
{
    let mut i: usize = 0;
    assert(string_views(lines@).skip(0) =~= string_views(lines@));
    while i < lines.len()
        invariant
            i <= lines.len(),
            header_date_spec(string_views(lines@)) == header_date_spec(
                string_views(lines@).skip(i as int),
            ),
        decreases lines.len() - i,
    {
        let ghost rest = string_views(lines@).skip(i as int);
        assert(rest[0] == lines@[i as int]@);
        assert(rest.drop_first() =~= string_views(lines@).skip(i as int + 1));
        let l = chars_of(lines[i].as_str());
        if l.len() >= 5 {
            let head = slice_chars(&l, 0, 5);
            assert(head@ =~= l@.take(5));
            let hl = lower_chars(&head);
            if chars_eq_str(&hl, "date:") {
                let tail = slice_chars(&l, 5, l.len());
                assert(tail@ =~= l@.skip(5));
                let t = trim_chars(&tail);
                return Some(string_from_chars(t.as_slice()));
            }
        }
        i += 1;
    }
    None
}

// ---------------------------------------------------------------------------
// Reports
// ---------------------------------------------------------------------------

/// The report of a successful POP3 connection test.
pub fn pop3_test_result(count: i64) -> (r: EmailTestResult)
    ensures
        r.success,
        r.message@ == "POP3 连接成功，收件箱中有 "@ + dec_int(count as int) + " 封邮件"@,
        r.folder_count == Some(count),
{
    let mut m: Vec<char> = Vec::new();
    push_str(&mut m, "POP3 连接成功，收件箱中有 ");
    push_i64(&mut m, count);
    push_str(&mut m, " 封邮件");
    EmailTestResult { success: true, message: string_from_chars(m.as_slice()), folder_count: Some(count) }
}

/// The report of a successful IMAP connection test.
pub fn imap_test_result(folder: &str, count: i64) -> (r: EmailTestResult)
    ensures
        r.success,
        r.message@ == "连接成功，邮箱 "@ + folder@ + " 中有 "@ + dec_int(count as int) + " 封邮件"@,
        r.folder_count == Some(count),
{
    let mut m: Vec<char> = Vec::new();
    push_str(&mut m, "连接成功，邮箱 ");
    push_str(&mut m, folder);
    push_str(&mut m, " 中有 ");
    push_i64(&mut m, count);
    push_str(&mut m, " 封邮件");
    EmailTestResult { success: true, message: string_from_chars(m.as_slice()), folder_count: Some(count) }
}

/// The result of a sync that fetched nothing (a disabled source, or no new
/// mail).
pub fn empty_sync_result(source_id: i64) -> (r: EmailSyncResult)
    ensures
        r.source_id == source_id,
        r.fetched_count == 0,
        r.imported_count == 0,
        r.jobs.len() == 0,
{
    EmailSyncResult { source_id, fetched_count: 0, imported_count: 0, jobs: Vec::new() }
}

} // verus!
