//! Reading the first worksheet of an uploaded spreadsheet attachment: the
//! cells of `xl/worksheets/sheet1.xml`, the shared-string table of
//! `xl/sharedStrings.xml`, and the header/sample summary that the assistant
//! shows for a sheet.  The archive and the files are read by the caller; this
//! module works on their text.
use vstd::prelude::*;

use crate::text::{
    chars_of, contains_seq, contains_str, first_piece, first_piece_chars,
    lemma_split_nonempty, parse_unsigned, parse_usize, push_chars, replace_all, replace_chars,
    second_piece, second_piece_chars, split_all, split_pieces, string_from_chars, trim, trim_chars,
    trim_str, views,
};

verus! {

/// A labelled column of a sheet's header row (`index` counts from 1).
pub struct SpreadsheetColumn {
    pub index: usize,
    pub label: String,
}

/// Header and sample rows of one worksheet (`header_row` counts from 1).
pub struct SpreadsheetSheet {
    pub name: String,
    pub header_row: usize,
    pub columns: Vec<SpreadsheetColumn>,
    pub sample_rows: Vec<Vec<String>>,
}

/// What the assistant learns of a spreadsheet attachment.
pub struct SpreadsheetInspection {
    pub attachment_id: i64,
    pub file_name: String,
    pub file_type: String,
    pub sheets: Vec<SpreadsheetSheet>,
}

/// Views of a list of strings.
pub open spec fn string_views(v: Seq<String>) -> Seq<Seq<char>> {
    v.map_values(|s: String| s@)
}

/// Views of a table of strings.
pub open spec fn table_view(t: Seq<Vec<String>>) -> Seq<Seq<Seq<char>>> {
    t.map_values(|r: Vec<String>| string_views(r@))
}

fn strings_of(v: &Vec<Vec<char>>) -> (r: Vec<String>)
    ensures
        string_views(r@) == views(v@),
{
    let mut r: Vec<String> = Vec::new();
    let mut i: usize = 0;
    while i < v.len()
        invariant
            i <= v.len(),
            string_views(r@) =~= views(v@).take(i as int),
        decreases v.len() - i,
    {
        let s = string_from_chars(v[i].as_slice());
        assert(views(v@)[i as int] == v@[i as int]@);
        let ghost old_r = r@;
        r.push(s);
        assert(string_views(r@) =~= string_views(old_r).push(s@));
        assert(views(v@).take(i + 1) =~= views(v@).take(i as int).push(v@[i as int]@));
        i += 1;
    }
    assert(views(v@).take(v.len() as int) =~= views(v@));
    r
}

// ---------------------------------------------------------------------------
// XML text
// ---------------------------------------------------------------------------

/// Decoding of the five predefined XML entities, in the order the sheet
/// reader applies them (`&amp;` last).
pub open spec fn unescape_spec(s: Seq<char>) -> Seq<char> {
    replace_all(
        replace_all(
            replace_all(
                replace_all(replace_all(s, "&lt;"@, "<"@), "&gt;"@, ">"@),
                "&quot;"@,
                "\""@,
            ),
            "&apos;"@,
            "'"@,
        ),
        "&amp;"@,
        "&"@,
    )
}

fn unescape_chars(v: &Vec<char>) -> (r: Vec<char>)
    ensures
        r@ == unescape_spec(v@),
{
    proof {
        reveal_strlit("&lt;");
        reveal_strlit("&gt;");
        reveal_strlit("&quot;");
        reveal_strlit("&apos;");
        reveal_strlit("&amp;");
    }
    let a = replace_chars(v, "&lt;", "<");
    let b = replace_chars(&a, "&gt;", ">");
    let c = replace_chars(&b, "&quot;", "\"");
    let d = replace_chars(&c, "&apos;", "'");
    replace_chars(&d, "&amp;", "&")
}

/// Replaces the XML entities `&lt;`, `&gt;`, `&quot;`, `&apos;` and `&amp;`.
pub fn xml_unescape(value: &str) -> (r: String)
    ensures
        r@ == unescape_spec(value@),
{
    let v = chars_of(value);
    let u = unescape_chars(&v);
    string_from_chars(u.as_slice())
}

/// The text after the first `start` and before the next `end`, if `start` occurs.
pub open spec fn extract_between_spec(v: Seq<char>, start: Seq<char>, end: Seq<char>) -> Option<
    Seq<char>,
> {
    match second_piece(v, start) {
        Some(after) => Some(first_piece(after, end)),
        None => None,
    }
}

fn extract_between_chars(v: &Vec<char>, start: &str, end: &str) -> (r: Option<Vec<char>>)
    requires
        start@.len() > 0,
        end@.len() > 0,
    ensures
        match r {
            Some(x) => extract_between_spec(v@, start@, end@) == Some(x@),
            None => extract_between_spec(v@, start@, end@) is None,
        },
{
    let sc = chars_of(start);
    let ec = chars_of(end);
    match second_piece_chars(v, &sc) {
        Some(after) => Some(first_piece_chars(&after, &ec)),
        None => None,
    }
}

/// `value.split(start).nth(1)` cut at the first `end`: the text that follows
/// the first `start`, up to the next `start` or `end`.
pub fn extract_between(value: &str, start: &str, end: &str) -> (r: Option<String>)
    requires
        start@.len() > 0,
        end@.len() > 0,
    ensures
        match r {
            Some(x) => extract_between_spec(value@, start@, end@) == Some(x@),
            None => extract_between_spec(value@, start@, end@) is None,
        },
{
    let v = chars_of(value);
    match extract_between_chars(&v, start, end) {
        Some(x) => Some(string_from_chars(x.as_slice())),
        None => None,
    }
}

// ---------------------------------------------------------------------------
// Cell references
// ---------------------------------------------------------------------------

/// The `r` attribute of a cell, in double or single quotes.
pub open spec fn cell_reference(seg: Seq<char>) -> Option<Seq<char>> {
    match second_piece(seg, " r=\""@) {
        Some(part) => Some(first_piece(part, "\""@)),
        None => match second_piece(seg, " r='"@) {
            Some(part) => Some(first_piece(part, "'"@)),
            None => None,
        },
    }
}

pub open spec fn is_alpha(c: char) -> bool {
    ('a' <= c && c <= 'z') || ('A' <= c && c <= 'Z')
}

/// Number of leading ASCII letters.
pub open spec fn alpha_run(s: Seq<char>) -> nat
    decreases s.len(),
{
    if s.len() > 0 && is_alpha(s[0]) {
        1 + alpha_run(s.drop_first())
    } else {
        0
    }
}

/// Position of a letter in the alphabet, from 1, ignoring case.
pub open spec fn letter_rank(c: char) -> nat {
    if 'a' <= c && c <= 'z' {
        ((c as u32) - 96) as nat
    } else {
        ((c as u32) - 64) as nat
    }
}

/// Bijective base-26 value of a run of column letters (`A` = 1, `Z` = 26, `AA` = 27).
pub open spec fn letters_value(s: Seq<char>) -> nat
    decreases s.len(),
{
    if s.len() == 0 {
        0
    } else {
        letters_value(s.drop_last()) * 26 + letter_rank(s.last())
    }
}

/// The column letters of a cell reference.
pub open spec fn column_letters(r: Seq<char>) -> Seq<char> {
    r.take(alpha_run(r) as int)
}

/// Zero-based column of a cell, from the letters of its reference.
pub open spec fn cell_index_spec(seg: Seq<char>) -> Option<nat> {
    match cell_reference(seg) {
        Some(r) => if alpha_run(r) > 0 {
            Some((letters_value(column_letters(r)) - 1) as nat)
        } else {
            None
        },
        None => None,
    }
}

/// The column letters of a cell fit in a `usize`.
pub open spec fn ref_fits(seg: Seq<char>) -> bool {
    match cell_reference(seg) {
        Some(r) => letters_value(column_letters(r)) <= usize::MAX,
        None => true,
    }
}

proof fn lemma_alpha_run(s: Seq<char>)
    ensures
        alpha_run(s) <= s.len(),
        forall|k: int| 0 <= k < alpha_run(s) ==> is_alpha(#[trigger] s[k]),
        alpha_run(s) < s.len() ==> !is_alpha(s[alpha_run(s) as int]),
    decreases s.len(),
{
    if s.len() > 0 && is_alpha(s[0]) {
        lemma_alpha_run(s.drop_first());
        assert forall|k: int| 0 <= k < alpha_run(s) implies is_alpha(#[trigger] s[k]) by {
            if k > 0 {
                assert(s[k] == s.drop_first()[k - 1]);
            }
        }
    }
}

proof fn lemma_alpha_run_from(s: Seq<char>, k: int)
    requires
        0 <= k <= s.len(),
        forall|j: int| 0 <= j < k ==> is_alpha(#[trigger] s[j]),
        k == s.len() || !is_alpha(s[k]),
    ensures
        alpha_run(s) == k,
    decreases k,
{
    if k > 0 {
        assert forall|j: int| 0 <= j < k - 1 implies is_alpha(#[trigger] s.drop_first()[j]) by {
            assert(s.drop_first()[j] == s[j + 1]);
        }
        if k < s.len() {
            assert(s.drop_first()[k - 1] == s[k]);
        }
        lemma_alpha_run_from(s.drop_first(), k - 1);
    }
}

proof fn lemma_letters_value_mono(s: Seq<char>, k: int)
    requires
        0 <= k <= s.len(),
    ensures
        letters_value(s.take(k)) <= letters_value(s),
    decreases s.len() - k,
{
    if k < s.len() {
        lemma_letters_value_mono(s, k + 1);
        assert(s.take(k + 1).drop_last() =~= s.take(k));
    } else {
        assert(s.take(k) =~= s);
    }
}

fn cell_reference_chars(seg: &Vec<char>) -> (r: Option<Vec<char>>)
    ensures
        match r {
            Some(x) => cell_reference(seg@) == Some(x@),
            None => cell_reference(seg@) is None,
        },
{
    proof {
        reveal_strlit(" r=\"");
        reveal_strlit(" r='");
        reveal_strlit("\"");
        reveal_strlit("'");
    }
    let dq = chars_of(" r=\"");
    let q = chars_of("\"");
    match second_piece_chars(seg, &dq) {
        Some(part) => {
            return Some(first_piece_chars(&part, &q));
        },
        None => {},
    }
    let sq = chars_of(" r='");
    let q1 = chars_of("'");
    match second_piece_chars(seg, &sq) {
        Some(part) => Some(first_piece_chars(&part, &q1)),
        None => None,
    }
}

fn cell_index_chars(seg: &Vec<char>) -> (r: Option<usize>)
    requires
        ref_fits(seg@),
    ensures
        r matches Some(i) ==> i < usize::MAX,
        match r {
            Some(i) => cell_index_spec(seg@) == Some(i as nat),
            None => cell_index_spec(seg@) is None,
        },
{
    let reference = match cell_reference_chars(seg) {
        Some(x) => x,
        None => {
            return None;
        },
    };
    let ghost rs = reference@;
    let mut value: usize = 0;
    let mut k: usize = 0;
    while k < reference.len() && (('a' <= reference[k] && reference[k] <= 'z') || ('A'
        <= reference[k] && reference[k] <= 'Z'))
        invariant
            k <= reference.len(),
            rs == reference@,
            forall|j: int| 0 <= j < k ==> is_alpha(#[trigger] rs[j]),
            value as nat == letters_value(rs.take(k as int)),
            letters_value(column_letters(rs)) <= usize::MAX,
        decreases reference.len() - k,
    {
        proof {
            lemma_alpha_run(rs);
            assert(k < alpha_run(rs)) by {
                if k >= alpha_run(rs) {
                    if alpha_run(rs) < k {
                        assert(is_alpha(rs[alpha_run(rs) as int]));
                    }
                    assert(alpha_run(rs) == k || alpha_run(rs) < k);
                }
            }
            lemma_letters_value_mono(column_letters(rs), k + 1);
            assert(column_letters(rs).take(k + 1) =~= rs.take(k + 1));
            assert(rs.take(k + 1).drop_last() =~= rs.take(k as int));
        }
        let c = reference[k];
        let rank: usize = if 'a' <= c && c <= 'z' {
            (c as u32 - 96) as usize
        } else {
            (c as u32 - 64) as usize
        };
        value = value * 26 + rank;
        k += 1;
    }
    proof {
        lemma_alpha_run_from(rs, k as int);
    }
    if k == 0 {
        None
    } else {
        assert(value as nat >= 1) by {
            assert(rs.take(k as int).drop_last() =~= rs.take(k - 1));
            assert(is_alpha(rs[k - 1]));
        }
        Some(if value >= 1 {
            value - 1
        } else {
            0
        })
    }
}

/// Zero-based column of a `<c ...>` cell from its `r` attribute (`A1` → 0,
/// `AB7` → 27), or `None` without a reference that starts with letters.
pub fn cell_reference_to_index(cell_segment: &str) -> (r: Option<usize>)
    requires
        ref_fits(cell_segment@),
    ensures
        match r {
            Some(i) => cell_index_spec(cell_segment@) == Some(i as nat),
            None => cell_index_spec(cell_segment@) is None,
        },
{
    let seg = chars_of(cell_segment);
    cell_index_chars(&seg)
}

// ---------------------------------------------------------------------------
// Cells and rows
// ---------------------------------------------------------------------------

/// The text of one cell: inline strings, shared strings (by index into the
/// shared-string table) or plain values.
pub open spec fn cell_value_spec(seg: Seq<char>, shared: Seq<Seq<char>>) -> Seq<char> {
    let is_shared = contains_seq(seg, " t=\"s\""@) || contains_seq(seg, " t='s'"@);
    let is_inline = contains_seq(seg, " t=\"inlineStr\""@) || contains_seq(
        seg,
        " t='inlineStr'"@,
    );
    if is_inline {
        match extract_between_spec(seg, "<t"@, "</t>"@) {
            Some(raw) => match second_piece(raw, ">"@) {
                Some(x) => unescape_spec(x),
                None => Seq::empty(),
            },
            None => Seq::empty(),
        }
    } else {
        let raw = match extract_between_spec(seg, "<v>"@, "</v>"@) {
            Some(r) => r,
            None => Seq::empty(),
        };
        if is_shared {
            match parse_unsigned(raw, usize::MAX as nat) {
                Some(i) => if i < shared.len() {
                    shared[i as int]
                } else {
                    Seq::empty()
                },
                None => Seq::empty(),
            }
        } else {
            unescape_spec(raw)
        }
    }
}

fn cell_value_chars(seg: &Vec<char>, shared: &[String]) -> (r: Vec<char>)
    ensures
        r@ == cell_value_spec(seg@, string_views(shared@)),
{
    proof {
        reveal_strlit("<t");
        reveal_strlit("</t>");
        reveal_strlit(">");
        reveal_strlit("<v>");
        reveal_strlit("</v>");
    }
    let is_shared = contains_str(seg, " t=\"s\"") || contains_str(seg, " t='s'");
    let is_inline = contains_str(seg, " t=\"inlineStr\"") || contains_str(seg, " t='inlineStr'");
    if is_inline {
        match extract_between_chars(seg, "<t", "</t>") {
            Some(raw) => {
                let gt = chars_of(">");
                match second_piece_chars(&raw, &gt) {
                    Some(x) => unescape_chars(&x),
                    None => Vec::new(),
                }
            },
            None => Vec::new(),
        }
    } else {
        let raw = match extract_between_chars(seg, "<v>", "</v>") {
            Some(r) => r,
            None => Vec::new(),
        };
        if is_shared {
            match parse_usize(&raw) {
                Some(i) => if i < shared.len() {
                    assert(string_views(shared@)[i as int] == shared@[i as int]@);
                    chars_of(shared[i].as_str())
                } else {
                    Vec::new()
                },
                None => Vec::new(),
            }
        } else {
            unescape_chars(&raw)
        }
    }
}

/// The `<c ...>` segments of a row: every piece after a `<c`, up to `</c>`.
pub open spec fn cell_segments(row_seg: Seq<char>) -> Seq<Seq<char>> {
    split_all(row_seg, "<c"@).drop_first().map_values(|c: Seq<char>| first_piece(c, "</c>"@))
}

/// The first `n` cells of a row as (column, text); a cell without a usable
/// reference takes the number of cells before it as its column.
pub open spec fn cell_entries(segs: Seq<Seq<char>>, shared: Seq<Seq<char>>, n: nat) -> Seq<
    (int, Seq<char>),
>
    decreases n,
{
    if n == 0 {
        Seq::empty()
    } else {
        cell_entries(segs, shared, (n - 1) as nat).push(
            (
                match cell_index_spec(segs[n - 1]) {
                    Some(c) => c as int,
                    None => n - 1,
                },
                cell_value_spec(segs[n - 1], shared),
            ),
        )
    }
}

/// One more than the largest column among the first `n` entries (0 if none).
pub open spec fn row_width(e: Seq<(int, Seq<char>)>, n: nat) -> int
    decreases n,
{
    if n == 0 {
        0
    } else {
        let w = row_width(e, (n - 1) as nat);
        if e[n - 1].0 + 1 > w {
            e[n - 1].0 + 1
        } else {
            w
        }
    }
}

/// A row of `width` empty cells filled with the first `n` entries in order
/// (a later entry for the same column wins).
pub open spec fn fill_row(e: Seq<(int, Seq<char>)>, n: nat, width: int) -> Seq<Seq<char>>
    decreases n,
{
    if n == 0 {
        Seq::new(width as nat, |i: int| Seq::<char>::empty())
    } else {
        let r = fill_row(e, (n - 1) as nat, width);
        if 0 <= e[n - 1].0 < r.len() {
            r.update(e[n - 1].0, e[n - 1].1)
        } else {
            r
        }
    }
}

/// The cells of a row segment, laid out by column.
pub open spec fn row_spec(row_seg: Seq<char>, shared: Seq<Seq<char>>) -> Seq<Seq<char>> {
    let segs = cell_segments(row_seg);
    let e = cell_entries(segs, shared, segs.len());
    fill_row(e, e.len(), row_width(e, e.len()))
}

/// Some cell has non-blank text.
pub open spec fn has_text(row: Seq<Seq<char>>) -> bool {
    exists|i: int| 0 <= i < row.len() && #[trigger] trim(row[i]).len() > 0
}

/// The `<row` pieces of a sheet, each cut at `</row>`.
pub open spec fn row_segments(xml: Seq<char>) -> Seq<Seq<char>> {
    split_all(xml, "<row"@).drop_first().map_values(|r: Seq<char>| first_piece(r, "</row>"@))
}

/// The non-blank rows among the first `n` row segments.
pub open spec fn rows_upto(segs: Seq<Seq<char>>, shared: Seq<Seq<char>>, n: nat) -> Seq<
    Seq<Seq<char>>,
>
    decreases n,
{
    if n == 0 {
        Seq::empty()
    } else {
        let prev = rows_upto(segs, shared, (n - 1) as nat);
        let row = row_spec(segs[n - 1], shared);
        if has_text(row) {
            prev.push(row)
        } else {
            prev
        }
    }
}

pub open spec fn min_nat(a: nat, b: nat) -> nat {
    if a <= b {
        a
    } else {
        b
    }
}

/// The rows that the sheet reader keeps from the first `max_rows` `<row>`
/// elements: blank rows are dropped.
pub open spec fn sheet_rows_spec(xml: Seq<char>, shared: Seq<Seq<char>>, max_rows: nat) -> Seq<
    Seq<Seq<char>>,
> {
    let segs = row_segments(xml);
    rows_upto(segs, shared, min_nat(max_rows, segs.len()))
}

/// The column letters of every cell that the reader looks at fit in a `usize`.
pub open spec fn sheet_refs_fit(xml: Seq<char>, max_rows: nat) -> bool {
    forall|i: int, j: int|
        0 <= i < min_nat(max_rows, row_segments(xml).len()) && 0 <= j < cell_segments(
            row_segments(xml)[i],
        ).len() ==> ref_fits(#[trigger] cell_segments(row_segments(xml)[i])[j])
}

proof fn lemma_row_width_prefix(e1: Seq<(int, Seq<char>)>, e2: Seq<(int, Seq<char>)>, n: nat)
    requires
        n <= e1.len(),
        n <= e2.len(),
        forall|k: int| 0 <= k < n ==> e1[k] == e2[k],
    ensures
        row_width(e1, n) == row_width(e2, n),
    decreases n,
{
    if n > 0 {
        lemma_row_width_prefix(e1, e2, (n - 1) as nat);
    }
}

proof fn lemma_row_width(e: Seq<(int, Seq<char>)>, n: nat)
    requires
        n <= e.len(),
        forall|k: int| 0 <= k < n ==> (#[trigger] e[k]).0 >= 0,
    ensures
        row_width(e, n) >= 0,
        forall|k: int| 0 <= k < n ==> (#[trigger] e[k]).0 < row_width(e, n),
    decreases n,
{
    if n > 0 {
        lemma_row_width(e, (n - 1) as nat);
    }
}

proof fn lemma_fill_len(e: Seq<(int, Seq<char>)>, n: nat, width: int)
    requires
        n <= e.len(),
        width >= 0,
    ensures
        fill_row(e, n, width).len() == width,
    decreases n,
{
    if n > 0 {
        lemma_fill_len(e, (n - 1) as nat, width);
    }
}

fn any_text(row: &Vec<Vec<char>>) -> (b: bool)
    ensures
        b == has_text(views(row@)),
{
    let mut i: usize = 0;
    while i < row.len()
        invariant
            i <= row.len(),
            forall|k: int| 0 <= k < i ==> trim(#[trigger] views(row@)[k]).len() == 0,
        decreases row.len() - i,
    {
        let t = trim_chars(&row[i]);
        assert(views(row@)[i as int] == row@[i as int]@);
        if t.len() > 0 {
            return true;
        }
        i += 1;
    }
    false
}

fn parse_row(seg: &Vec<char>, shared: &[String]) -> (r: Vec<Vec<char>>)
    requires
        forall|j: int| 0 <= j < cell_segments(seg@).len() ==> ref_fits(
            #[trigger] cell_segments(seg@)[j],
        ),
    ensures
        views(r@) == row_spec(seg@, string_views(shared@)),
{
    proof {
        reveal_strlit("<c");
        reveal_strlit("</c>");
    }
    let ghost sh = string_views(shared@);
    let ghost segs = cell_segments(seg@);
    let open_c = chars_of("<c");
    let close_c = chars_of("</c>");
    let pieces = split_pieces(seg, &open_c);
    let mut cols: Vec<usize> = Vec::new();
    let mut vals: Vec<Vec<char>> = Vec::new();
    let mut width: usize = 0;
    let mut j: usize = 1;
    assert(segs.len() == pieces.len() - 1);
    while j < pieces.len()
        invariant
            1 <= j <= pieces.len(),
            views(pieces@) == split_all(seg@, "<c"@),
            close_c@ == "</c>"@,
            "</c>"@.len() > 0,
            segs == cell_segments(seg@),
            segs.len() == pieces.len() - 1,
            forall|k: int| 0 <= k < segs.len() ==> ref_fits(#[trigger] segs[k]),
            sh == string_views(shared@),
            cols.len() == j - 1,
            vals.len() == j - 1,
            forall|k: int|
                0 <= k < j - 1 ==> (#[trigger] cell_entries(segs, sh, (j - 1) as nat)[k]) == (
                cols@[k] as int, vals@[k]@),
            cell_entries(segs, sh, (j - 1) as nat).len() == j - 1,
            width as int == row_width(cell_entries(segs, sh, (j - 1) as nat), (j - 1) as nat),
        decreases pieces.len() - j,
    {
        let cseg = first_piece_chars(&pieces[j], &close_c);
        proof {
            assert(views(pieces@)[j as int] == pieces@[j as int]@);
            assert(segs[j - 1] == first_piece(split_all(seg@, "<c"@)[j as int], "</c>"@));
            assert(cseg@ == segs[j - 1]);
        }
        let col = match cell_index_chars(&cseg) {
            Some(c) => c,
            None => j - 1,
        };
        let value = cell_value_chars(&cseg, shared);
        let ghost prev = cell_entries(segs, sh, (j - 1) as nat);
        proof {
            let ne = cell_entries(segs, sh, j as nat);
            assert(ne == prev.push((col as int, value@)));
            lemma_row_width_prefix(ne, prev, (j - 1) as nat);
            assert forall|k: int| 0 <= k < j implies (#[trigger] cell_entries(segs, sh, j as nat)[k])
                == (cols@.push(col)[k] as int, vals@.push(value)[k]@) by {
                if k < j - 1 {
                    assert(ne[k] == prev[k]);
                }
            }
            assert(row_width(ne, j as nat) == if col + 1 > width {
                col + 1
            } else {
                width as int
            });
        }
        if col >= width {
            width = col + 1;
        }
        cols.push(col);
        vals.push(value);
        j += 1;
    }
    let ghost e = cell_entries(segs, sh, segs.len());
    assert(e.len() == cols.len());
    proof {
        assert forall|k: int| 0 <= k < e.len() implies (#[trigger] e[k]).0 >= 0 by {
            assert(e[k] == (cols@[k] as int, vals@[k]@));
        }
        lemma_row_width(e, e.len());
    }
    let mut row: Vec<Vec<char>> = Vec::new();
    let mut w: usize = 0;
    while w < width
        invariant
            w <= width,
            row.len() == w,
            forall|k: int| 0 <= k < w ==> (#[trigger] row@[k])@.len() == 0,
        decreases width - w,
    {
        row.push(Vec::new());
        w += 1;
    }
    assert forall|m: int| 0 <= m < width implies #[trigger] views(row@)[m] =~= Seq::<char>::empty() by {
        assert(views(row@)[m] == row@[m]@);
    }
    assert(views(row@) =~= fill_row(e, 0, width as int));
    let mut k: usize = 0;
    while k < cols.len()
        invariant
            k <= cols.len() == vals.len() == e.len(),
            forall|m: int| 0 <= m < e.len() ==> (#[trigger] e[m]) == (cols@[m] as int, vals@[m]@),
            forall|m: int| 0 <= m < e.len() ==> 0 <= (#[trigger] e[m]).0 < width,
            row.len() == width,
            views(row@) == fill_row(e, k as nat, width as int),
        decreases cols.len() - k,
    {
        let c = cols[k];
        assert(e[k as int] == (c as int, vals@[k as int]@));
        assert(c < width);
        let ghost before = views(row@);
        proof {
            lemma_fill_len(e, k as nat, width as int);
        }
        row.set(c, vals[k].clone());
        proof {
            assert(views(row@) =~= before.update(c as int, vals@[k as int]@));
        }
        k += 1;
    }
    row
}

} // verus!

verus! {

fn letters_fit_chars(seg: &Vec<char>) -> (b: bool)
    ensures
        b == ref_fits(seg@),
{
    let reference = match cell_reference_chars(seg) {
        Some(x) => x,
        None => {
            return true;
        },
    };
    let ghost rs = reference@;
    proof {
        lemma_alpha_run(rs);
    }
    let mut value: usize = 0;
    let mut k: usize = 0;
    while k < reference.len() && (('a' <= reference[k] && reference[k] <= 'z') || ('A'
        <= reference[k] && reference[k] <= 'Z'))
        invariant
            k <= reference.len(),
            rs == reference@,
            cell_reference(seg@) == Some(rs),
            alpha_run(rs) <= rs.len(),
            forall|j: int| 0 <= j < alpha_run(rs) ==> is_alpha(#[trigger] rs[j]),
            alpha_run(rs) < rs.len() ==> !is_alpha(rs[alpha_run(rs) as int]),
            forall|j: int| 0 <= j < k ==> is_alpha(#[trigger] rs[j]),
            value as nat == letters_value(rs.take(k as int)),
        decreases reference.len() - k,
    {
        assert(k < alpha_run(rs)) by {
            if k >= alpha_run(rs) {
                if alpha_run(rs) < k {
                    assert(is_alpha(rs[alpha_run(rs) as int]));
                }
            }
        }
        assert(rs.take(k + 1).drop_last() =~= rs.take(k as int));
        assert(column_letters(rs).take(k + 1) =~= rs.take(k + 1));
        let c = reference[k];
        let rank: usize = if 'a' <= c && c <= 'z' {
            (c as u32 - 96) as usize
        } else {
            (c as u32 - 64) as usize
        };
        if value > (usize::MAX - rank) / 26 {
            proof {
                assert(value * 26 + rank > usize::MAX) by (nonlinear_arith)
                    requires
                        value > (usize::MAX - rank) / 26,
                        rank <= 26,
                ;
                assert(rs.take(k + 1).last() == c);
                assert(letters_value(rs.take(k + 1)) == value * 26 + rank);
                lemma_letters_value_mono(column_letters(rs), k + 1);
                assert(letters_value(column_letters(rs)) > usize::MAX);
                assert(cell_reference(seg@) == Some(rs));
            }
            return false;
        }
        assert(value * 26 + rank <= usize::MAX) by (nonlinear_arith)
            requires
                value <= (usize::MAX - rank) / 26,
                rank <= 26,
        ;
        assert(rs.take(k + 1).last() == c);
        value = value * 26 + rank;
        k += 1;
    }
    proof {
        lemma_alpha_run_from(rs, k as int);
        assert(column_letters(rs) =~= rs.take(k as int));
    }
    true
}

/// Whether every cell that `parse_xlsx_sheet_rows` would read has column
/// letters whose value fits in a `usize`.
pub fn sheet_refs_fit_check(xml: &str, max_rows: usize) -> (b: bool)
    ensures
        b == sheet_refs_fit(xml@, max_rows as nat),
{
    proof {
        reveal_strlit("<row");
        reveal_strlit("</row>");
        reveal_strlit("<c");
        reveal_strlit("</c>");
        lemma_split_nonempty(xml@, "<row"@);
    }
    let x = chars_of(xml);
    let open_row = chars_of("<row");
    let close_row = chars_of("</row>");
    let open_c = chars_of("<c");
    let close_c = chars_of("</c>");
    let pieces = split_pieces(&x, &open_row);
    let ghost segs = row_segments(xml@);
    let n: usize = if max_rows < pieces.len() - 1 {
        max_rows
    } else {
        pieces.len() - 1
    };
    assert(n == min_nat(max_rows as nat, segs.len()));
    let mut k: usize = 0;
    while k < n
        invariant
            k <= n == min_nat(max_rows as nat, segs.len()),
            segs == row_segments(xml@),
            x@ == xml@,
            views(pieces@) == split_all(xml@, "<row"@),
            pieces.len() == segs.len() + 1,
            close_row@ == "</row>"@,
            open_c@ == "<c"@,
            close_c@ == "</c>"@,
            close_row.len() > 0,
            open_c.len() > 0,
            close_c.len() > 0,
            forall|i: int, j: int|
                0 <= i < k && 0 <= j < cell_segments(segs[i]).len() ==> ref_fits(
                    #[trigger] cell_segments(segs[i])[j],
                ),
        decreases n - k,
    {
        let seg = first_piece_chars(&pieces[k + 1], &close_row);
        assert(views(pieces@)[k + 1] == pieces@[k + 1]@);
        assert(seg@ == segs[k as int]);
        let cps = split_pieces(&seg, &open_c);
        let ghost csegs = cell_segments(seg@);
        let mut j: usize = 1;
        while j < cps.len()
            invariant
                1 <= j <= cps.len(),
                views(cps@) == split_all(seg@, "<c"@),
                csegs == cell_segments(seg@),
                csegs.len() == cps.len() - 1,
                close_c@ == "</c>"@,
                close_c.len() > 0,
                seg@ == segs[k as int],
                k < n == min_nat(max_rows as nat, segs.len()),
                segs == row_segments(xml@),
                forall|m: int| 0 <= m < j - 1 ==> ref_fits(#[trigger] csegs[m]),
            decreases cps.len() - j,
        {
            let cseg = first_piece_chars(&cps[j], &close_c);
            assert(views(cps@)[j as int] == cps@[j as int]@);
            assert(cseg@ == csegs[j - 1]);
            if !letters_fit_chars(&cseg) {
                assert(!sheet_refs_fit(xml@, max_rows as nat)) by {
                    assert(!ref_fits(cell_segments(row_segments(xml@)[k as int])[j - 1]));
                }
                return false;
            }
            j += 1;
        }
        assert(csegs.len() == j - 1);
        k += 1;
    }
    true
}

/// The rows of a worksheet's XML: every `<row>` among the first `max_rows`,
/// its cells placed by column (`A` is 0), shared-string cells looked up in
/// `shared_strings`, inline and plain values unescaped; rows whose cells are
/// all blank are dropped.
pub fn parse_xlsx_sheet_rows(xml: &str, shared_strings: &[String], max_rows: usize) -> (rows: Vec<
    Vec<String>,
>)
    requires
        sheet_refs_fit(xml@, max_rows as nat),
    ensures
        table_view(rows@) == sheet_rows_spec(xml@, string_views(shared_strings@), max_rows as nat),
{
    proof {
        reveal_strlit("<row");
        reveal_strlit("</row>");
        lemma_split_nonempty(xml@, "<row"@);
    }
    let ghost sh = string_views(shared_strings@);
    let x = chars_of(xml);
    let open_row = chars_of("<row");
    let close_row = chars_of("</row>");
    let pieces = split_pieces(&x, &open_row);
    let ghost segs = row_segments(xml@);
    let n: usize = if max_rows < pieces.len() - 1 {
        max_rows
    } else {
        pieces.len() - 1
    };
    assert(n == min_nat(max_rows as nat, segs.len()));
    let mut out: Vec<Vec<String>> = Vec::new();
    let mut k: usize = 0;
    while k < n
        invariant
            k <= n == min_nat(max_rows as nat, segs.len()),
            segs == row_segments(xml@),
            sh == string_views(shared_strings@),
            x@ == xml@,
            views(pieces@) == split_all(xml@, "<row"@),
            pieces.len() == segs.len() + 1,
            close_row@ == "</row>"@,
            close_row.len() > 0,
            sheet_refs_fit(xml@, max_rows as nat),
            table_view(out@) == rows_upto(segs, sh, k as nat),
        decreases n - k,
    {
        let seg = first_piece_chars(&pieces[k + 1], &close_row);
        assert(views(pieces@)[k + 1] == pieces@[k + 1]@);
        assert(seg@ == segs[k as int]);
        assert forall|j: int| 0 <= j < cell_segments(seg@).len() implies ref_fits(
            #[trigger] cell_segments(seg@)[j],
        ) by {
            assert(ref_fits(cell_segments(row_segments(xml@)[k as int])[j]));
        }
        let row = parse_row(&seg, shared_strings);
        let keep = any_text(&row);
        if keep {
            let strings = strings_of(&row);
            let ghost old_out = out@;
            out.push(strings);
            assert(table_view(out@) =~= table_view(old_out).push(string_views(strings@)));
        }
        k += 1;
    }
    out
}

// ---------------------------------------------------------------------------
// Shared strings
// ---------------------------------------------------------------------------

/// The text of the first `<t>` element of a block.
pub open spec fn t_text(block: Seq<char>) -> Option<Seq<char>> {
    match second_piece(block, "<t"@) {
        Some(after) => match second_piece(after, ">"@) {
            Some(v) => Some(first_piece(v, "</t>"@)),
            None => None,
        },
        None => None,
    }
}

/// The `<r>` runs of a rich-text item, each cut at `</r>`.
pub open spec fn rich_runs(segment: Seq<char>) -> Seq<Seq<char>> {
    split_all(segment, "<r>"@).drop_first().map_values(|p: Seq<char>| first_piece(p, "</r>"@))
}

/// The concatenated text of the first `n` runs.
pub open spec fn runs_text(runs: Seq<Seq<char>>, n: nat) -> Seq<char>
    decreases n,
{
    if n == 0 {
        Seq::empty()
    } else {
        runs_text(runs, (n - 1) as nat) + match t_text(runs[n - 1]) {
            Some(v) => unescape_spec(v),
            None => Seq::empty(),
        }
    }
}

/// The text of one `<si>` item: the runs of rich text, else its single `<t>`.
pub open spec fn shared_item_text(segment: Seq<char>) -> Seq<char> {
    if contains_seq(segment, "<r>"@) || contains_seq(segment, "<r "@) {
        runs_text(rich_runs(segment), rich_runs(segment).len())
    } else {
        match t_text(segment) {
            Some(v) => unescape_spec(v),
            None => Seq::empty(),
        }
    }
}

/// The shared-string table of `xl/sharedStrings.xml`, one entry per `<si>`.
pub open spec fn shared_strings_spec(xml: Seq<char>) -> Seq<Seq<char>> {
    split_all(xml, "<si"@).drop_first().map_values(
        |item: Seq<char>| shared_item_text(first_piece(item, "</si>"@)),
    )
}

fn t_text_chars(block: &Vec<char>) -> (r: Option<Vec<char>>)
    ensures
        match r {
            Some(v) => t_text(block@) == Some(v@),
            None => t_text(block@) is None,
        },
{
    proof {
        reveal_strlit("<t");
        reveal_strlit(">");
        reveal_strlit("</t>");
    }
    let ot = chars_of("<t");
    let gt = chars_of(">");
    let ct = chars_of("</t>");
    match second_piece_chars(block, &ot) {
        Some(after) => match second_piece_chars(&after, &gt) {
            Some(v) => Some(first_piece_chars(&v, &ct)),
            None => None,
        },
        None => None,
    }
}

fn shared_item_chars(segment: &Vec<char>) -> (r: Vec<char>)
    ensures
        r@ == shared_item_text(segment@),
{
    proof {
        reveal_strlit("<r>");
        reveal_strlit("</r>");
    }
    if contains_str(segment, "<r>") || contains_str(segment, "<r ") {
        let open_r = chars_of("<r>");
        let close_r = chars_of("</r>");
        let parts = split_pieces(segment, &open_r);
        let ghost runs = rich_runs(segment@);
        let mut text: Vec<char> = Vec::new();
        let mut j: usize = 1;
        while j < parts.len()
            invariant
                1 <= j <= parts.len(),
                views(parts@) == split_all(segment@, "<r>"@),
                runs == rich_runs(segment@),
                runs.len() == parts.len() - 1,
                close_r@ == "</r>"@,
                close_r.len() > 0,
                text@ == runs_text(runs, (j - 1) as nat),
            decreases parts.len() - j,
        {
            let block = first_piece_chars(&parts[j], &close_r);
            assert(views(parts@)[j as int] == parts@[j as int]@);
            assert(block@ == runs[j - 1]);
            match t_text_chars(&block) {
                Some(v) => {
                    let u = unescape_chars(&v);
                    crate::text::push_chars(&mut text, &u);
                },
                None => {
                    assert(text@ =~= text@ + Seq::<char>::empty());
                },
            }
            j += 1;
        }
        text
    } else {
        match t_text_chars(segment) {
            Some(v) => unescape_chars(&v),
            None => Vec::new(),
        }
    }
}

/// The shared-string table of `xl/sharedStrings.xml`: one entry per `<si>`,
/// rich-text runs concatenated, entities unescaped.
pub fn parse_shared_strings(xml: &str) -> (r: Vec<String>)
    ensures
        string_views(r@) == shared_strings_spec(xml@),
{
    proof {
        reveal_strlit("<si");
        reveal_strlit("</si>");
        lemma_split_nonempty(xml@, "<si"@);
    }
    let x = chars_of(xml);
    let open_si = chars_of("<si");
    let close_si = chars_of("</si>");
    let items = split_pieces(&x, &open_si);
    let ghost spec_r = shared_strings_spec(xml@);
    let mut out: Vec<String> = Vec::new();
    let mut j: usize = 1;
    while j < items.len()
        invariant
            1 <= j <= items.len(),
            x@ == xml@,
            views(items@) == split_all(xml@, "<si"@),
            spec_r == shared_strings_spec(xml@),
            spec_r.len() == items.len() - 1,
            close_si@ == "</si>"@,
            close_si.len() > 0,
            string_views(out@) =~= spec_r.take(j - 1),
        decreases items.len() - j,
    {
        let seg = first_piece_chars(&items[j], &close_si);
        assert(views(items@)[j as int] == items@[j as int]@);
        let t = shared_item_chars(&seg);
        let s = string_from_chars(t.as_slice());
        let ghost old_out = out@;
        out.push(s);
        assert(string_views(out@) =~= string_views(old_out).push(s@));
        assert(spec_r.take(j as int) =~= spec_r.take(j - 1).push(spec_r[j - 1]));
        j += 1;
    }
    assert(spec_r.take(items.len() - 1) =~= spec_r);
    out
}

// ---------------------------------------------------------------------------
// Sheet summary
// ---------------------------------------------------------------------------

/// Number of non-blank cells among the first `n` of a row.
pub open spec fn nonblank_count(row: Seq<Seq<char>>, n: nat) -> nat
    decreases n,
{
    if n == 0 {
        0
    } else {
        nonblank_count(row, (n - 1) as nat) + if trim(row[n - 1]).len() > 0 {
            1nat
        } else {
            0nat
        }
    }
}

/// Index of the first row from `k` on with three or more non-blank cells, else 0.
pub open spec fn header_index_from(rows: Seq<Seq<Seq<char>>>, k: int) -> int
    decreases rows.len() - k,
{
    if k < 0 || k >= rows.len() {
        0
    } else if nonblank_count(rows[k], rows[k].len()) >= 3 {
        k
    } else {
        header_index_from(rows, k + 1)
    }
}

/// The header row of a sheet: the first row with at least three non-blank
/// cells (title rows above it are skipped), or the first row.
pub open spec fn header_index(rows: Seq<Seq<Seq<char>>>) -> int {
    header_index_from(rows, 0)
}

/// The labelled columns among the first `n` cells of a header (index from 1).
pub open spec fn header_columns(header: Seq<Seq<char>>, n: nat) -> Seq<(int, Seq<char>)>
    decreases n,
{
    if n == 0 {
        Seq::empty()
    } else {
        let prev = header_columns(header, (n - 1) as nat);
        if trim(header[n - 1]).len() > 0 {
            prev.push((n as int, trim(header[n - 1])))
        } else {
            prev
        }
    }
}

pub open spec fn columns_view(cols: Seq<SpreadsheetColumn>) -> Seq<(int, Seq<char>)> {
    cols.map_values(|c: SpreadsheetColumn| (c.index as int, c.label@))
}

/// The header cells of a sheet (none when the sheet has no rows).
pub open spec fn header_cells(rows: Seq<Seq<Seq<char>>>) -> Seq<Seq<char>> {
    if 0 <= header_index(rows) < rows.len() {
        rows[header_index(rows)]
    } else {
        Seq::empty()
    }
}

/// The rows after the header, at most `max_rows` of them.
pub open spec fn sample_rows_spec(rows: Seq<Seq<Seq<char>>>, max_rows: nat) -> Seq<
    Seq<Seq<char>>,
> {
    let start = header_index(rows) + 1;
    if start >= rows.len() {
        Seq::empty()
    } else {
        let rest = rows.skip(start);
        if rest.len() <= max_rows {
            rest
        } else {
            rest.take(max_rows as int)
        }
    }
}

proof fn lemma_header_index_from(rows: Seq<Seq<Seq<char>>>, k: int)
    requires
        0 <= k,
    ensures
        0 <= header_index_from(rows, k),
        rows.len() > 0 ==> header_index_from(rows, k) < rows.len(),
    decreases rows.len() - k,
{
    if k < rows.len() && nonblank_count(rows[k], rows[k].len()) < 3 {
        lemma_header_index_from(rows, k + 1);
    }
}

fn count_nonblank(row: &Vec<String>) -> (n: usize)
    ensures
        n == nonblank_count(string_views(row@), row.len() as nat),
{
    let mut n: usize = 0;
    let mut i: usize = 0;
    while i < row.len()
        invariant
            i <= row.len(),
            n == nonblank_count(string_views(row@), i as nat),
            n <= i,
        decreases row.len() - i,
    {
        let t = trim_str(row[i].as_str());
        assert(string_views(row@)[i as int] == row@[i as int]@);
        if t.len() > 0 {
            n += 1;
        }
        i += 1;
    }
    n
}

/// The header and sample rows of a sheet: the header is the first row with
/// at least three non-blank cells (else the first row); its non-blank cells,
/// trimmed, become the columns (indexed from 1); up to `max_rows` rows after
/// it are the sample.
pub fn sheet_from_rows(name: &str, rows: Vec<Vec<String>>, max_rows: usize) -> (r: SpreadsheetSheet)
    ensures
        sheet_view(r) == sheet_summary(name@, table_view(rows@), max_rows as nat),
        r.name@ == name@,
        r.header_row == header_index(table_view(rows@)) + 1,
        columns_view(r.columns@) == header_columns(
            header_cells(table_view(rows@)),
            header_cells(table_view(rows@)).len(),
        ),
        table_view(r.sample_rows@) == sample_rows_spec(table_view(rows@), max_rows as nat),
{
    let ghost tv = table_view(rows@);
    let mut h: usize = 0;
    let mut found = false;
    while h < rows.len() && !found
        invariant
            h <= rows.len(),
            tv == table_view(rows@),
            header_index(tv) == header_index_from(tv, h as int),
            found ==> h < rows.len() && nonblank_count(tv[h as int], tv[h as int].len()) >= 3,
        decreases rows.len() - h, if found { 0int } else { 1int },
    {
        assert(tv[h as int] == string_views(rows@[h as int]@));
        let c = count_nonblank(&rows[h]);
        if c >= 3 {
            found = true;
        } else {
            h += 1;
        }
    }
    let header_idx: usize = if found {
        h
    } else {
        0
    };
    proof {
        lemma_header_index_from(tv, 0);
        if !found {
            assert(header_index(tv) == 0);
        }
    }
    assert(header_idx as int == header_index(tv));
    let mut columns: Vec<SpreadsheetColumn> = Vec::new();
    if header_idx < rows.len() {
        let header = &rows[header_idx];
        let ghost hv = string_views(header@);
        assert(hv == header_cells(tv));
        let mut i: usize = 0;
        while i < header.len()
            invariant
                i <= header.len(),
                hv == string_views(header@),
                columns_view(columns@) == header_columns(hv, i as nat),
            decreases header.len() - i,
        {
            let t = trim_str(header[i].as_str());
            assert(hv[i as int] == header@[i as int]@);
            if t.len() > 0 {
                let col = SpreadsheetColumn { index: i + 1, label: string_from_chars(t.as_slice()) };
                let ghost old_c = columns@;
                columns.push(col);
                assert(columns_view(columns@) =~= columns_view(old_c).push(((i + 1) as int, t@)));
            }
            i += 1;
        }
    } else {
        assert(header_cells(tv).len() == 0);
    }
    let mut sample: Vec<Vec<String>> = Vec::new();
    let start = header_idx + 1;
    let ghost sp = sample_rows_spec(tv, max_rows as nat);
    if start < rows.len() {
        let mut i: usize = start;
        while i < rows.len() && i - start < max_rows
            invariant
                start <= i <= rows.len(),
                tv == table_view(rows@),
                table_view(sample@) =~= tv.skip(start as int).take(i - start),
                i - start <= max_rows,
            decreases rows.len() - i,
        {
            let ghost old_s = sample@;
            sample.push(rows[i].clone());
            assert(table_view(sample@) =~= table_view(old_s).push(tv[i as int]));
            i += 1;
        }
        let ghost rest = tv.skip(start as int);
        assert(tv.len() == rows.len());
        assert(rest.len() == rows.len() - start);
        proof {
            if i == rows.len() {
                assert(rest.take(i - start) =~= rest);
            } else {
                assert(i - start == max_rows);
                if rest.len() == max_rows {
                    assert(rest.take(max_rows as int) =~= rest);
                }
            }
        }
        assert(rest.take(i - start) =~= if rest.len() <= max_rows {
            rest
        } else {
            rest.take(max_rows as int)
        });
        assert(table_view(sample@) =~= sp);
    }
    SpreadsheetSheet {
        name: string_from_chars(crate::text::chars_of(name).as_slice()),
        header_row: start,
        columns,
        sample_rows: sample,
    }
}

/// Trims every cell of the records that the CSV reader returned (the reader
/// keeps at most `max_rows + 1` records) and summarises them as the `CSV` sheet.
pub fn sheet_from_csv_records(records: Vec<Vec<String>>, max_rows: usize) -> (r: SpreadsheetSheet)
    ensures
        sheet_view(r) == sheet_summary(
            "CSV"@,
            trimmed_table(table_view(records@)),
            max_rows as nat,
        ),
        r.name@ == "CSV"@,
        r.header_row == header_index(trimmed_table(table_view(records@))) + 1,
        columns_view(r.columns@) == header_columns(
            header_cells(trimmed_table(table_view(records@))),
            header_cells(trimmed_table(table_view(records@))).len(),
        ),
        table_view(r.sample_rows@) == sample_rows_spec(
            trimmed_table(table_view(records@)),
            max_rows as nat,
        ),
{
    let mut rows: Vec<Vec<String>> = Vec::new();
    let mut i: usize = 0;
    while i < records.len()
        invariant
            i <= records.len(),
            table_view(rows@) =~= trimmed_table(table_view(records@)).take(i as int),
        decreases records.len() - i,
    {
        let rec = &records[i];
        let mut row: Vec<String> = Vec::new();
        let mut j: usize = 0;
        while j < rec.len()
            invariant
                j <= rec.len(),
                string_views(row@) =~= string_views(rec@).map_values(|c: Seq<char>| trim(c)).take(
                    j as int,
                ),
            decreases rec.len() - j,
        {
            let t = trim_str(rec[j].as_str());
            let ghost old_row = row@;
            row.push(string_from_chars(t.as_slice()));
            assert(string_views(row@) =~= string_views(old_row).push(t@));
            j += 1;
        }
        assert(string_views(row@) =~= string_views(rec@).map_values(|c: Seq<char>| trim(c)));
        let ghost old_rows = rows@;
        rows.push(row);
        assert(table_view(rows@) =~= table_view(old_rows).push(string_views(row@)));
        assert(table_view(records@)[i as int] == string_views(rec@));
        assert(trimmed_table(table_view(records@))[i as int] =~= string_views(rec@).map_values(
            |c: Seq<char>| trim(c),
        ));
        i += 1;
    }
    assert(table_view(rows@) =~= trimmed_table(table_view(records@)));
    sheet_from_rows("CSV", rows, max_rows)
}

/// A sheet summary as plain values: name, header row, columns, sample rows.
pub open spec fn sheet_view(s: SpreadsheetSheet) -> (
    Seq<char>,
    int,
    Seq<(int, Seq<char>)>,
    Seq<Seq<Seq<char>>>,
) {
    (s.name@, s.header_row as int, columns_view(s.columns@), table_view(s.sample_rows@))
}

/// The summary of a sheet with the given rows.
pub open spec fn sheet_summary(name: Seq<char>, rows: Seq<Seq<Seq<char>>>, max_rows: nat) -> (
    Seq<char>,
    int,
    Seq<(int, Seq<char>)>,
    Seq<Seq<Seq<char>>>,
) {
    (
        name,
        header_index(rows) + 1,
        header_columns(header_cells(rows), header_cells(rows).len()),
        sample_rows_spec(rows, max_rows),
    )
}

/// Every cell of a table, trimmed.
pub open spec fn trimmed_table(t: Seq<Seq<Seq<char>>>) -> Seq<Seq<Seq<char>>> {
    t.map_values(|r: Seq<Seq<char>>| r.map_values(|c: Seq<char>| trim(c)))
}

/// The kinds of attachment the spreadsheet inspector reads.
#[derive(PartialEq, Eq, Structural)]
pub enum SpreadsheetKind {
    Csv,
    Xlsx,
}

/// Chooses the reader by the attachment's extension (ASCII case ignored);
/// other files are refused with the message shown to the assistant.
pub fn spreadsheet_kind(extension: &str) -> (r: Result<SpreadsheetKind, String>)
    ensures
        crate::text::lower_seq(extension@) == "csv"@ ==> r == Ok::<SpreadsheetKind, String>(
            SpreadsheetKind::Csv,
        ),
        crate::text::lower_seq(extension@) == "xlsx"@ ==> r == Ok::<SpreadsheetKind, String>(
            SpreadsheetKind::Xlsx,
        ),
        crate::text::lower_seq(extension@) != "csv"@ && crate::text::lower_seq(extension@)
            != "xlsx"@ ==> (r matches Err(m) && m@ == "目前仅支持检查 csv/xlsx 表格"@),
{
    proof {
        reveal_strlit("csv");
        reveal_strlit("xlsx");
    }
    let e = crate::text::chars_of(extension);
    let l = crate::text::lower_chars(&e);
    assert("xlsx"@ != "csv"@) by {
        assert("xlsx"@.len() != "csv"@.len());
    }
    if crate::text::chars_eq_str(&l, "csv") {
        Ok(SpreadsheetKind::Csv)
    } else if crate::text::chars_eq_str(&l, "xlsx") {
        Ok(SpreadsheetKind::Xlsx)
    } else {
        let m = crate::text::chars_of("目前仅支持检查 csv/xlsx 表格");
        Err(string_from_chars(m.as_slice()))
    }
}

/// The text of the attachment as its reader produced it.
pub enum SheetSource {
    /// The first `max_rows + 1` records of a CSV file, without header handling.
    Csv { records: Vec<Vec<String>> },
    /// `xl/worksheets/sheet1.xml`, and `xl/sharedStrings.xml` when the archive has it.
    Xlsx { sheet_xml: String, shared_strings_xml: Option<String> },
}

/// The shared-string table, empty when the archive has none.
pub open spec fn shared_table(x: Option<String>) -> Seq<Seq<char>> {
    match x {
        Some(t) => shared_strings_spec(t@),
        None => Seq::empty(),
    }
}

/// What the inspection of a spreadsheet attachment reports for its one sheet.
pub open spec fn inspection_sheet_spec(source: SheetSource, max_rows: nat) -> (
    Seq<char>,
    int,
    Seq<(int, Seq<char>)>,
    Seq<Seq<Seq<char>>>,
) {
    match source {
        SheetSource::Csv { records } => sheet_summary(
            "CSV"@,
            trimmed_table(table_view(records@)),
            max_rows,
        ),
        SheetSource::Xlsx { sheet_xml, shared_strings_xml } => sheet_summary(
            "Sheet1"@,
            sheet_rows_spec(sheet_xml@, shared_table(shared_strings_xml), max_rows + 1),
            max_rows,
        ),
    }
}

/// Summarises a CSV or XLSX attachment for the assistant: its id, name, the
/// lower-cased extension as file type, and the header and sample rows of its
/// first sheet.  Other extensions are refused.
pub fn inspect_spreadsheet_attachment(
    attachment_id: i64,
    original_name: &str,
    extension: &str,
    source: SheetSource,
    max_rows: usize,
) -> (r: Result<SpreadsheetInspection, String>)
    requires
        max_rows < usize::MAX,
        source matches SheetSource::Xlsx { sheet_xml, .. } ==> sheet_refs_fit(
            sheet_xml@,
            (max_rows + 1) as nat,
        ),
        crate::text::lower_seq(extension@) == "csv"@ ==> source is Csv,
        crate::text::lower_seq(extension@) == "xlsx"@ ==> source is Xlsx,
    ensures
        crate::text::lower_seq(extension@) != "csv"@ && crate::text::lower_seq(extension@)
            != "xlsx"@ ==> (r matches Err(m) && m@ == "目前仅支持检查 csv/xlsx 表格"@),
        (crate::text::lower_seq(extension@) == "csv"@ || crate::text::lower_seq(extension@)
            == "xlsx"@) ==> (r matches Ok(i) && i.attachment_id == attachment_id && i.file_name@
            == original_name@ && i.file_type@ == crate::text::lower_seq(extension@)
            && i.sheets.len() == 1 && sheet_view(i.sheets[0]) == inspection_sheet_spec(
            source,
            max_rows as nat,
        )),
{
    let kind = spreadsheet_kind(extension);
    let kind = match kind {
        Ok(k) => k,
        Err(m) => {
            return Err(m);
        },
    };
    let ghost src = source;
    let sheet = match source {
        SheetSource::Csv { records } => {
            if kind != SpreadsheetKind::Csv {
                // the caller reads an xlsx attachment as xlsx
                proof {
                    assert(false);
                }
            }
            sheet_from_csv_records(records, max_rows)
        },
        SheetSource::Xlsx { sheet_xml, shared_strings_xml } => {
            let shared = match shared_strings_xml {
                Some(t) => parse_shared_strings(t.as_str()),
                None => Vec::new(),
            };
            proof {
                assert(string_views(shared@) == shared_table(shared_strings_xml));
            }
            let rows = parse_xlsx_sheet_rows(sheet_xml.as_str(), shared.as_slice(), max_rows + 1);
            sheet_from_rows("Sheet1", rows, max_rows)
        },
    };
    let e = crate::text::chars_of(extension);
    let l = crate::text::lower_chars(&e);
    let mut sheets: Vec<SpreadsheetSheet> = Vec::new();
    sheets.push(sheet);
    Ok(
        SpreadsheetInspection {
            attachment_id,
            file_name: string_from_chars(crate::text::chars_of(original_name).as_slice()),
            file_type: string_from_chars(l.as_slice()),
            sheets,
        },
    )
}

} // verus!
