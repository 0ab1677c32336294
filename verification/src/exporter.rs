//! Invoice export: the catalog of exportable columns, the resolution of
//! column keys from user-facing labels, the selection of export columns, the
//! cell text of an invoice row and the query that loads the rows.  Writing
//! the CSV or XLSX file is the caller's part; it receives the header and the
//! records built here.
use vstd::prelude::*;

use crate::text::{
    chars_eq, chars_eq_str, chars_of, lower_chars, lower_seq, push_str, string_from_chars, trim,
    trim_str,
};
use crate::sql::{join, join_strings, values_view, SqlValue, SqlValueView};
use crate::xlsx::string_views;

verus! {

// ---------------------------------------------------------------------------
// The column table
// ---------------------------------------------------------------------------

/// One exportable column: its key, its label in the exported header, whether
/// its values are numbers, and other labels by which users name it.
pub struct ColumnDef {
    pub key: &'static str,
    pub label: &'static str,
    pub numeric: bool,
    pub aliases: Vec<&'static str>,
}

/// The mathematical content of a column definition.
#[verifier::ext_equal]
pub struct ColumnView {
    pub key: Seq<char>,
    pub label: Seq<char>,
    pub numeric: bool,
    pub aliases: Seq<Seq<char>>,
}

pub open spec fn str_views(s: Seq<&str>) -> Seq<Seq<char>> {
    s.map_values(|a: &str| a@)
}

impl View for ColumnDef {
    type V = ColumnView;

    open spec fn view(&self) -> ColumnView {
        ColumnView {
            key: self.key@,
            label: self.label@,
            numeric: self.numeric,
            aliases: str_views(self.aliases@),
        }
    }
}

pub open spec fn col(key: &str, label: &str, numeric: bool, aliases: Seq<&str>) -> ColumnView {
    ColumnView { key: key@, label: label@, numeric, aliases: str_views(aliases) }
}

/// The exportable columns, in export order.
pub open spec fn column_table() -> Seq<ColumnView> {
    seq![
        col("invoice_type", "发票类型", false, seq!["类型", "票种", "发票种类"]),
        col("invoice_code", "发票代码", false, seq!["发票编码", "代码"]),
        col("invoice_number", "发票号码", false, seq!["发票号", "号码"]),
        col("issue_date", "开票日期", false, seq!["日期", "时间", "发票日期"]),
        col("seller_name", "销售方", false, seq!["销方", "供应商", "商家", "公司名称"]),
        col("seller_tax_id", "销售方税号", false, seq!["销方税号", "供应商税号"]),
        col("buyer_name", "购买方", false, seq!["购方", "买方"]),
        col("buyer_tax_id", "购买方税号", false, seq!["购方税号", "买方税号"]),
        col("currency", "币种", false, seq!["货币"]),
        col("amount_without_tax", "不含税金额", true, seq!["未税金额", "金额不含税"]),
        col("tax_amount", "税额", true, seq!["税金"]),
        col("total_amount", "价税合计", true, seq!["总金额", "金额", "合计", "含税金额"]),
        col("category", "类别", false, seq!["分类", "类型", "费用类别"]),
        col("remarks", "备注", false, seq!["说明", "发票内容", "内容"]),
        col("source_page_range", "页码范围", false, seq!["页码"]),
        col("confidence", "置信度", true, seq!["识别置信度"]),
        col("status", "状态", false, seq!["识别状态"]),
        col("duplicate_status", "重复状态", false, seq!["是否重复"]),
        col("created_at", "创建时间", false, seq!["导入时间", "入库时间"]),
    ]
}

pub open spec fn column_views(v: Seq<ColumnDef>) -> Seq<ColumnView> {
    v.map_values(|c: ColumnDef| c@)
}

fn make_column(
    key: &'static str,
    label: &'static str,
    numeric: bool,
    aliases: Vec<&'static str>,
) -> (c: ColumnDef)
    ensures
        c@ == col(key, label, numeric, aliases@),
{
    ColumnDef { key, label, numeric, aliases }
}

/// All exportable columns, in export order.
pub fn all_columns() -> (r: Vec<ColumnDef>)
    ensures
        column_views(r@) == column_table(),
{
    let mut r: Vec<ColumnDef> = Vec::new();
    r.push(make_column("invoice_type", "发票类型", false, vec!["类型", "票种", "发票种类"]));
    r.push(make_column("invoice_code", "发票代码", false, vec!["发票编码", "代码"]));
    r.push(make_column("invoice_number", "发票号码", false, vec!["发票号", "号码"]));
    r.push(make_column("issue_date", "开票日期", false, vec!["日期", "时间", "发票日期"]));
    r.push(make_column("seller_name", "销售方", false, vec!["销方", "供应商", "商家", "公司名称"]));
    r.push(make_column("seller_tax_id", "销售方税号", false, vec!["销方税号", "供应商税号"]));
    r.push(make_column("buyer_name", "购买方", false, vec!["购方", "买方"]));
    r.push(make_column("buyer_tax_id", "购买方税号", false, vec!["购方税号", "买方税号"]));
    r.push(make_column("currency", "币种", false, vec!["货币"]));
    r.push(make_column("amount_without_tax", "不含税金额", true, vec!["未税金额", "金额不含税"]));
    r.push(make_column("tax_amount", "税额", true, vec!["税金"]));
    r.push(make_column("total_amount", "价税合计", true, vec!["总金额", "金额", "合计", "含税金额"]));
    r.push(make_column("category", "类别", false, vec!["分类", "类型", "费用类别"]));
    r.push(make_column("remarks", "备注", false, vec!["说明", "发票内容", "内容"]));
    r.push(make_column("source_page_range", "页码范围", false, vec!["页码"]));
    r.push(make_column("confidence", "置信度", true, vec!["识别置信度"]));
    r.push(make_column("status", "状态", false, vec!["识别状态"]));
    r.push(make_column("duplicate_status", "重复状态", false, vec!["是否重复"]));
    r.push(make_column("created_at", "创建时间", false, vec!["导入时间", "入库时间"]));
    assert(column_views(r@) =~~= column_table());
    r
}


/// The column at index `i` of the table.
pub fn column_def(i: usize) -> (c: ColumnDef)
    requires
        i < column_table().len(),
    ensures
        c@ == column_table()[i as int],
{
    let mut all = all_columns();
    assert(column_views(all@)[i as int] == all@[i as int]@);
    all.swap_remove(i)
}

// ---------------------------------------------------------------------------
// Matching labels to columns
// ---------------------------------------------------------------------------

/// A (trimmed, non-empty) label names a column when it equals the column's
/// key up to ASCII case, its label, or one of its aliases.
pub open spec fn column_matches(c: ColumnView, s: Seq<char>) -> bool {
    lower_seq(c.key) == lower_seq(s) || c.label == s || c.aliases.contains(s)
}

/// The first column at or after `i` that `s` names.
pub open spec fn first_match_from(s: Seq<char>, i: int) -> Option<int>
    decreases column_table().len() - i,
{
    if i < 0 || i >= column_table().len() {
        None
    } else if column_matches(column_table()[i], s) {
        Some(i)
    } else {
        first_match_from(s, i + 1)
    }
}

pub open spec fn first_match(s: Seq<char>) -> Option<int> {
    first_match_from(s, 0)
}

pub proof fn lemma_first_match_from(s: Seq<char>, i: int)
    requires
        0 <= i,
    ensures
        first_match_from(s, i) matches Some(j) ==> i <= j < column_table().len() && column_matches(
            column_table()[j],
            s,
        ),
    decreases column_table().len() - i,
{
    if i < column_table().len() && !column_matches(column_table()[i], s) {
        lemma_first_match_from(s, i + 1);
    }
}

/// The first column whose key is exactly `k`.
pub open spec fn key_index_from(k: Seq<char>, i: int) -> Option<int>
    decreases column_table().len() - i,
{
    if i < 0 || i >= column_table().len() {
        None
    } else if column_table()[i].key == k {
        Some(i)
    } else {
        key_index_from(k, i + 1)
    }
}

pub open spec fn key_index(k: Seq<char>) -> Option<int> {
    key_index_from(k, 0)
}

pub proof fn lemma_key_index_from(k: Seq<char>, i: int)
    requires
        0 <= i,
    ensures
        key_index_from(k, i) matches Some(j) ==> i <= j < column_table().len()
            && column_table()[j].key == k,
    decreases column_table().len() - i,
{
    if i < column_table().len() && column_table()[i].key != k {
        lemma_key_index_from(k, i + 1);
    }
}

fn str_in(list: &Vec<&'static str>, s: &Vec<char>) -> (b: bool)
    ensures
        b == str_views(list@).contains(s@),
{
    let mut i: usize = 0;
    while i < list.len()
        invariant
            i <= list.len(),
            forall|j: int| 0 <= j < i ==> list@[j]@ != s@,
        decreases list.len() - i,
    {
        if chars_eq_str(s, list[i]) {
            assert(str_views(list@)[i as int] == s@);
            return true;
        }
        i += 1;
    }
    proof {
        if str_views(list@).contains(s@) {
            let j = choose|j: int| 0 <= j < str_views(list@).len() && str_views(list@)[j] == s@;
            assert(list@[j]@ == s@);
        }
    }
    false
}

fn matches_column(c: &ColumnDef, s: &Vec<char>, s_lower: &Vec<char>) -> (b: bool)
    requires
        s_lower@ == lower_seq(s@),
    ensures
        b == column_matches(c@, s@),
{
    let key = chars_of(c.key);
    let key_lower = lower_chars(&key);
    chars_eq(&key_lower, s_lower) || chars_eq_str(s, c.label) || str_in(&c.aliases, s)
}

/// The index of the first column that `s` names.
fn find_column(columns: &Vec<ColumnDef>, s: &Vec<char>) -> (r: Option<usize>)
    requires
        column_views(columns@) == column_table(),
    ensures
        match r {
            Some(i) => first_match(s@) == Some(i as int),
            None => first_match(s@) is None,
        },
{
    let s_lower = lower_chars(s);
    let mut i: usize = 0;
    while i < columns.len()
        invariant
            i <= columns.len(),
            columns.len() == column_table().len(),
            column_views(columns@) == column_table(),
            s_lower@ == lower_seq(s@),
            first_match(s@) == first_match_from(s@, i as int),
        decreases columns.len() - i,
    {
        assert(column_views(columns@)[i as int] == columns@[i as int]@);
        if matches_column(&columns[i], s, &s_lower) {
            return Some(i);
        }
        i += 1;
    }
    None
}

/// The index of the column whose key is exactly `k`.
fn find_key(columns: &Vec<ColumnDef>, k: &str) -> (r: Option<usize>)
    requires
        column_views(columns@) == column_table(),
    ensures
        match r {
            Some(i) => key_index(k@) == Some(i as int),
            None => key_index(k@) is None,
        },
{
    let kc = chars_of(k);
    let mut i: usize = 0;
    while i < columns.len()
        invariant
            i <= columns.len(),
            columns.len() == column_table().len(),
            column_views(columns@) == column_table(),
            kc@ == k@,
            key_index(k@) == key_index_from(k@, i as int),
        decreases columns.len() - i,
    {
        assert(column_views(columns@)[i as int] == columns@[i as int]@);
        if chars_eq_str(&kc, columns[i].key) {
            return Some(i);
        }
        i += 1;
    }
    None
}

fn contains_string(v: &Vec<String>, s: &str) -> (b: bool)
    ensures
        b == string_views(v@).contains(s@),
{
    let sc = chars_of(s);
    let mut i: usize = 0;
    while i < v.len()
        invariant
            i <= v.len(),
            sc@ == s@,
            forall|j: int| 0 <= j < i ==> v@[j]@ != s@,
        decreases v.len() - i,
    {
        if chars_eq_str(&sc, v[i].as_str()) {
            assert(string_views(v@)[i as int] == s@);
            return true;
        }
        i += 1;
    }
    proof {
        if string_views(v@).contains(s@) {
            let j = choose|j: int| 0 <= j < string_views(v@).len() && string_views(v@)[j] == s@;
            assert(v@[j]@ == s@);
        }
    }
    false
}

// ---------------------------------------------------------------------------
// The catalog and the resolution of labels
// ---------------------------------------------------------------------------

/// A column as the catalog describes it.
pub struct ExportColumnInfo {
    pub key: String,
    pub label: String,
    pub aliases: Vec<String>,
    pub data_type: String,
    pub exportable: bool,
}

pub open spec fn data_type_spec(numeric: bool) -> Seq<char> {
    if numeric {
        "number"@
    } else {
        "string"@
    }
}

pub open spec fn describes(info: ExportColumnInfo, c: ColumnView) -> bool {
    &&& info.key@ == c.key
    &&& info.label@ == c.label
    &&& string_views(info.aliases@) == c.aliases
    &&& info.data_type@ == data_type_spec(c.numeric)
    &&& info.exportable
}

fn aliases_owned(aliases: &Vec<&'static str>) -> (r: Vec<String>)
    ensures
        string_views(r@) == str_views(aliases@),
{
    let mut r: Vec<String> = Vec::new();
    let mut i: usize = 0;
    while i < aliases.len()
        invariant
            i <= aliases.len(),
            string_views(r@) =~= str_views(aliases@).take(i as int),
        decreases aliases.len() - i,
    {
        let a: &str = aliases[i];
        let o: String = a.to_owned();
        let ghost before = r@;
        r.push(o);
        assert(string_views(r@) =~= string_views(before).push(a@));
        assert(str_views(aliases@).take(i as int + 1) =~= str_views(aliases@).take(i as int).push(a@));
        i += 1;
    }
    assert(str_views(aliases@).take(aliases.len() as int) =~= str_views(aliases@));
    r
}

/// The catalog of exportable columns offered to users and to the assistant:
/// every column of the table, in order, with its label, aliases and type.
pub fn export_column_catalog() -> (r: Vec<ExportColumnInfo>)
    ensures
        r.len() == column_table().len(),
        forall|i: int| 0 <= i < r.len() ==> describes(#[trigger] r@[i], column_table()[i]),
{
    let columns = all_columns();
    let mut r: Vec<ExportColumnInfo> = Vec::new();
    let mut i: usize = 0;
    while i < columns.len()
        invariant
            i <= columns.len(),
            r.len() == i,
            column_views(columns@) == column_table(),
            columns.len() == column_table().len(),
            forall|j: int| 0 <= j < i ==> describes(#[trigger] r@[j], column_table()[j]),
        decreases columns.len() - i,
    {
        let c = &columns[i];
        assert(column_views(columns@)[i as int] == c@);
        let data_type = if c.numeric {
            "number".to_owned()
        } else {
            "string".to_owned()
        };
        r.push(
            ExportColumnInfo {
                key: c.key.to_owned(),
                label: c.label.to_owned(),
                aliases: aliases_owned(&c.aliases),
                data_type,
                exportable: true,
            },
        );
        i += 1;
    }
    r
}

/// The keys named by a list of labels: each label is trimmed, blank labels
/// are skipped, a label that names no column is skipped, and a key is listed
/// once, where it is first named.
pub open spec fn resolved_keys(labels: Seq<Seq<char>>) -> Seq<Seq<char>>
    decreases labels.len(),
{
    if labels.len() == 0 {
        Seq::empty()
    } else {
        let prev = resolved_keys(labels.drop_last());
        let t = trim(labels.last());
        if t.len() == 0 {
            prev
        } else {
            match first_match(t) {
                Some(i) => if prev.contains(column_table()[i].key) {
                    prev
                } else {
                    prev.push(column_table()[i].key)
                },
                None => prev,
            }
        }
    }
}

/// Resolves user-facing labels (keys in any ASCII case, header labels or
/// aliases) to column keys.
pub fn resolve_export_column_keys_from_labels(labels: &[String]) -> (r: Vec<String>)
    ensures
        string_views(r@) == resolved_keys(string_views(labels@)),
{
    let columns = all_columns();
    let mut keys: Vec<String> = Vec::new();
    let mut n: usize = 0;
    while n < labels.len()
        invariant
            n <= labels.len(),
            column_views(columns@) == column_table(),
            string_views(keys@) == resolved_keys(string_views(labels@).take(n as int)),
        decreases labels.len() - n,
    {
        let ghost ls = string_views(labels@).take(n as int + 1);
        assert(ls.drop_last() =~= string_views(labels@).take(n as int));
        assert(ls.last() == labels@[n as int]@);
        let t = trim_str(labels[n].as_str());
        if t.len() > 0 {
            match find_column(&columns, &t) {
                Some(i) => {
                    proof {
                        lemma_first_match_from(t@, 0);
                    }
                    assert(column_views(columns@)[i as int] == columns@[i as int]@);
                    let key = columns[i].key;
                    if !contains_string(&keys, key) {
                        let ghost before = keys@;
                        keys.push(key.to_owned());
                        assert(string_views(keys@) =~= string_views(before).push(key@));
                    }
                },
                None => {},
            }
        }
        n += 1;
    }
    assert(string_views(labels@).take(labels.len() as int) =~= string_views(labels@));
    keys
}

/// The (label position, key) pairs of the labels that name a column, each
/// key with the first position that names it.
pub open spec fn matched_pairs(labels: Seq<Seq<char>>) -> Seq<(int, Seq<char>)>
    decreases labels.len(),
{
    if labels.len() == 0 {
        Seq::empty()
    } else {
        let prev = matched_pairs(labels.drop_last());
        let t = trim(labels.last());
        if t.len() == 0 {
            prev
        } else {
            match first_match(t) {
                Some(i) => if pair_keys(prev).contains(column_table()[i].key) {
                    prev
                } else {
                    prev.push((labels.len() - 1, column_table()[i].key))
                },
                None => prev,
            }
        }
    }
}

pub open spec fn pair_keys(p: Seq<(int, Seq<char>)>) -> Seq<Seq<char>> {
    p.map_values(|x: (int, Seq<char>)| x.1)
}

pub open spec fn pairs_view(p: Seq<(usize, String)>) -> Seq<(int, Seq<char>)> {
    p.map_values(|x: (usize, String)| (x.0 as int, x.1@))
}

/// The label matcher of the template engine: for each header label that
/// names a column, its position and the column's key.
pub fn label_matcher(labels: &[String]) -> (r: Vec<(usize, String)>)
    ensures
        pairs_view(r@) == matched_pairs(string_views(labels@)),
{
    let columns = all_columns();
    let mut pairs: Vec<(usize, String)> = Vec::new();
    let mut keys: Vec<String> = Vec::new();
    let mut n: usize = 0;
    while n < labels.len()
        invariant
            n <= labels.len(),
            column_views(columns@) == column_table(),
            pairs_view(pairs@) == matched_pairs(string_views(labels@).take(n as int)),
            string_views(keys@) == pair_keys(pairs_view(pairs@)),
        decreases labels.len() - n,
    {
        let ghost ls = string_views(labels@).take(n as int + 1);
        assert(ls.drop_last() =~= string_views(labels@).take(n as int));
        assert(ls.last() == labels@[n as int]@);
        let t = trim_str(labels[n].as_str());
        if t.len() > 0 {
            match find_column(&columns, &t) {
                Some(i) => {
                    proof {
                        lemma_first_match_from(t@, 0);
                    }
                    assert(column_views(columns@)[i as int] == columns@[i as int]@);
                    let key = columns[i].key;
                    if !contains_string(&keys, key) {
                        let ghost before = pairs@;
                        let ghost kbefore = keys@;
                        pairs.push((n, key.to_owned()));
                        keys.push(key.to_owned());
                        assert(pairs_view(pairs@) =~= pairs_view(before).push((n as int, key@)));
                        assert(string_views(keys@) =~= string_views(kbefore).push(key@));
                        assert(pair_keys(pairs_view(pairs@)) =~= pair_keys(pairs_view(before)).push(
                            key@,
                        ));
                    }
                },
                None => {},
            }
        }
        n += 1;
    }
    assert(string_views(labels@).take(labels.len() as int) =~= string_views(labels@));
    pairs
}

/// The label matcher and the resolution of labels agree: the keys that the
/// matcher pairs with positions are exactly the resolved keys, in order.
pub proof fn law_matcher_keys_are_resolved_keys(labels: Seq<Seq<char>>)
    ensures
        pair_keys(matched_pairs(labels)) == resolved_keys(labels),
    decreases labels.len(),
{
    if labels.len() > 0 {
        law_matcher_keys_are_resolved_keys(labels.drop_last());
        let prev = matched_pairs(labels.drop_last());
        let t = trim(labels.last());
        if t.len() > 0 {
            match first_match(t) {
                Some(i) => {
                    if !pair_keys(prev).contains(column_table()[i].key) {
                        assert(pair_keys(prev.push((labels.len() - 1, column_table()[i].key)))
                            =~= pair_keys(prev).push(column_table()[i].key));
                    }
                },
                None => {},
            }
        }
    }
}

/// The resolved keys are keys of the table, each listed once.
pub proof fn law_resolved_keys_distinct(labels: Seq<Seq<char>>)
    ensures
        resolved_keys(labels).no_duplicates(),
        forall|k: int|
            0 <= k < resolved_keys(labels).len() ==> #[trigger] key_index(resolved_keys(labels)[k])
                is Some,
    decreases labels.len(),
{
    if labels.len() > 0 {
        law_resolved_keys_distinct(labels.drop_last());
        let prev = resolved_keys(labels.drop_last());
        let t = trim(labels.last());
        if t.len() > 0 {
            match first_match(t) {
                Some(i) => {
                    lemma_first_match_from(t, 0);
                    lemma_key_is_found(i);
                    if !prev.contains(column_table()[i].key) {
                        let r = prev.push(column_table()[i].key);
                        assert forall|a: int, b: int|
                            0 <= a < r.len() && 0 <= b < r.len() && a != b implies r[a] != r[b] by {
                            if a < prev.len() && b < prev.len() {
                            } else if a == prev.len() {
                                assert(prev[b] == r[b]);
                            } else {
                                assert(prev[a] == r[a]);
                            }
                        }
                        assert forall|k: int| 0 <= k < r.len() implies #[trigger] key_index(r[k]) is Some by {
                            if k < prev.len() {
                                assert(r[k] == prev[k]);
                            }
                        }
                    }
                },
                None => {},
            }
        }
    }
}

/// Every key of the table is found by its exact text.
pub proof fn lemma_key_is_found(i: int)
    requires
        0 <= i < column_table().len(),
    ensures
        key_index(column_table()[i].key) is Some,
{
    lemma_key_index_reaches(column_table()[i].key, 0, i);
}

proof fn lemma_key_index_reaches(k: Seq<char>, from: int, i: int)
    requires
        0 <= from <= i < column_table().len(),
        column_table()[i].key == k,
    ensures
        key_index_from(k, from) is Some,
    decreases i - from,
{
    if from < i && column_table()[from].key != k {
        lemma_key_index_reaches(k, from + 1, i);
    }
}


// ---------------------------------------------------------------------------
// Selecting columns
// ---------------------------------------------------------------------------

pub open spec fn defs_view(v: Seq<(usize, ColumnDef)>) -> Seq<(int, ColumnView)> {
    v.map_values(|x: (usize, ColumnDef)| (x.0 as int, x.1@))
}

/// The columns of matched (position, key) pairs; a key of no column is
/// dropped.
pub open spec fn column_defs_spec(keys: Seq<(int, Seq<char>)>) -> Seq<(int, ColumnView)>
    decreases keys.len(),
{
    if keys.len() == 0 {
        Seq::empty()
    } else {
        let prev = column_defs_spec(keys.drop_last());
        match key_index(keys.last().1) {
            Some(i) => prev.push((keys.last().0, column_table()[i])),
            None => prev,
        }
    }
}

/// Resolves matched column keys into (position, column) pairs.
pub fn resolve_column_defs(keys: &[(usize, String)]) -> (r: Vec<(usize, ColumnDef)>)
    ensures
        defs_view(r@) == column_defs_spec(pairs_view(keys@)),
{
    let columns = all_columns();
    let mut r: Vec<(usize, ColumnDef)> = Vec::new();
    let mut n: usize = 0;
    while n < keys.len()
        invariant
            n <= keys.len(),
            column_views(columns@) == column_table(),
            defs_view(r@) == column_defs_spec(pairs_view(keys@).take(n as int)),
        decreases keys.len() - n,
    {
        let ghost ks = pairs_view(keys@).take(n as int + 1);
        assert(ks.drop_last() =~= pairs_view(keys@).take(n as int));
        assert(ks.last() == (keys@[n as int].0 as int, keys@[n as int].1@));
        let (idx, key) = &keys[n];
        match find_key(&columns, key.as_str()) {
            Some(i) => {
                proof {
                    lemma_key_index_from(key@, 0);
                }
                let c = column_def(i);
                let ghost before = r@;
                r.push((*idx, c));
                assert(defs_view(r@) =~= defs_view(before).push((*idx as int, column_table()[i as int])));
            },
            None => {},
        }
        n += 1;
    }
    assert(pairs_view(keys@).take(keys.len() as int) =~= pairs_view(keys@));
    r
}

/// The columns named by exact keys, in the order requested; unknown keys are
/// dropped.
pub open spec fn selected_columns(req: Seq<Seq<char>>) -> Seq<ColumnView>
    decreases req.len(),
{
    if req.len() == 0 {
        Seq::empty()
    } else {
        let prev = selected_columns(req.drop_last());
        match key_index(req.last()) {
            Some(i) => prev.push(column_table()[i]),
            None => prev,
        }
    }
}

/// The export columns: the requested ones, or all columns when none was
/// requested or none of the requested keys is known.
pub open spec fn resolve_columns_spec(req: Option<Seq<Seq<char>>>) -> Seq<ColumnView> {
    match req {
        Some(r) => if selected_columns(r).len() == 0 {
            column_table()
        } else {
            selected_columns(r)
        },
        None => column_table(),
    }
}

pub fn resolve_columns(requested: Option<&[String]>) -> (r: Vec<ColumnDef>)
    ensures
        column_views(r@) == resolve_columns_spec(
            match requested {
                Some(v) => Some(string_views(v@)),
                None => None,
            },
        ),
{
    match requested {
        Some(cols) => {
            let columns = all_columns();
            let mut selected: Vec<ColumnDef> = Vec::new();
            let mut n: usize = 0;
            while n < cols.len()
                invariant
                    n <= cols.len(),
                    column_views(columns@) == column_table(),
                    column_views(selected@) == selected_columns(string_views(cols@).take(n as int)),
                decreases cols.len() - n,
            {
                let ghost ks = string_views(cols@).take(n as int + 1);
                assert(ks.drop_last() =~= string_views(cols@).take(n as int));
                assert(ks.last() == cols@[n as int]@);
                match find_key(&columns, cols[n].as_str()) {
                    Some(i) => {
                        proof {
                            lemma_key_index_from(cols@[n as int]@, 0);
                        }
                        let c = column_def(i);
                        let ghost before = selected@;
                        selected.push(c);
                        assert(column_views(selected@) =~= column_views(before).push(
                            column_table()[i as int],
                        ));
                    },
                    None => {},
                }
                n += 1;
            }
            assert(string_views(cols@).take(cols.len() as int) =~= string_views(cols@));
            if selected.len() == 0 {
                all_columns()
            } else {
                selected
            }
        },
        None => all_columns(),
    }
}

/// An export always has at least one column.
pub proof fn law_export_has_columns(req: Option<Seq<Seq<char>>>)
    ensures
        resolve_columns_spec(req).len() > 0,
{
}

// ---------------------------------------------------------------------------
// Invoice rows and their cells
// ---------------------------------------------------------------------------

/// An invoice as it is exported.  `confidence` is the recognition confidence
/// as text with two decimals.
pub struct InvoiceRow {
    pub invoice_type: Option<String>,
    pub invoice_code: Option<String>,
    pub invoice_number: Option<String>,
    pub issue_date: Option<String>,
    pub seller_name: Option<String>,
    pub seller_tax_id: Option<String>,
    pub buyer_name: Option<String>,
    pub buyer_tax_id: Option<String>,
    pub currency: String,
    pub amount_without_tax: Option<String>,
    pub tax_amount: Option<String>,
    pub total_amount: Option<String>,
    pub category: Option<String>,
    pub remarks: Option<String>,
    pub source_page_range: Option<String>,
    pub confidence: Option<String>,
    pub status: String,
    pub duplicate_status: String,
    pub created_at: String,
}

/// The text of an optional field: empty when absent.
pub open spec fn opt_text(o: Option<String>) -> Seq<char> {
    match o {
        Some(s) => s@,
        None => Seq::empty(),
    }
}

fn opt_string(o: &Option<String>) -> (r: String)
    ensures
        r@ == opt_text(*o),
{
    match o {
        Some(s) => s.clone(),
        None => String::new(),
    }
}

/// The cell text of a row under a column key; unknown keys give empty text.
pub open spec fn field_spec(row: InvoiceRow, key: Seq<char>) -> Seq<char> {
    if key == "invoice_type"@ {
        opt_text(row.invoice_type)
    } else if key == "invoice_code"@ {
        opt_text(row.invoice_code)
    } else if key == "invoice_number"@ {
        opt_text(row.invoice_number)
    } else if key == "issue_date"@ {
        opt_text(row.issue_date)
    } else if key == "seller_name"@ {
        opt_text(row.seller_name)
    } else if key == "seller_tax_id"@ {
        opt_text(row.seller_tax_id)
    } else if key == "buyer_name"@ {
        opt_text(row.buyer_name)
    } else if key == "buyer_tax_id"@ {
        opt_text(row.buyer_tax_id)
    } else if key == "currency"@ {
        row.currency@
    } else if key == "amount_without_tax"@ {
        opt_text(row.amount_without_tax)
    } else if key == "tax_amount"@ {
        opt_text(row.tax_amount)
    } else if key == "total_amount"@ {
        opt_text(row.total_amount)
    } else if key == "category"@ {
        opt_text(row.category)
    } else if key == "remarks"@ {
        opt_text(row.remarks)
    } else if key == "source_page_range"@ {
        opt_text(row.source_page_range)
    } else if key == "confidence"@ {
        opt_text(row.confidence)
    } else if key == "status"@ {
        row.status@
    } else if key == "duplicate_status"@ {
        row.duplicate_status@
    } else if key == "created_at"@ {
        row.created_at@
    } else {
        Seq::empty()
    }
}

/// Each column shows its own field of the row, and no other: the cell under
/// a field's key is that field's text (empty when it is absent), so two rows
/// that agree on a field agree on its cell whatever their other fields.
pub proof fn law_cells_show_their_own_field(row: InvoiceRow)
    ensures
        field_spec(row, "invoice_type"@) == opt_text(row.invoice_type),
        field_spec(row, "invoice_code"@) == opt_text(row.invoice_code),
        field_spec(row, "invoice_number"@) == opt_text(row.invoice_number),
        field_spec(row, "issue_date"@) == opt_text(row.issue_date),
        field_spec(row, "seller_name"@) == opt_text(row.seller_name),
        field_spec(row, "seller_tax_id"@) == opt_text(row.seller_tax_id),
        field_spec(row, "buyer_name"@) == opt_text(row.buyer_name),
        field_spec(row, "buyer_tax_id"@) == opt_text(row.buyer_tax_id),
        field_spec(row, "currency"@) == row.currency@,
        field_spec(row, "amount_without_tax"@) == opt_text(row.amount_without_tax),
        field_spec(row, "tax_amount"@) == opt_text(row.tax_amount),
        field_spec(row, "total_amount"@) == opt_text(row.total_amount),
        field_spec(row, "category"@) == opt_text(row.category),
        field_spec(row, "remarks"@) == opt_text(row.remarks),
        field_spec(row, "source_page_range"@) == opt_text(row.source_page_range),
        field_spec(row, "confidence"@) == opt_text(row.confidence),
        field_spec(row, "status"@) == row.status@,
        field_spec(row, "duplicate_status"@) == row.duplicate_status@,
        field_spec(row, "created_at"@) == row.created_at@,
{
    reveal_strlit("invoice_type");
    reveal_strlit("invoice_code");
    reveal_strlit("invoice_number");
    reveal_strlit("issue_date");
    reveal_strlit("seller_name");
    reveal_strlit("seller_tax_id");
    reveal_strlit("buyer_name");
    reveal_strlit("buyer_tax_id");
    reveal_strlit("currency");
    reveal_strlit("amount_without_tax");
    reveal_strlit("tax_amount");
    reveal_strlit("total_amount");
    reveal_strlit("category");
    reveal_strlit("remarks");
    reveal_strlit("source_page_range");
    reveal_strlit("confidence");
    reveal_strlit("status");
    reveal_strlit("duplicate_status");
    reveal_strlit("created_at");
    assert("invoice_code"@[8] != "invoice_type"@[8]);
    assert("invoice_number"@.len() != "invoice_type"@.len());
    assert("invoice_number"@.len() != "invoice_code"@.len());
    assert("issue_date"@.len() != "invoice_type"@.len());
    assert("issue_date"@.len() != "invoice_code"@.len());
    assert("issue_date"@.len() != "invoice_number"@.len());
    assert("seller_name"@.len() != "invoice_type"@.len());
    assert("seller_name"@.len() != "invoice_code"@.len());
    assert("seller_name"@.len() != "invoice_number"@.len());
    assert("seller_name"@.len() != "issue_date"@.len());
    assert("seller_tax_id"@.len() != "invoice_type"@.len());
    assert("seller_tax_id"@.len() != "invoice_code"@.len());
    assert("seller_tax_id"@.len() != "invoice_number"@.len());
    assert("seller_tax_id"@.len() != "issue_date"@.len());
    assert("seller_tax_id"@.len() != "seller_name"@.len());
    assert("buyer_name"@.len() != "invoice_type"@.len());
    assert("buyer_name"@.len() != "invoice_code"@.len());
    assert("buyer_name"@.len() != "invoice_number"@.len());
    assert("buyer_name"@[0] != "issue_date"@[0]);
    assert("buyer_name"@.len() != "seller_name"@.len());
    assert("buyer_name"@.len() != "seller_tax_id"@.len());
    assert("buyer_tax_id"@[0] != "invoice_type"@[0]);
    assert("buyer_tax_id"@[0] != "invoice_code"@[0]);
    assert("buyer_tax_id"@.len() != "invoice_number"@.len());
    assert("buyer_tax_id"@.len() != "issue_date"@.len());
    assert("buyer_tax_id"@.len() != "seller_name"@.len());
    assert("buyer_tax_id"@.len() != "seller_tax_id"@.len());
    assert("buyer_tax_id"@.len() != "buyer_name"@.len());
    assert("currency"@.len() != "invoice_type"@.len());
    assert("currency"@.len() != "invoice_code"@.len());
    assert("currency"@.len() != "invoice_number"@.len());
    assert("currency"@.len() != "issue_date"@.len());
    assert("currency"@.len() != "seller_name"@.len());
    assert("currency"@.len() != "seller_tax_id"@.len());
    assert("currency"@.len() != "buyer_name"@.len());
    assert("currency"@.len() != "buyer_tax_id"@.len());
    assert("amount_without_tax"@.len() != "invoice_type"@.len());
    assert("amount_without_tax"@.len() != "invoice_code"@.len());
    assert("amount_without_tax"@.len() != "invoice_number"@.len());
    assert("amount_without_tax"@.len() != "issue_date"@.len());
    assert("amount_without_tax"@.len() != "seller_name"@.len());
    assert("amount_without_tax"@.len() != "seller_tax_id"@.len());
    assert("amount_without_tax"@.len() != "buyer_name"@.len());
    assert("amount_without_tax"@.len() != "buyer_tax_id"@.len());
    assert("amount_without_tax"@.len() != "currency"@.len());
    assert("tax_amount"@.len() != "invoice_type"@.len());
    assert("tax_amount"@.len() != "invoice_code"@.len());
    assert("tax_amount"@.len() != "invoice_number"@.len());
    assert("tax_amount"@[0] != "issue_date"@[0]);
    assert("tax_amount"@.len() != "seller_name"@.len());
    assert("tax_amount"@.len() != "seller_tax_id"@.len());
    assert("tax_amount"@[0] != "buyer_name"@[0]);
    assert("tax_amount"@.len() != "buyer_tax_id"@.len());
    assert("tax_amount"@.len() != "currency"@.len());
    assert("tax_amount"@.len() != "amount_without_tax"@.len());
    assert("total_amount"@[0] != "invoice_type"@[0]);
    assert("total_amount"@[0] != "invoice_code"@[0]);
    assert("total_amount"@.len() != "invoice_number"@.len());
    assert("total_amount"@.len() != "issue_date"@.len());
    assert("total_amount"@.len() != "seller_name"@.len());
    assert("total_amount"@.len() != "seller_tax_id"@.len());
    assert("total_amount"@.len() != "buyer_name"@.len());
    assert("total_amount"@[0] != "buyer_tax_id"@[0]);
    assert("total_amount"@.len() != "currency"@.len());
    assert("total_amount"@.len() != "amount_without_tax"@.len());
    assert("total_amount"@.len() != "tax_amount"@.len());
    assert("category"@.len() != "invoice_type"@.len());
    assert("category"@.len() != "invoice_code"@.len());
    assert("category"@.len() != "invoice_number"@.len());
    assert("category"@.len() != "issue_date"@.len());
    assert("category"@.len() != "seller_name"@.len());
    assert("category"@.len() != "seller_tax_id"@.len());
    assert("category"@.len() != "buyer_name"@.len());
    assert("category"@.len() != "buyer_tax_id"@.len());
    assert("category"@[1] != "currency"@[1]);
    assert("category"@.len() != "amount_without_tax"@.len());
    assert("category"@.len() != "tax_amount"@.len());
    assert("category"@.len() != "total_amount"@.len());
    assert("remarks"@.len() != "invoice_type"@.len());
    assert("remarks"@.len() != "invoice_code"@.len());
    assert("remarks"@.len() != "invoice_number"@.len());
    assert("remarks"@.len() != "issue_date"@.len());
    assert("remarks"@.len() != "seller_name"@.len());
    assert("remarks"@.len() != "seller_tax_id"@.len());
    assert("remarks"@.len() != "buyer_name"@.len());
    assert("remarks"@.len() != "buyer_tax_id"@.len());
    assert("remarks"@.len() != "currency"@.len());
    assert("remarks"@.len() != "amount_without_tax"@.len());
    assert("remarks"@.len() != "tax_amount"@.len());
    assert("remarks"@.len() != "total_amount"@.len());
    assert("remarks"@.len() != "category"@.len());
    assert("source_page_range"@.len() != "invoice_type"@.len());
    assert("source_page_range"@.len() != "invoice_code"@.len());
    assert("source_page_range"@.len() != "invoice_number"@.len());
    assert("source_page_range"@.len() != "issue_date"@.len());
    assert("source_page_range"@.len() != "seller_name"@.len());
    assert("source_page_range"@.len() != "seller_tax_id"@.len());
    assert("source_page_range"@.len() != "buyer_name"@.len());
    assert("source_page_range"@.len() != "buyer_tax_id"@.len());
    assert("source_page_range"@.len() != "currency"@.len());
    assert("source_page_range"@.len() != "amount_without_tax"@.len());
    assert("source_page_range"@.len() != "tax_amount"@.len());
    assert("source_page_range"@.len() != "total_amount"@.len());
    assert("source_page_range"@.len() != "category"@.len());
    assert("source_page_range"@.len() != "remarks"@.len());
    assert("confidence"@.len() != "invoice_type"@.len());
    assert("confidence"@.len() != "invoice_code"@.len());
    assert("confidence"@.len() != "invoice_number"@.len());
    assert("confidence"@[0] != "issue_date"@[0]);
    assert("confidence"@.len() != "seller_name"@.len());
    assert("confidence"@.len() != "seller_tax_id"@.len());
    assert("confidence"@[0] != "buyer_name"@[0]);
    assert("confidence"@.len() != "buyer_tax_id"@.len());
    assert("confidence"@.len() != "currency"@.len());
    assert("confidence"@.len() != "amount_without_tax"@.len());
    assert("confidence"@[0] != "tax_amount"@[0]);
    assert("confidence"@.len() != "total_amount"@.len());
    assert("confidence"@.len() != "category"@.len());
    assert("confidence"@.len() != "remarks"@.len());
    assert("confidence"@.len() != "source_page_range"@.len());
    assert("status"@.len() != "invoice_type"@.len());
    assert("status"@.len() != "invoice_code"@.len());
    assert("status"@.len() != "invoice_number"@.len());
    assert("status"@.len() != "issue_date"@.len());
    assert("status"@.len() != "seller_name"@.len());
    assert("status"@.len() != "seller_tax_id"@.len());
    assert("status"@.len() != "buyer_name"@.len());
    assert("status"@.len() != "buyer_tax_id"@.len());
    assert("status"@.len() != "currency"@.len());
    assert("status"@.len() != "amount_without_tax"@.len());
    assert("status"@.len() != "tax_amount"@.len());
    assert("status"@.len() != "total_amount"@.len());
    assert("status"@.len() != "category"@.len());
    assert("status"@.len() != "remarks"@.len());
    assert("status"@.len() != "source_page_range"@.len());
    assert("status"@.len() != "confidence"@.len());
    assert("duplicate_status"@.len() != "invoice_type"@.len());
    assert("duplicate_status"@.len() != "invoice_code"@.len());
    assert("duplicate_status"@.len() != "invoice_number"@.len());
    assert("duplicate_status"@.len() != "issue_date"@.len());
    assert("duplicate_status"@.len() != "seller_name"@.len());
    assert("duplicate_status"@.len() != "seller_tax_id"@.len());
    assert("duplicate_status"@.len() != "buyer_name"@.len());
    assert("duplicate_status"@.len() != "buyer_tax_id"@.len());
    assert("duplicate_status"@.len() != "currency"@.len());
    assert("duplicate_status"@.len() != "amount_without_tax"@.len());
    assert("duplicate_status"@.len() != "tax_amount"@.len());
    assert("duplicate_status"@.len() != "total_amount"@.len());
    assert("duplicate_status"@.len() != "category"@.len());
    assert("duplicate_status"@.len() != "remarks"@.len());
    assert("duplicate_status"@.len() != "source_page_range"@.len());
    assert("duplicate_status"@.len() != "confidence"@.len());
    assert("duplicate_status"@.len() != "status"@.len());
    assert("created_at"@.len() != "invoice_type"@.len());
    assert("created_at"@.len() != "invoice_code"@.len());
    assert("created_at"@.len() != "invoice_number"@.len());
    assert("created_at"@[0] != "issue_date"@[0]);
    assert("created_at"@.len() != "seller_name"@.len());
    assert("created_at"@.len() != "seller_tax_id"@.len());
    assert("created_at"@[0] != "buyer_name"@[0]);
    assert("created_at"@.len() != "buyer_tax_id"@.len());
    assert("created_at"@.len() != "currency"@.len());
    assert("created_at"@.len() != "amount_without_tax"@.len());
    assert("created_at"@[0] != "tax_amount"@[0]);
    assert("created_at"@.len() != "total_amount"@.len());
    assert("created_at"@.len() != "category"@.len());
    assert("created_at"@.len() != "remarks"@.len());
    assert("created_at"@.len() != "source_page_range"@.len());
    assert("created_at"@[1] != "confidence"@[1]);
    assert("created_at"@.len() != "status"@.len());
    assert("created_at"@.len() != "duplicate_status"@.len());
}

impl InvoiceRow {
    /// The cell text of this row under a column key.
    pub fn field_by_key(&self, key: &str) -> (r: String)
        ensures
            r@ == field_spec(*self, key@),
    {
        let k = chars_of(key);
        if chars_eq_str(&k, "invoice_type") {
            opt_string(&self.invoice_type)
        } else if chars_eq_str(&k, "invoice_code") {
            opt_string(&self.invoice_code)
        } else if chars_eq_str(&k, "invoice_number") {
            opt_string(&self.invoice_number)
        } else if chars_eq_str(&k, "issue_date") {
            opt_string(&self.issue_date)
        } else if chars_eq_str(&k, "seller_name") {
            opt_string(&self.seller_name)
        } else if chars_eq_str(&k, "seller_tax_id") {
            opt_string(&self.seller_tax_id)
        } else if chars_eq_str(&k, "buyer_name") {
            opt_string(&self.buyer_name)
        } else if chars_eq_str(&k, "buyer_tax_id") {
            opt_string(&self.buyer_tax_id)
        } else if chars_eq_str(&k, "currency") {
            self.currency.clone()
        } else if chars_eq_str(&k, "amount_without_tax") {
            opt_string(&self.amount_without_tax)
        } else if chars_eq_str(&k, "tax_amount") {
            opt_string(&self.tax_amount)
        } else if chars_eq_str(&k, "total_amount") {
            opt_string(&self.total_amount)
        } else if chars_eq_str(&k, "category") {
            opt_string(&self.category)
        } else if chars_eq_str(&k, "remarks") {
            opt_string(&self.remarks)
        } else if chars_eq_str(&k, "source_page_range") {
            opt_string(&self.source_page_range)
        } else if chars_eq_str(&k, "confidence") {
            opt_string(&self.confidence)
        } else if chars_eq_str(&k, "status") {
            self.status.clone()
        } else if chars_eq_str(&k, "duplicate_status") {
            self.duplicate_status.clone()
        } else if chars_eq_str(&k, "created_at") {
            self.created_at.clone()
        } else {
            String::new()
        }
    }
}

/// The cells of one row under the given columns.
pub open spec fn record_spec(row: InvoiceRow, columns: Seq<ColumnView>) -> Seq<Seq<char>> {
    columns.map_values(|c: ColumnView| field_spec(row, c.key))
}

/// Every exported record lines up with the header: one cell per column, the
/// cell of column `j` being the row's field under that column's key, and
/// the header naming the column by its label.
pub proof fn law_records_line_up_with_header(rows: Seq<InvoiceRow>, columns: Seq<ColumnView>)
    ensures
        records_spec(rows, columns).len() == rows.len(),
        forall|k: int|
            0 <= k < rows.len() ==> (#[trigger] records_spec(rows, columns)[k]).len() == header_spec(
                columns,
            ).len(),
        forall|k: int, j: int|
            0 <= k < rows.len() && 0 <= j < columns.len() ==> (#[trigger] records_spec(rows, columns)[k][j])
                == field_spec(rows[k], columns[j].key) && header_spec(columns)[j] == columns[j].label,
{
}

pub fn row_record(row: &InvoiceRow, columns: &Vec<ColumnDef>) -> (r: Vec<String>)
    ensures
        string_views(r@) == record_spec(*row, column_views(columns@)),
{
    let mut r: Vec<String> = Vec::new();
    let mut i: usize = 0;
    while i < columns.len()
        invariant
            i <= columns.len(),
            string_views(r@) =~= record_spec(*row, column_views(columns@)).take(i as int),
        decreases columns.len() - i,
    {
        let cell = row.field_by_key(columns[i].key);
        let ghost before = r@;
        r.push(cell);
        assert(string_views(r@) =~= string_views(before).push(cell@));
        i += 1;
    }
    assert(record_spec(*row, column_views(columns@)).take(columns.len() as int) =~= record_spec(
        *row,
        column_views(columns@),
    ));
    r
}

/// The header of an export: the columns' labels.
pub open spec fn header_spec(columns: Seq<ColumnView>) -> Seq<Seq<char>> {
    columns.map_values(|c: ColumnView| c.label)
}

pub fn export_header(columns: &Vec<ColumnDef>) -> (r: Vec<String>)
    ensures
        string_views(r@) == header_spec(column_views(columns@)),
{
    let mut r: Vec<String> = Vec::new();
    let mut i: usize = 0;
    while i < columns.len()
        invariant
            i <= columns.len(),
            string_views(r@) =~= header_spec(column_views(columns@)).take(i as int),
        decreases columns.len() - i,
    {
        let label: String = columns[i].label.to_owned();
        let ghost before = r@;
        r.push(label);
        assert(string_views(r@) =~= string_views(before).push(columns@[i as int].label@));
        i += 1;
    }
    assert(header_spec(column_views(columns@)).take(columns.len() as int) =~= header_spec(
        column_views(columns@),
    ));
    r
}

pub open spec fn records_spec(rows: Seq<InvoiceRow>, columns: Seq<ColumnView>) -> Seq<
    Seq<Seq<char>>,
> {
    rows.map_values(|row: InvoiceRow| record_spec(row, columns))
}

pub open spec fn tables_view(t: Seq<Vec<String>>) -> Seq<Seq<Seq<char>>> {
    t.map_values(|r: Vec<String>| string_views(r@))
}

/// The records of the given rows under the given columns, at most `limit`
/// rows.
pub fn export_records(rows: &[InvoiceRow], columns: &Vec<ColumnDef>, limit: usize) -> (r: Vec<
    Vec<String>,
>)
    ensures
        tables_view(r@) == records_spec(
            rows@.take(if limit < rows.len() { limit as int } else { rows.len() as int }),
            column_views(columns@),
        ),
{
    let n: usize = if limit < rows.len() {
        limit
    } else {
        rows.len()
    };
    let mut r: Vec<Vec<String>> = Vec::new();
    let mut i: usize = 0;
    while i < n
        invariant
            i <= n <= rows.len(),
            tables_view(r@) =~= records_spec(rows@.take(i as int), column_views(columns@)),
        decreases n - i,
    {
        let rec = row_record(&rows[i], columns);
        let ghost before = r@;
        r.push(rec);
        assert(rows@.take(i as int + 1) =~= rows@.take(i as int).push(rows@[i as int]));
        assert(tables_view(r@) =~= tables_view(before).push(rec@.map_values(|x: String| x@)));
        i += 1;
    }
    r
}

// ---------------------------------------------------------------------------
// Previews, formats and results
// ---------------------------------------------------------------------------

pub struct ExportInvoicesRequest {
    pub format: String,
    pub output_path: String,
    pub invoice_ids: Option<Vec<i64>>,
    pub columns: Option<Vec<String>>,
    pub date_from: Option<String>,
    pub date_to: Option<String>,
}

pub struct ExportPreviewRequest {
    pub invoice_ids: Option<Vec<i64>>,
    pub columns: Option<Vec<String>>,
    pub date_from: Option<String>,
    pub date_to: Option<String>,
    pub limit: Option<usize>,
}

pub struct ExportResult {
    pub file_path: String,
    pub row_count: usize,
    pub format: String,
    pub byte_size: u64,
    pub columns: Vec<String>,
}

pub struct ExportPreviewResult {
    pub row_count: usize,
    pub columns: Vec<String>,
    pub sample_rows: Vec<Vec<String>>,
}

/// Rows shown by a preview: 5 unless asked otherwise, and between 1 and 20.
pub open spec fn preview_limit_spec(limit: Option<usize>) -> int {
    let l = match limit {
        Some(l) => l as int,
        None => 5,
    };
    if l < 1 {
        1
    } else if l > 20 {
        20
    } else {
        l
    }
}

pub fn preview_limit(limit: Option<usize>) -> (r: usize)
    ensures
        r == preview_limit_spec(limit),
        1 <= r <= 20,
{
    let l = match limit {
        Some(l) => l,
        None => 5,
    };
    if l < 1 {
        1
    } else if l > 20 {
        20
    } else {
        l
    }
}

/// The preview of an export: the number of rows, the header and the first
/// rows' cells.
pub fn preview_export(rows: &[InvoiceRow], columns: &Vec<ColumnDef>, limit: Option<usize>) -> (r:
    ExportPreviewResult)
    ensures
        r.row_count == rows.len(),
        string_views(r.columns@) == header_spec(column_views(columns@)),
        tables_view(r.sample_rows@) == records_spec(
            rows@.take(
                if preview_limit_spec(limit) < rows.len() {
                    preview_limit_spec(limit)
                } else {
                    rows.len() as int
                },
            ),
            column_views(columns@),
        ),
{
    let l = preview_limit(limit);
    ExportPreviewResult {
        row_count: rows.len(),
        columns: export_header(columns),
        sample_rows: export_records(rows, columns, l),
    }
}

/// The file formats of an export.
#[derive(PartialEq, Eq, Structural)]
pub enum ExportFormat {
    Csv,
    Xlsx,
}

pub enum ExportError {
    Database(String),
    Io(String),
    Csv(String),
    UnsupportedFormat(String),
    Xlsx(String),
}

/// The format named by a request: `csv` or `xlsx`, anything else is refused.
pub fn export_format(format: &str) -> (r: Result<ExportFormat, ExportError>)
    ensures
        format@ == "csv"@ ==> r matches Ok(ExportFormat::Csv),
        format@ == "xlsx"@ ==> r matches Ok(ExportFormat::Xlsx),
        format@ != "csv"@ && format@ != "xlsx"@ ==> (r matches Err(ExportError::UnsupportedFormat(f))
            && f@ == format@),
{
    let f = chars_of(format);
    proof {
        reveal_strlit("csv");
        reveal_strlit("xlsx");
        assert("xlsx"@.len() != "csv"@.len());
    }
    if chars_eq_str(&f, "csv") {
        Ok(ExportFormat::Csv)
    } else if chars_eq_str(&f, "xlsx") {
        Ok(ExportFormat::Xlsx)
    } else {
        Err(ExportError::UnsupportedFormat(string_from_chars(f.as_slice())))
    }
}

// ---------------------------------------------------------------------------
// The query that loads the rows of an export
// ---------------------------------------------------------------------------

/// A statement and the values bound to its placeholders, in order.
pub struct SqlQuery {
    pub sql: String,
    pub params: Vec<SqlValue>,
}

pub open spec fn placeholders_spec(n: nat) -> Seq<char>
    decreases n,
{
    if n == 0 {
        Seq::empty()
    } else if n == 1 {
        "?"@
    } else {
        placeholders_spec((n - 1) as nat) + ","@ + "?"@
    }
}

pub open spec fn export_conditions(ids: Option<nat>, from: bool, to: bool) -> Seq<Seq<char>> {
    let a: Seq<Seq<char>> = match ids {
        Some(n) => seq!["id IN ("@ + placeholders_spec(n) + ")"@],
        None => Seq::empty(),
    };
    let b: Seq<Seq<char>> = if from {
        a.push("issue_date >= ?"@)
    } else {
        a
    };
    if to {
        b.push("issue_date <= ?"@)
    } else {
        b
    }
}

pub open spec fn export_sql_spec(conditions: Seq<Seq<char>>) -> Seq<char> {
    "SELECT invoice_type, invoice_code, invoice_number, issue_date, seller_name, seller_tax_id, buyer_name, buyer_tax_id, currency, amount_without_tax, tax_amount, total_amount, category, remarks, source_page_range, confidence, status, duplicate_status, created_at FROM invoices "@
        + (if conditions.len() == 0 {
        Seq::<char>::empty()
    } else {
        "WHERE "@ + join(conditions, " AND "@) + " "@
    }) + "ORDER BY id DESC"@
}

pub open spec fn export_params_spec(ids: Option<Seq<i64>>, from: Option<Seq<char>>, to: Option<
    Seq<char>,
>) -> Seq<SqlValueView> {
    let a: Seq<SqlValueView> = match ids {
        Some(v) => v.map_values(|x: i64| SqlValueView::Integer(x as int)),
        None => Seq::empty(),
    };
    let b: Seq<SqlValueView> = match from {
        Some(f) => a.push(SqlValueView::Text(f)),
        None => a,
    };
    match to {
        Some(t) => b.push(SqlValueView::Text(t)),
        None => b,
    }
}

pub open spec fn opt_view(o: Option<&str>) -> Option<Seq<char>> {
    match o {
        Some(s) => Some(s@),
        None => None,
    }
}

fn placeholders(n: usize) -> (r: Vec<char>)
    ensures
        r@ == placeholders_spec(n as nat),
{
    let mut r: Vec<char> = Vec::new();
    let mut i: usize = 0;
    while i < n
        invariant
            i <= n,
            r@ == placeholders_spec(i as nat),
        decreases n - i,
    {
        if i > 0 {
            r.push(',');
        }
        r.push('?');
        proof {
            if i > 0 {
                assert(r@ =~= placeholders_spec(i as nat) + ","@ + "?"@) by {
                    reveal_strlit(",");
                    reveal_strlit("?");
                }
            } else {
                assert(r@ =~= "?"@) by {
                    reveal_strlit("?");
                }
            }
        }
        i += 1;
    }
    r
}

/// The query that loads the invoices of an export, newest first, restricted
/// to the given ids and issue-date range.  An empty id list selects nothing:
/// there is no query to run.
pub fn export_query(invoice_ids: Option<&[i64]>, date_from: Option<&str>, date_to: Option<&str>) -> (r:
    Option<SqlQuery>)
    ensures
        (invoice_ids matches Some(v) && v@.len() == 0) ==> r is None,
        !(invoice_ids matches Some(v) && v@.len() == 0) ==> (r matches Some(q) && q.sql@
            == export_sql_spec(
            export_conditions(
                match invoice_ids {
                    Some(v) => Some(v@.len()),
                    None => None,
                },
                date_from is Some,
                date_to is Some,
            ),
        ) && values_view(q.params@) == export_params_spec(
            match invoice_ids {
                Some(v) => Some(v@),
                None => None,
            },
            opt_view(date_from),
            opt_view(date_to),
        )),
{
    let mut conditions: Vec<String> = Vec::new();
    let mut params: Vec<SqlValue> = Vec::new();
    match invoice_ids {
        Some(ids) => {
            if ids.len() == 0 {
                return None;
            }
            let mut c: Vec<char> = Vec::new();
            push_str(&mut c, "id IN (");
            let p = placeholders(ids.len());
            crate::text::push_chars(&mut c, &p);
            push_str(&mut c, ")");
            conditions.push(string_from_chars(c.as_slice()));
            let mut i: usize = 0;
            while i < ids.len()
                invariant
                    i <= ids.len(),
                    values_view(params@) =~= ids@.take(i as int).map_values(
                        |x: i64| SqlValueView::Integer(x as int),
                    ),
                decreases ids.len() - i,
            {
                let ghost before = params@;
                params.push(SqlValue::Integer(ids[i]));
                assert(values_view(params@) =~= values_view(before).push(
                    SqlValueView::Integer(ids@[i as int] as int),
                ));
                assert(ids@.take(i as int + 1) =~= ids@.take(i as int).push(ids@[i as int]));
                i += 1;
            }
            assert(ids@.take(ids.len() as int) =~= ids@);
        },
        None => {},
    }
    match date_from {
        Some(f) => {
            conditions.push("issue_date >= ?".to_owned());
            params.push(SqlValue::Text(f.to_owned()));
        },
        None => {},
    }
    match date_to {
        Some(t) => {
            conditions.push("issue_date <= ?".to_owned());
            params.push(SqlValue::Text(t.to_owned()));
        },
        None => {},
    }
    let ghost conds = export_conditions(
        match invoice_ids {
            Some(v) => Some(v@.len()),
            None => None,
        },
        date_from is Some,
        date_to is Some,
    );
    assert(string_views(conditions@) =~= conds);
    let mut sql: Vec<char> = Vec::new();
    push_str(
        &mut sql,
        "SELECT invoice_type, invoice_code, invoice_number, issue_date, seller_name, seller_tax_id, buyer_name, buyer_tax_id, currency, amount_without_tax, tax_amount, total_amount, category, remarks, source_page_range, confidence, status, duplicate_status, created_at FROM invoices ",
    );
    if conditions.len() > 0 {
        push_str(&mut sql, "WHERE ");
        let w = join_strings(&conditions, " AND ");
        push_str(&mut sql, w.as_str());
        push_str(&mut sql, " ");
    }
    push_str(&mut sql, "ORDER BY id DESC");
    Some(SqlQuery { sql: string_from_chars(sql.as_slice()), params })
}

} // verus!
