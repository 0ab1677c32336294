//! The column keys resolve to themselves: a key, given as a label, names
//! its own column.  Facts about the concrete column table, checked column by
//! column, and the laws about resolving labels that rest on them.
use vstd::prelude::*;

use crate::exporter::{
    column_matches, column_table, first_match, first_match_from, lemma_first_match_from, matched_pairs,
    resolved_keys,
};
use crate::text::{ascii_lower, lower_seq, trim, trim_end, trim_start};

verus! {

proof fn lemma_lower_differs(a: Seq<char>, b: Seq<char>, i: int)
    requires
        0 <= i < a.len(),
        a.len() == b.len(),
        ascii_lower(a[i]) != ascii_lower(b[i]),
    ensures
        lower_seq(a) != lower_seq(b),
{
    assert(lower_seq(a)[i] == ascii_lower(a[i]));
    assert(lower_seq(b)[i] == ascii_lower(b[i]));
}

proof fn lemma_skip(s: Seq<char>, i: int)
    requires
        0 <= i < column_table().len(),
        !column_matches(column_table()[i], s),
    ensures
        first_match_from(s, i) == first_match_from(s, i + 1),
{
}

proof fn lemma_hit(s: Seq<char>, i: int)
    requires
        0 <= i < column_table().len(),
        column_matches(column_table()[i], s),
    ensures
        first_match_from(s, i) == Some(i),
{
}

proof fn lemma_key_0()
    ensures
        first_match(column_table()[0].key) == Some(0int),
        trim(column_table()[0].key) == column_table()[0].key,
        column_table()[0].key.len() > 0,
{
    reveal_strlit("invoice_type");
    let s = column_table()[0].key;
    assert(s == "invoice_type"@);
    assert(lower_seq(s) =~= lower_seq(column_table()[0].key));
    lemma_hit(s, 0);
    assert(trim_start(s) == s);
    assert(trim_end(s) == s);
}

proof fn lemma_key_1()
    ensures
        first_match(column_table()[1].key) == Some(1int),
        trim(column_table()[1].key) == column_table()[1].key,
        column_table()[1].key.len() > 0,
{
    reveal_strlit("invoice_code");
    reveal_strlit("invoice_type");
    reveal_strlit("发票类型");
    reveal_strlit("类型");
    reveal_strlit("票种");
    reveal_strlit("发票种类");
    let s = column_table()[1].key;
    assert(s == "invoice_code"@);
    lemma_lower_differs("invoice_type"@, s, 8);
    assert(column_table()[0].label.len() != s.len());
    assert(column_table()[0].aliases[0].len() != s.len());
    assert(column_table()[0].aliases[1].len() != s.len());
    assert(column_table()[0].aliases[2].len() != s.len());
    assert(!column_matches(column_table()[0], s));
    lemma_skip(s, 0);
    assert(lower_seq(s) =~= lower_seq(column_table()[1].key));
    lemma_hit(s, 1);
    assert(trim_start(s) == s);
    assert(trim_end(s) == s);
}

proof fn lemma_key_2()
    ensures
        first_match(column_table()[2].key) == Some(2int),
        trim(column_table()[2].key) == column_table()[2].key,
        column_table()[2].key.len() > 0,
{
    reveal_strlit("invoice_number");
    reveal_strlit("invoice_type");
    reveal_strlit("发票类型");
    reveal_strlit("类型");
    reveal_strlit("票种");
    reveal_strlit("发票种类");
    reveal_strlit("invoice_code");
    reveal_strlit("发票代码");
    reveal_strlit("发票编码");
    reveal_strlit("代码");
    let s = column_table()[2].key;
    assert(s == "invoice_number"@);
    assert(lower_seq("invoice_type"@).len() != lower_seq(s).len());
    assert(column_table()[0].label.len() != s.len());
    assert(column_table()[0].aliases[0].len() != s.len());
    assert(column_table()[0].aliases[1].len() != s.len());
    assert(column_table()[0].aliases[2].len() != s.len());
    assert(!column_matches(column_table()[0], s));
    lemma_skip(s, 0);
    assert(lower_seq("invoice_code"@).len() != lower_seq(s).len());
    assert(column_table()[1].label.len() != s.len());
    assert(column_table()[1].aliases[0].len() != s.len());
    assert(column_table()[1].aliases[1].len() != s.len());
    assert(!column_matches(column_table()[1], s));
    lemma_skip(s, 1);
    assert(lower_seq(s) =~= lower_seq(column_table()[2].key));
    lemma_hit(s, 2);
    assert(trim_start(s) == s);
    assert(trim_end(s) == s);
}

proof fn lemma_key_3()
    ensures
        first_match(column_table()[3].key) == Some(3int),
        trim(column_table()[3].key) == column_table()[3].key,
        column_table()[3].key.len() > 0,
{
    reveal_strlit("issue_date");
    reveal_strlit("invoice_type");
    reveal_strlit("发票类型");
    reveal_strlit("类型");
    reveal_strlit("票种");
    reveal_strlit("发票种类");
    reveal_strlit("invoice_code");
    reveal_strlit("发票代码");
    reveal_strlit("发票编码");
    reveal_strlit("代码");
    reveal_strlit("invoice_number");
    reveal_strlit("发票号码");
    reveal_strlit("发票号");
    reveal_strlit("号码");
    let s = column_table()[3].key;
    assert(s == "issue_date"@);
    assert(lower_seq("invoice_type"@).len() != lower_seq(s).len());
    assert(column_table()[0].label.len() != s.len());
    assert(column_table()[0].aliases[0].len() != s.len());
    assert(column_table()[0].aliases[1].len() != s.len());
    assert(column_table()[0].aliases[2].len() != s.len());
    assert(!column_matches(column_table()[0], s));
    lemma_skip(s, 0);
    assert(lower_seq("invoice_code"@).len() != lower_seq(s).len());
    assert(column_table()[1].label.len() != s.len());
    assert(column_table()[1].aliases[0].len() != s.len());
    assert(column_table()[1].aliases[1].len() != s.len());
    assert(!column_matches(column_table()[1], s));
    lemma_skip(s, 1);
    assert(lower_seq("invoice_number"@).len() != lower_seq(s).len());
    assert(column_table()[2].label.len() != s.len());
    assert(column_table()[2].aliases[0].len() != s.len());
    assert(column_table()[2].aliases[1].len() != s.len());
    assert(!column_matches(column_table()[2], s));
    lemma_skip(s, 2);
    assert(lower_seq(s) =~= lower_seq(column_table()[3].key));
    lemma_hit(s, 3);
    assert(trim_start(s) == s);
    assert(trim_end(s) == s);
}

proof fn lemma_key_4()
    ensures
        first_match(column_table()[4].key) == Some(4int),
        trim(column_table()[4].key) == column_table()[4].key,
        column_table()[4].key.len() > 0,
{
    reveal_strlit("seller_name");
    reveal_strlit("invoice_type");
    reveal_strlit("发票类型");
    reveal_strlit("类型");
    reveal_strlit("票种");
    reveal_strlit("发票种类");
    reveal_strlit("invoice_code");
    reveal_strlit("发票代码");
    reveal_strlit("发票编码");
    reveal_strlit("代码");
    reveal_strlit("invoice_number");
    reveal_strlit("发票号码");
    reveal_strlit("发票号");
    reveal_strlit("号码");
    reveal_strlit("issue_date");
    reveal_strlit("开票日期");
    reveal_strlit("日期");
    reveal_strlit("时间");
    reveal_strlit("发票日期");
    let s = column_table()[4].key;
    assert(s == "seller_name"@);
    assert(lower_seq("invoice_type"@).len() != lower_seq(s).len());
    assert(column_table()[0].label.len() != s.len());
    assert(column_table()[0].aliases[0].len() != s.len());
    assert(column_table()[0].aliases[1].len() != s.len());
    assert(column_table()[0].aliases[2].len() != s.len());
    assert(!column_matches(column_table()[0], s));
    lemma_skip(s, 0);
    assert(lower_seq("invoice_code"@).len() != lower_seq(s).len());
    assert(column_table()[1].label.len() != s.len());
    assert(column_table()[1].aliases[0].len() != s.len());
    assert(column_table()[1].aliases[1].len() != s.len());
    assert(!column_matches(column_table()[1], s));
    lemma_skip(s, 1);
    assert(lower_seq("invoice_number"@).len() != lower_seq(s).len());
    assert(column_table()[2].label.len() != s.len());
    assert(column_table()[2].aliases[0].len() != s.len());
    assert(column_table()[2].aliases[1].len() != s.len());
    assert(!column_matches(column_table()[2], s));
    lemma_skip(s, 2);
    assert(lower_seq("issue_date"@).len() != lower_seq(s).len());
    assert(column_table()[3].label.len() != s.len());
    assert(column_table()[3].aliases[0].len() != s.len());
    assert(column_table()[3].aliases[1].len() != s.len());
    assert(column_table()[3].aliases[2].len() != s.len());
    assert(!column_matches(column_table()[3], s));
    lemma_skip(s, 3);
    assert(lower_seq(s) =~= lower_seq(column_table()[4].key));
    lemma_hit(s, 4);
    assert(trim_start(s) == s);
    assert(trim_end(s) == s);
}

proof fn lemma_key_5()
    ensures
        first_match(column_table()[5].key) == Some(5int),
        trim(column_table()[5].key) == column_table()[5].key,
        column_table()[5].key.len() > 0,
{
    reveal_strlit("seller_tax_id");
    reveal_strlit("invoice_type");
    reveal_strlit("发票类型");
    reveal_strlit("类型");
    reveal_strlit("票种");
    reveal_strlit("发票种类");
    reveal_strlit("invoice_code");
    reveal_strlit("发票代码");
    reveal_strlit("发票编码");
    reveal_strlit("代码");
    reveal_strlit("invoice_number");
    reveal_strlit("发票号码");
    reveal_strlit("发票号");
    reveal_strlit("号码");
    reveal_strlit("issue_date");
    reveal_strlit("开票日期");
    reveal_strlit("日期");
    reveal_strlit("时间");
    reveal_strlit("发票日期");
    reveal_strlit("seller_name");
    reveal_strlit("销售方");
    reveal_strlit("销方");
    reveal_strlit("供应商");
    reveal_strlit("商家");
    reveal_strlit("公司名称");
    let s = column_table()[5].key;
    assert(s == "seller_tax_id"@);
    assert(lower_seq("invoice_type"@).len() != lower_seq(s).len());
    assert(column_table()[0].label.len() != s.len());
    assert(column_table()[0].aliases[0].len() != s.len());
    assert(column_table()[0].aliases[1].len() != s.len());
    assert(column_table()[0].aliases[2].len() != s.len());
    assert(!column_matches(column_table()[0], s));
    lemma_skip(s, 0);
    assert(lower_seq("invoice_code"@).len() != lower_seq(s).len());
    assert(column_table()[1].label.len() != s.len());
    assert(column_table()[1].aliases[0].len() != s.len());
    assert(column_table()[1].aliases[1].len() != s.len());
    assert(!column_matches(column_table()[1], s));
    lemma_skip(s, 1);
    assert(lower_seq("invoice_number"@).len() != lower_seq(s).len());
    assert(column_table()[2].label.len() != s.len());
    assert(column_table()[2].aliases[0].len() != s.len());
    assert(column_table()[2].aliases[1].len() != s.len());
    assert(!column_matches(column_table()[2], s));
    lemma_skip(s, 2);
    assert(lower_seq("issue_date"@).len() != lower_seq(s).len());
    assert(column_table()[3].label.len() != s.len());
    assert(column_table()[3].aliases[0].len() != s.len());
    assert(column_table()[3].aliases[1].len() != s.len());
    assert(column_table()[3].aliases[2].len() != s.len());
    assert(!column_matches(column_table()[3], s));
    lemma_skip(s, 3);
    assert(lower_seq("seller_name"@).len() != lower_seq(s).len());
    assert(column_table()[4].label.len() != s.len());
    assert(column_table()[4].aliases[0].len() != s.len());
    assert(column_table()[4].aliases[1].len() != s.len());
    assert(column_table()[4].aliases[2].len() != s.len());
    assert(column_table()[4].aliases[3].len() != s.len());
    assert(!column_matches(column_table()[4], s));
    lemma_skip(s, 4);
    assert(lower_seq(s) =~= lower_seq(column_table()[5].key));
    lemma_hit(s, 5);
    assert(trim_start(s) == s);
    assert(trim_end(s) == s);
}

proof fn lemma_key_6()
    ensures
        first_match(column_table()[6].key) == Some(6int),
        trim(column_table()[6].key) == column_table()[6].key,
        column_table()[6].key.len() > 0,
{
    reveal_strlit("buyer_name");
    reveal_strlit("invoice_type");
    reveal_strlit("发票类型");
    reveal_strlit("类型");
    reveal_strlit("票种");
    reveal_strlit("发票种类");
    reveal_strlit("invoice_code");
    reveal_strlit("发票代码");
    reveal_strlit("发票编码");
    reveal_strlit("代码");
    reveal_strlit("invoice_number");
    reveal_strlit("发票号码");
    reveal_strlit("发票号");
    reveal_strlit("号码");
    reveal_strlit("issue_date");
    reveal_strlit("开票日期");
    reveal_strlit("日期");
    reveal_strlit("时间");
    reveal_strlit("发票日期");
    reveal_strlit("seller_name");
    reveal_strlit("销售方");
    reveal_strlit("销方");
    reveal_strlit("供应商");
    reveal_strlit("商家");
    reveal_strlit("公司名称");
    reveal_strlit("seller_tax_id");
    reveal_strlit("销售方税号");
    reveal_strlit("销方税号");
    reveal_strlit("供应商税号");
    let s = column_table()[6].key;
    assert(s == "buyer_name"@);
    assert(lower_seq("invoice_type"@).len() != lower_seq(s).len());
    assert(column_table()[0].label.len() != s.len());
    assert(column_table()[0].aliases[0].len() != s.len());
    assert(column_table()[0].aliases[1].len() != s.len());
    assert(column_table()[0].aliases[2].len() != s.len());
    assert(!column_matches(column_table()[0], s));
    lemma_skip(s, 0);
    assert(lower_seq("invoice_code"@).len() != lower_seq(s).len());
    assert(column_table()[1].label.len() != s.len());
    assert(column_table()[1].aliases[0].len() != s.len());
    assert(column_table()[1].aliases[1].len() != s.len());
    assert(!column_matches(column_table()[1], s));
    lemma_skip(s, 1);
    assert(lower_seq("invoice_number"@).len() != lower_seq(s).len());
    assert(column_table()[2].label.len() != s.len());
    assert(column_table()[2].aliases[0].len() != s.len());
    assert(column_table()[2].aliases[1].len() != s.len());
    assert(!column_matches(column_table()[2], s));
    lemma_skip(s, 2);
    lemma_lower_differs("issue_date"@, s, 0);
    assert(column_table()[3].label.len() != s.len());
    assert(column_table()[3].aliases[0].len() != s.len());
    assert(column_table()[3].aliases[1].len() != s.len());
    assert(column_table()[3].aliases[2].len() != s.len());
    assert(!column_matches(column_table()[3], s));
    lemma_skip(s, 3);
    assert(lower_seq("seller_name"@).len() != lower_seq(s).len());
    assert(column_table()[4].label.len() != s.len());
    assert(column_table()[4].aliases[0].len() != s.len());
    assert(column_table()[4].aliases[1].len() != s.len());
    assert(column_table()[4].aliases[2].len() != s.len());
    assert(column_table()[4].aliases[3].len() != s.len());
    assert(!column_matches(column_table()[4], s));
    lemma_skip(s, 4);
    assert(lower_seq("seller_tax_id"@).len() != lower_seq(s).len());
    assert(column_table()[5].label.len() != s.len());
    assert(column_table()[5].aliases[0].len() != s.len());
    assert(column_table()[5].aliases[1].len() != s.len());
    assert(!column_matches(column_table()[5], s));
    lemma_skip(s, 5);
    assert(lower_seq(s) =~= lower_seq(column_table()[6].key));
    lemma_hit(s, 6);
    assert(trim_start(s) == s);
    assert(trim_end(s) == s);
}

proof fn lemma_key_7()
    ensures
        first_match(column_table()[7].key) == Some(7int),
        trim(column_table()[7].key) == column_table()[7].key,
        column_table()[7].key.len() > 0,
{
    reveal_strlit("buyer_tax_id");
    reveal_strlit("invoice_type");
    reveal_strlit("发票类型");
    reveal_strlit("类型");
    reveal_strlit("票种");
    reveal_strlit("发票种类");
    reveal_strlit("invoice_code");
    reveal_strlit("发票代码");
    reveal_strlit("发票编码");
    reveal_strlit("代码");
    reveal_strlit("invoice_number");
    reveal_strlit("发票号码");
    reveal_strlit("发票号");
    reveal_strlit("号码");
    reveal_strlit("issue_date");
    reveal_strlit("开票日期");
    reveal_strlit("日期");
    reveal_strlit("时间");
    reveal_strlit("发票日期");
    reveal_strlit("seller_name");
    reveal_strlit("销售方");
    reveal_strlit("销方");
    reveal_strlit("供应商");
    reveal_strlit("商家");
    reveal_strlit("公司名称");
    reveal_strlit("seller_tax_id");
    reveal_strlit("销售方税号");
    reveal_strlit("销方税号");
    reveal_strlit("供应商税号");
    reveal_strlit("buyer_name");
    reveal_strlit("购买方");
    reveal_strlit("购方");
    reveal_strlit("买方");
    let s = column_table()[7].key;
    assert(s == "buyer_tax_id"@);
    lemma_lower_differs("invoice_type"@, s, 0);
    assert(column_table()[0].label.len() != s.len());
    assert(column_table()[0].aliases[0].len() != s.len());
    assert(column_table()[0].aliases[1].len() != s.len());
    assert(column_table()[0].aliases[2].len() != s.len());
    assert(!column_matches(column_table()[0], s));
    lemma_skip(s, 0);
    lemma_lower_differs("invoice_code"@, s, 0);
    assert(column_table()[1].label.len() != s.len());
    assert(column_table()[1].aliases[0].len() != s.len());
    assert(column_table()[1].aliases[1].len() != s.len());
    assert(!column_matches(column_table()[1], s));
    lemma_skip(s, 1);
    assert(lower_seq("invoice_number"@).len() != lower_seq(s).len());
    assert(column_table()[2].label.len() != s.len());
    assert(column_table()[2].aliases[0].len() != s.len());
    assert(column_table()[2].aliases[1].len() != s.len());
    assert(!column_matches(column_table()[2], s));
    lemma_skip(s, 2);
    assert(lower_seq("issue_date"@).len() != lower_seq(s).len());
    assert(column_table()[3].label.len() != s.len());
    assert(column_table()[3].aliases[0].len() != s.len());
    assert(column_table()[3].aliases[1].len() != s.len());
    assert(column_table()[3].aliases[2].len() != s.len());
    assert(!column_matches(column_table()[3], s));
    lemma_skip(s, 3);
    assert(lower_seq("seller_name"@).len() != lower_seq(s).len());
    assert(column_table()[4].label.len() != s.len());
    assert(column_table()[4].aliases[0].len() != s.len());
    assert(column_table()[4].aliases[1].len() != s.len());
    assert(column_table()[4].aliases[2].len() != s.len());
    assert(column_table()[4].aliases[3].len() != s.len());
    assert(!column_matches(column_table()[4], s));
    lemma_skip(s, 4);
    assert(lower_seq("seller_tax_id"@).len() != lower_seq(s).len());
    assert(column_table()[5].label.len() != s.len());
    assert(column_table()[5].aliases[0].len() != s.len());
    assert(column_table()[5].aliases[1].len() != s.len());
    assert(!column_matches(column_table()[5], s));
    lemma_skip(s, 5);
    assert(lower_seq("buyer_name"@).len() != lower_seq(s).len());
    assert(column_table()[6].label.len() != s.len());
    assert(column_table()[6].aliases[0].len() != s.len());
    assert(column_table()[6].aliases[1].len() != s.len());
    assert(!column_matches(column_table()[6], s));
    lemma_skip(s, 6);
    assert(lower_seq(s) =~= lower_seq(column_table()[7].key));
    lemma_hit(s, 7);
    assert(trim_start(s) == s);
    assert(trim_end(s) == s);
}

proof fn lemma_key_8()
    ensures
        first_match(column_table()[8].key) == Some(8int),
        trim(column_table()[8].key) == column_table()[8].key,
        column_table()[8].key.len() > 0,
{
    reveal_strlit("currency");
    reveal_strlit("invoice_type");
    reveal_strlit("发票类型");
    reveal_strlit("类型");
    reveal_strlit("票种");
    reveal_strlit("发票种类");
    reveal_strlit("invoice_code");
    reveal_strlit("发票代码");
    reveal_strlit("发票编码");
    reveal_strlit("代码");
    reveal_strlit("invoice_number");
    reveal_strlit("发票号码");
    reveal_strlit("发票号");
    reveal_strlit("号码");
    reveal_strlit("issue_date");
    reveal_strlit("开票日期");
    reveal_strlit("日期");
    reveal_strlit("时间");
    reveal_strlit("发票日期");
    reveal_strlit("seller_name");
    reveal_strlit("销售方");
    reveal_strlit("销方");
    reveal_strlit("供应商");
    reveal_strlit("商家");
    reveal_strlit("公司名称");
    reveal_strlit("seller_tax_id");
    reveal_strlit("销售方税号");
    reveal_strlit("销方税号");
    reveal_strlit("供应商税号");
    reveal_strlit("buyer_name");
    reveal_strlit("购买方");
    reveal_strlit("购方");
    reveal_strlit("买方");
    reveal_strlit("buyer_tax_id");
    reveal_strlit("购买方税号");
    reveal_strlit("购方税号");
    reveal_strlit("买方税号");
    let s = column_table()[8].key;
    assert(s == "currency"@);
    assert(lower_seq("invoice_type"@).len() != lower_seq(s).len());
    assert(column_table()[0].label.len() != s.len());
    assert(column_table()[0].aliases[0].len() != s.len());
    assert(column_table()[0].aliases[1].len() != s.len());
    assert(column_table()[0].aliases[2].len() != s.len());
    assert(!column_matches(column_table()[0], s));
    lemma_skip(s, 0);
    assert(lower_seq("invoice_code"@).len() != lower_seq(s).len());
    assert(column_table()[1].label.len() != s.len());
    assert(column_table()[1].aliases[0].len() != s.len());
    assert(column_table()[1].aliases[1].len() != s.len());
    assert(!column_matches(column_table()[1], s));
    lemma_skip(s, 1);
    assert(lower_seq("invoice_number"@).len() != lower_seq(s).len());
    assert(column_table()[2].label.len() != s.len());
    assert(column_table()[2].aliases[0].len() != s.len());
    assert(column_table()[2].aliases[1].len() != s.len());
    assert(!column_matches(column_table()[2], s));
    lemma_skip(s, 2);
    assert(lower_seq("issue_date"@).len() != lower_seq(s).len());
    assert(column_table()[3].label.len() != s.len());
    assert(column_table()[3].aliases[0].len() != s.len());
    assert(column_table()[3].aliases[1].len() != s.len());
    assert(column_table()[3].aliases[2].len() != s.len());
    assert(!column_matches(column_table()[3], s));
    lemma_skip(s, 3);
    assert(lower_seq("seller_name"@).len() != lower_seq(s).len());
    assert(column_table()[4].label.len() != s.len());
    assert(column_table()[4].aliases[0].len() != s.len());
    assert(column_table()[4].aliases[1].len() != s.len());
    assert(column_table()[4].aliases[2].len() != s.len());
    assert(column_table()[4].aliases[3].len() != s.len());
    assert(!column_matches(column_table()[4], s));
    lemma_skip(s, 4);
    assert(lower_seq("seller_tax_id"@).len() != lower_seq(s).len());
    assert(column_table()[5].label.len() != s.len());
    assert(column_table()[5].aliases[0].len() != s.len());
    assert(column_table()[5].aliases[1].len() != s.len());
    assert(!column_matches(column_table()[5], s));
    lemma_skip(s, 5);
    assert(lower_seq("buyer_name"@).len() != lower_seq(s).len());
    assert(column_table()[6].label.len() != s.len());
    assert(column_table()[6].aliases[0].len() != s.len());
    assert(column_table()[6].aliases[1].len() != s.len());
    assert(!column_matches(column_table()[6], s));
    lemma_skip(s, 6);
    assert(lower_seq("buyer_tax_id"@).len() != lower_seq(s).len());
    assert(column_table()[7].label.len() != s.len());
    assert(column_table()[7].aliases[0].len() != s.len());
    assert(column_table()[7].aliases[1].len() != s.len());
    assert(!column_matches(column_table()[7], s));
    lemma_skip(s, 7);
    assert(lower_seq(s) =~= lower_seq(column_table()[8].key));
    lemma_hit(s, 8);
    assert(trim_start(s) == s);
    assert(trim_end(s) == s);
}

proof fn lemma_key_9()
    ensures
        first_match(column_table()[9].key) == Some(9int),
        trim(column_table()[9].key) == column_table()[9].key,
        column_table()[9].key.len() > 0,
{
    reveal_strlit("amount_without_tax");
    reveal_strlit("invoice_type");
    reveal_strlit("发票类型");
    reveal_strlit("类型");
    reveal_strlit("票种");
    reveal_strlit("发票种类");
    reveal_strlit("invoice_code");
    reveal_strlit("发票代码");
    reveal_strlit("发票编码");
    reveal_strlit("代码");
    reveal_strlit("invoice_number");
    reveal_strlit("发票号码");
    reveal_strlit("发票号");
    reveal_strlit("号码");
    reveal_strlit("issue_date");
    reveal_strlit("开票日期");
    reveal_strlit("日期");
    reveal_strlit("时间");
    reveal_strlit("发票日期");
    reveal_strlit("seller_name");
    reveal_strlit("销售方");
    reveal_strlit("销方");
    reveal_strlit("供应商");
    reveal_strlit("商家");
    reveal_strlit("公司名称");
    reveal_strlit("seller_tax_id");
    reveal_strlit("销售方税号");
    reveal_strlit("销方税号");
    reveal_strlit("供应商税号");
    reveal_strlit("buyer_name");
    reveal_strlit("购买方");
    reveal_strlit("购方");
    reveal_strlit("买方");
    reveal_strlit("buyer_tax_id");
    reveal_strlit("购买方税号");
    reveal_strlit("购方税号");
    reveal_strlit("买方税号");
    reveal_strlit("currency");
    reveal_strlit("币种");
    reveal_strlit("货币");
    let s = column_table()[9].key;
    assert(s == "amount_without_tax"@);
    assert(lower_seq("invoice_type"@).len() != lower_seq(s).len());
    assert(column_table()[0].label.len() != s.len());
    assert(column_table()[0].aliases[0].len() != s.len());
    assert(column_table()[0].aliases[1].len() != s.len());
    assert(column_table()[0].aliases[2].len() != s.len());
    assert(!column_matches(column_table()[0], s));
    lemma_skip(s, 0);
    assert(lower_seq("invoice_code"@).len() != lower_seq(s).len());
    assert(column_table()[1].label.len() != s.len());
    assert(column_table()[1].aliases[0].len() != s.len());
    assert(column_table()[1].aliases[1].len() != s.len());
    assert(!column_matches(column_table()[1], s));
    lemma_skip(s, 1);
    assert(lower_seq("invoice_number"@).len() != lower_seq(s).len());
    assert(column_table()[2].label.len() != s.len());
    assert(column_table()[2].aliases[0].len() != s.len());
    assert(column_table()[2].aliases[1].len() != s.len());
    assert(!column_matches(column_table()[2], s));
    lemma_skip(s, 2);
    assert(lower_seq("issue_date"@).len() != lower_seq(s).len());
    assert(column_table()[3].label.len() != s.len());
    assert(column_table()[3].aliases[0].len() != s.len());
    assert(column_table()[3].aliases[1].len() != s.len());
    assert(column_table()[3].aliases[2].len() != s.len());
    assert(!column_matches(column_table()[3], s));
    lemma_skip(s, 3);
    assert(lower_seq("seller_name"@).len() != lower_seq(s).len());
    assert(column_table()[4].label.len() != s.len());
    assert(column_table()[4].aliases[0].len() != s.len());
    assert(column_table()[4].aliases[1].len() != s.len());
    assert(column_table()[4].aliases[2].len() != s.len());
    assert(column_table()[4].aliases[3].len() != s.len());
    assert(!column_matches(column_table()[4], s));
    lemma_skip(s, 4);
    assert(lower_seq("seller_tax_id"@).len() != lower_seq(s).len());
    assert(column_table()[5].label.len() != s.len());
    assert(column_table()[5].aliases[0].len() != s.len());
    assert(column_table()[5].aliases[1].len() != s.len());
    assert(!column_matches(column_table()[5], s));
    lemma_skip(s, 5);
    assert(lower_seq("buyer_name"@).len() != lower_seq(s).len());
    assert(column_table()[6].label.len() != s.len());
    assert(column_table()[6].aliases[0].len() != s.len());
    assert(column_table()[6].aliases[1].len() != s.len());
    assert(!column_matches(column_table()[6], s));
    lemma_skip(s, 6);
    assert(lower_seq("buyer_tax_id"@).len() != lower_seq(s).len());
    assert(column_table()[7].label.len() != s.len());
    assert(column_table()[7].aliases[0].len() != s.len());
    assert(column_table()[7].aliases[1].len() != s.len());
    assert(!column_matches(column_table()[7], s));
    lemma_skip(s, 7);
    assert(lower_seq("currency"@).len() != lower_seq(s).len());
    assert(column_table()[8].label.len() != s.len());
    assert(column_table()[8].aliases[0].len() != s.len());
    assert(!column_matches(column_table()[8], s));
    lemma_skip(s, 8);
    assert(lower_seq(s) =~= lower_seq(column_table()[9].key));
    lemma_hit(s, 9);
    assert(trim_start(s) == s);
    assert(trim_end(s) == s);
}

proof fn lemma_key_10()
    ensures
        first_match(column_table()[10].key) == Some(10int),
        trim(column_table()[10].key) == column_table()[10].key,
        column_table()[10].key.len() > 0,
{
    reveal_strlit("tax_amount");
    reveal_strlit("invoice_type");
    reveal_strlit("发票类型");
    reveal_strlit("类型");
    reveal_strlit("票种");
    reveal_strlit("发票种类");
    reveal_strlit("invoice_code");
    reveal_strlit("发票代码");
    reveal_strlit("发票编码");
    reveal_strlit("代码");
    reveal_strlit("invoice_number");
    reveal_strlit("发票号码");
    reveal_strlit("发票号");
    reveal_strlit("号码");
    reveal_strlit("issue_date");
    reveal_strlit("开票日期");
    reveal_strlit("日期");
    reveal_strlit("时间");
    reveal_strlit("发票日期");
    reveal_strlit("seller_name");
    reveal_strlit("销售方");
    reveal_strlit("销方");
    reveal_strlit("供应商");
    reveal_strlit("商家");
    reveal_strlit("公司名称");
    reveal_strlit("seller_tax_id");
    reveal_strlit("销售方税号");
    reveal_strlit("销方税号");
    reveal_strlit("供应商税号");
    reveal_strlit("buyer_name");
    reveal_strlit("购买方");
    reveal_strlit("购方");
    reveal_strlit("买方");
    reveal_strlit("buyer_tax_id");
    reveal_strlit("购买方税号");
    reveal_strlit("购方税号");
    reveal_strlit("买方税号");
    reveal_strlit("currency");
    reveal_strlit("币种");
    reveal_strlit("货币");
    reveal_strlit("amount_without_tax");
    reveal_strlit("不含税金额");
    reveal_strlit("未税金额");
    reveal_strlit("金额不含税");
    let s = column_table()[10].key;
    assert(s == "tax_amount"@);
    assert(lower_seq("invoice_type"@).len() != lower_seq(s).len());
    assert(column_table()[0].label.len() != s.len());
    assert(column_table()[0].aliases[0].len() != s.len());
    assert(column_table()[0].aliases[1].len() != s.len());
    assert(column_table()[0].aliases[2].len() != s.len());
    assert(!column_matches(column_table()[0], s));
    lemma_skip(s, 0);
    assert(lower_seq("invoice_code"@).len() != lower_seq(s).len());
    assert(column_table()[1].label.len() != s.len());
    assert(column_table()[1].aliases[0].len() != s.len());
    assert(column_table()[1].aliases[1].len() != s.len());
    assert(!column_matches(column_table()[1], s));
    lemma_skip(s, 1);
    assert(lower_seq("invoice_number"@).len() != lower_seq(s).len());
    assert(column_table()[2].label.len() != s.len());
    assert(column_table()[2].aliases[0].len() != s.len());
    assert(column_table()[2].aliases[1].len() != s.len());
    assert(!column_matches(column_table()[2], s));
    lemma_skip(s, 2);
    lemma_lower_differs("issue_date"@, s, 0);
    assert(column_table()[3].label.len() != s.len());
    assert(column_table()[3].aliases[0].len() != s.len());
    assert(column_table()[3].aliases[1].len() != s.len());
    assert(column_table()[3].aliases[2].len() != s.len());
    assert(!column_matches(column_table()[3], s));
    lemma_skip(s, 3);
    assert(lower_seq("seller_name"@).len() != lower_seq(s).len());
    assert(column_table()[4].label.len() != s.len());
    assert(column_table()[4].aliases[0].len() != s.len());
    assert(column_table()[4].aliases[1].len() != s.len());
    assert(column_table()[4].aliases[2].len() != s.len());
    assert(column_table()[4].aliases[3].len() != s.len());
    assert(!column_matches(column_table()[4], s));
    lemma_skip(s, 4);
    assert(lower_seq("seller_tax_id"@).len() != lower_seq(s).len());
    assert(column_table()[5].label.len() != s.len());
    assert(column_table()[5].aliases[0].len() != s.len());
    assert(column_table()[5].aliases[1].len() != s.len());
    assert(!column_matches(column_table()[5], s));
    lemma_skip(s, 5);
    lemma_lower_differs("buyer_name"@, s, 0);
    assert(column_table()[6].label.len() != s.len());
    assert(column_table()[6].aliases[0].len() != s.len());
    assert(column_table()[6].aliases[1].len() != s.len());
    assert(!column_matches(column_table()[6], s));
    lemma_skip(s, 6);
    assert(lower_seq("buyer_tax_id"@).len() != lower_seq(s).len());
    assert(column_table()[7].label.len() != s.len());
    assert(column_table()[7].aliases[0].len() != s.len());
    assert(column_table()[7].aliases[1].len() != s.len());
    assert(!column_matches(column_table()[7], s));
    lemma_skip(s, 7);
    assert(lower_seq("currency"@).len() != lower_seq(s).len());
    assert(column_table()[8].label.len() != s.len());
    assert(column_table()[8].aliases[0].len() != s.len());
    assert(!column_matches(column_table()[8], s));
    lemma_skip(s, 8);
    assert(lower_seq("amount_without_tax"@).len() != lower_seq(s).len());
    assert(column_table()[9].label.len() != s.len());
    assert(column_table()[9].aliases[0].len() != s.len());
    assert(column_table()[9].aliases[1].len() != s.len());
    assert(!column_matches(column_table()[9], s));
    lemma_skip(s, 9);
    assert(lower_seq(s) =~= lower_seq(column_table()[10].key));
    lemma_hit(s, 10);
    assert(trim_start(s) == s);
    assert(trim_end(s) == s);
}

proof fn lemma_key_11()
    ensures
        first_match(column_table()[11].key) == Some(11int),
        trim(column_table()[11].key) == column_table()[11].key,
        column_table()[11].key.len() > 0,
{
    reveal_strlit("total_amount");
    reveal_strlit("invoice_type");
    reveal_strlit("发票类型");
    reveal_strlit("类型");
    reveal_strlit("票种");
    reveal_strlit("发票种类");
    reveal_strlit("invoice_code");
    reveal_strlit("发票代码");
    reveal_strlit("发票编码");
    reveal_strlit("代码");
    reveal_strlit("invoice_number");
    reveal_strlit("发票号码");
    reveal_strlit("发票号");
    reveal_strlit("号码");
    reveal_strlit("issue_date");
    reveal_strlit("开票日期");
    reveal_strlit("日期");
    reveal_strlit("时间");
    reveal_strlit("发票日期");
    reveal_strlit("seller_name");
    reveal_strlit("销售方");
    reveal_strlit("销方");
    reveal_strlit("供应商");
    reveal_strlit("商家");
    reveal_strlit("公司名称");
    reveal_strlit("seller_tax_id");
    reveal_strlit("销售方税号");
    reveal_strlit("销方税号");
    reveal_strlit("供应商税号");
    reveal_strlit("buyer_name");
    reveal_strlit("购买方");
    reveal_strlit("购方");
    reveal_strlit("买方");
    reveal_strlit("buyer_tax_id");
    reveal_strlit("购买方税号");
    reveal_strlit("购方税号");
    reveal_strlit("买方税号");
    reveal_strlit("currency");
    reveal_strlit("币种");
    reveal_strlit("货币");
    reveal_strlit("amount_without_tax");
    reveal_strlit("不含税金额");
    reveal_strlit("未税金额");
    reveal_strlit("金额不含税");
    reveal_strlit("tax_amount");
    reveal_strlit("税额");
    reveal_strlit("税金");
    let s = column_table()[11].key;
    assert(s == "total_amount"@);
    lemma_lower_differs("invoice_type"@, s, 0);
    assert(column_table()[0].label.len() != s.len());
    assert(column_table()[0].aliases[0].len() != s.len());
    assert(column_table()[0].aliases[1].len() != s.len());
    assert(column_table()[0].aliases[2].len() != s.len());
    assert(!column_matches(column_table()[0], s));
    lemma_skip(s, 0);
    lemma_lower_differs("invoice_code"@, s, 0);
    assert(column_table()[1].label.len() != s.len());
    assert(column_table()[1].aliases[0].len() != s.len());
    assert(column_table()[1].aliases[1].len() != s.len());
    assert(!column_matches(column_table()[1], s));
    lemma_skip(s, 1);
    assert(lower_seq("invoice_number"@).len() != lower_seq(s).len());
    assert(column_table()[2].label.len() != s.len());
    assert(column_table()[2].aliases[0].len() != s.len());
    assert(column_table()[2].aliases[1].len() != s.len());
    assert(!column_matches(column_table()[2], s));
    lemma_skip(s, 2);
    assert(lower_seq("issue_date"@).len() != lower_seq(s).len());
    assert(column_table()[3].label.len() != s.len());
    assert(column_table()[3].aliases[0].len() != s.len());
    assert(column_table()[3].aliases[1].len() != s.len());
    assert(column_table()[3].aliases[2].len() != s.len());
    assert(!column_matches(column_table()[3], s));
    lemma_skip(s, 3);
    assert(lower_seq("seller_name"@).len() != lower_seq(s).len());
    assert(column_table()[4].label.len() != s.len());
    assert(column_table()[4].aliases[0].len() != s.len());
    assert(column_table()[4].aliases[1].len() != s.len());
    assert(column_table()[4].aliases[2].len() != s.len());
    assert(column_table()[4].aliases[3].len() != s.len());
    assert(!column_matches(column_table()[4], s));
    lemma_skip(s, 4);
    assert(lower_seq("seller_tax_id"@).len() != lower_seq(s).len());
    assert(column_table()[5].label.len() != s.len());
    assert(column_table()[5].aliases[0].len() != s.len());
    assert(column_table()[5].aliases[1].len() != s.len());
    assert(!column_matches(column_table()[5], s));
    lemma_skip(s, 5);
    assert(lower_seq("buyer_name"@).len() != lower_seq(s).len());
    assert(column_table()[6].label.len() != s.len());
    assert(column_table()[6].aliases[0].len() != s.len());
    assert(column_table()[6].aliases[1].len() != s.len());
    assert(!column_matches(column_table()[6], s));
    lemma_skip(s, 6);
    lemma_lower_differs("buyer_tax_id"@, s, 0);
    assert(column_table()[7].label.len() != s.len());
    assert(column_table()[7].aliases[0].len() != s.len());
    assert(column_table()[7].aliases[1].len() != s.len());
    assert(!column_matches(column_table()[7], s));
    lemma_skip(s, 7);
    assert(lower_seq("currency"@).len() != lower_seq(s).len());
    assert(column_table()[8].label.len() != s.len());
    assert(column_table()[8].aliases[0].len() != s.len());
    assert(!column_matches(column_table()[8], s));
    lemma_skip(s, 8);
    assert(lower_seq("amount_without_tax"@).len() != lower_seq(s).len());
    assert(column_table()[9].label.len() != s.len());
    assert(column_table()[9].aliases[0].len() != s.len());
    assert(column_table()[9].aliases[1].len() != s.len());
    assert(!column_matches(column_table()[9], s));
    lemma_skip(s, 9);
    assert(lower_seq("tax_amount"@).len() != lower_seq(s).len());
    assert(column_table()[10].label.len() != s.len());
    assert(column_table()[10].aliases[0].len() != s.len());
    assert(!column_matches(column_table()[10], s));
    lemma_skip(s, 10);
    assert(lower_seq(s) =~= lower_seq(column_table()[11].key));
    lemma_hit(s, 11);
    assert(trim_start(s) == s);
    assert(trim_end(s) == s);
}

proof fn lemma_key_12()
    ensures
        first_match(column_table()[12].key) == Some(12int),
        trim(column_table()[12].key) == column_table()[12].key,
        column_table()[12].key.len() > 0,
{
    reveal_strlit("category");
    reveal_strlit("invoice_type");
    reveal_strlit("发票类型");
    reveal_strlit("类型");
    reveal_strlit("票种");
    reveal_strlit("发票种类");
    reveal_strlit("invoice_code");
    reveal_strlit("发票代码");
    reveal_strlit("发票编码");
    reveal_strlit("代码");
    reveal_strlit("invoice_number");
    reveal_strlit("发票号码");
    reveal_strlit("发票号");
    reveal_strlit("号码");
    reveal_strlit("issue_date");
    reveal_strlit("开票日期");
    reveal_strlit("日期");
    reveal_strlit("时间");
    reveal_strlit("发票日期");
    reveal_strlit("seller_name");
    reveal_strlit("销售方");
    reveal_strlit("销方");
    reveal_strlit("供应商");
    reveal_strlit("商家");
    reveal_strlit("公司名称");
    reveal_strlit("seller_tax_id");
    reveal_strlit("销售方税号");
    reveal_strlit("销方税号");
    reveal_strlit("供应商税号");
    reveal_strlit("buyer_name");
    reveal_strlit("购买方");
    reveal_strlit("购方");
    reveal_strlit("买方");
    reveal_strlit("buyer_tax_id");
    reveal_strlit("购买方税号");
    reveal_strlit("购方税号");
    reveal_strlit("买方税号");
    reveal_strlit("currency");
    reveal_strlit("币种");
    reveal_strlit("货币");
    reveal_strlit("amount_without_tax");
    reveal_strlit("不含税金额");
    reveal_strlit("未税金额");
    reveal_strlit("金额不含税");
    reveal_strlit("tax_amount");
    reveal_strlit("税额");
    reveal_strlit("税金");
    reveal_strlit("total_amount");
    reveal_strlit("价税合计");
    reveal_strlit("总金额");
    reveal_strlit("金额");
    reveal_strlit("合计");
    reveal_strlit("含税金额");
    let s = column_table()[12].key;
    assert(s == "category"@);
    assert(lower_seq("invoice_type"@).len() != lower_seq(s).len());
    assert(column_table()[0].label.len() != s.len());
    assert(column_table()[0].aliases[0].len() != s.len());
    assert(column_table()[0].aliases[1].len() != s.len());
    assert(column_table()[0].aliases[2].len() != s.len());
    assert(!column_matches(column_table()[0], s));
    lemma_skip(s, 0);
    assert(lower_seq("invoice_code"@).len() != lower_seq(s).len());
    assert(column_table()[1].label.len() != s.len());
    assert(column_table()[1].aliases[0].len() != s.len());
    assert(column_table()[1].aliases[1].len() != s.len());
    assert(!column_matches(column_table()[1], s));
    lemma_skip(s, 1);
    assert(lower_seq("invoice_number"@).len() != lower_seq(s).len());
    assert(column_table()[2].label.len() != s.len());
    assert(column_table()[2].aliases[0].len() != s.len());
    assert(column_table()[2].aliases[1].len() != s.len());
    assert(!column_matches(column_table()[2], s));
    lemma_skip(s, 2);
    assert(lower_seq("issue_date"@).len() != lower_seq(s).len());
    assert(column_table()[3].label.len() != s.len());
    assert(column_table()[3].aliases[0].len() != s.len());
    assert(column_table()[3].aliases[1].len() != s.len());
    assert(column_table()[3].aliases[2].len() != s.len());
    assert(!column_matches(column_table()[3], s));
    lemma_skip(s, 3);
    assert(lower_seq("seller_name"@).len() != lower_seq(s).len());
    assert(column_table()[4].label.len() != s.len());
    assert(column_table()[4].aliases[0].len() != s.len());
    assert(column_table()[4].aliases[1].len() != s.len());
    assert(column_table()[4].aliases[2].len() != s.len());
    assert(column_table()[4].aliases[3].len() != s.len());
    assert(!column_matches(column_table()[4], s));
    lemma_skip(s, 4);
    assert(lower_seq("seller_tax_id"@).len() != lower_seq(s).len());
    assert(column_table()[5].label.len() != s.len());
    assert(column_table()[5].aliases[0].len() != s.len());
    assert(column_table()[5].aliases[1].len() != s.len());
    assert(!column_matches(column_table()[5], s));
    lemma_skip(s, 5);
    assert(lower_seq("buyer_name"@).len() != lower_seq(s).len());
    assert(column_table()[6].label.len() != s.len());
    assert(column_table()[6].aliases[0].len() != s.len());
    assert(column_table()[6].aliases[1].len() != s.len());
    assert(!column_matches(column_table()[6], s));
    lemma_skip(s, 6);
    assert(lower_seq("buyer_tax_id"@).len() != lower_seq(s).len());
    assert(column_table()[7].label.len() != s.len());
    assert(column_table()[7].aliases[0].len() != s.len());
    assert(column_table()[7].aliases[1].len() != s.len());
    assert(!column_matches(column_table()[7], s));
    lemma_skip(s, 7);
    lemma_lower_differs("currency"@, s, 1);
    assert(column_table()[8].label.len() != s.len());
    assert(column_table()[8].aliases[0].len() != s.len());
    assert(!column_matches(column_table()[8], s));
    lemma_skip(s, 8);
    assert(lower_seq("amount_without_tax"@).len() != lower_seq(s).len());
    assert(column_table()[9].label.len() != s.len());
    assert(column_table()[9].aliases[0].len() != s.len());
    assert(column_table()[9].aliases[1].len() != s.len());
    assert(!column_matches(column_table()[9], s));
    lemma_skip(s, 9);
    assert(lower_seq("tax_amount"@).len() != lower_seq(s).len());
    assert(column_table()[10].label.len() != s.len());
    assert(column_table()[10].aliases[0].len() != s.len());
    assert(!column_matches(column_table()[10], s));
    lemma_skip(s, 10);
    assert(lower_seq("total_amount"@).len() != lower_seq(s).len());
    assert(column_table()[11].label.len() != s.len());
    assert(column_table()[11].aliases[0].len() != s.len());
    assert(column_table()[11].aliases[1].len() != s.len());
    assert(column_table()[11].aliases[2].len() != s.len());
    assert(column_table()[11].aliases[3].len() != s.len());
    assert(!column_matches(column_table()[11], s));
    lemma_skip(s, 11);
    assert(lower_seq(s) =~= lower_seq(column_table()[12].key));
    lemma_hit(s, 12);
    assert(trim_start(s) == s);
    assert(trim_end(s) == s);
}

proof fn lemma_key_13()
    ensures
        first_match(column_table()[13].key) == Some(13int),
        trim(column_table()[13].key) == column_table()[13].key,
        column_table()[13].key.len() > 0,
{
    reveal_strlit("remarks");
    reveal_strlit("invoice_type");
    reveal_strlit("发票类型");
    reveal_strlit("类型");
    reveal_strlit("票种");
    reveal_strlit("发票种类");
    reveal_strlit("invoice_code");
    reveal_strlit("发票代码");
    reveal_strlit("发票编码");
    reveal_strlit("代码");
    reveal_strlit("invoice_number");
    reveal_strlit("发票号码");
    reveal_strlit("发票号");
    reveal_strlit("号码");
    reveal_strlit("issue_date");
    reveal_strlit("开票日期");
    reveal_strlit("日期");
    reveal_strlit("时间");
    reveal_strlit("发票日期");
    reveal_strlit("seller_name");
    reveal_strlit("销售方");
    reveal_strlit("销方");
    reveal_strlit("供应商");
    reveal_strlit("商家");
    reveal_strlit("公司名称");
    reveal_strlit("seller_tax_id");
    reveal_strlit("销售方税号");
    reveal_strlit("销方税号");
    reveal_strlit("供应商税号");
    reveal_strlit("buyer_name");
    reveal_strlit("购买方");
    reveal_strlit("购方");
    reveal_strlit("买方");
    reveal_strlit("buyer_tax_id");
    reveal_strlit("购买方税号");
    reveal_strlit("购方税号");
    reveal_strlit("买方税号");
    reveal_strlit("currency");
    reveal_strlit("币种");
    reveal_strlit("货币");
    reveal_strlit("amount_without_tax");
    reveal_strlit("不含税金额");
    reveal_strlit("未税金额");
    reveal_strlit("金额不含税");
    reveal_strlit("tax_amount");
    reveal_strlit("税额");
    reveal_strlit("税金");
    reveal_strlit("total_amount");
    reveal_strlit("价税合计");
    reveal_strlit("总金额");
    reveal_strlit("金额");
    reveal_strlit("合计");
    reveal_strlit("含税金额");
    reveal_strlit("category");
    reveal_strlit("类别");
    reveal_strlit("分类");
    reveal_strlit("费用类别");
    let s = column_table()[13].key;
    assert(s == "remarks"@);
    assert(lower_seq("invoice_type"@).len() != lower_seq(s).len());
    assert(column_table()[0].label.len() != s.len());
    assert(column_table()[0].aliases[0].len() != s.len());
    assert(column_table()[0].aliases[1].len() != s.len());
    assert(column_table()[0].aliases[2].len() != s.len());
    assert(!column_matches(column_table()[0], s));
    lemma_skip(s, 0);
    assert(lower_seq("invoice_code"@).len() != lower_seq(s).len());
    assert(column_table()[1].label.len() != s.len());
    assert(column_table()[1].aliases[0].len() != s.len());
    assert(column_table()[1].aliases[1].len() != s.len());
    assert(!column_matches(column_table()[1], s));
    lemma_skip(s, 1);
    assert(lower_seq("invoice_number"@).len() != lower_seq(s).len());
    assert(column_table()[2].label.len() != s.len());
    assert(column_table()[2].aliases[0].len() != s.len());
    assert(column_table()[2].aliases[1].len() != s.len());
    assert(!column_matches(column_table()[2], s));
    lemma_skip(s, 2);
    assert(lower_seq("issue_date"@).len() != lower_seq(s).len());
    assert(column_table()[3].label.len() != s.len());
    assert(column_table()[3].aliases[0].len() != s.len());
    assert(column_table()[3].aliases[1].len() != s.len());
    assert(column_table()[3].aliases[2].len() != s.len());
    assert(!column_matches(column_table()[3], s));
    lemma_skip(s, 3);
    assert(lower_seq("seller_name"@).len() != lower_seq(s).len());
    assert(column_table()[4].label.len() != s.len());
    assert(column_table()[4].aliases[0].len() != s.len());
    assert(column_table()[4].aliases[1].len() != s.len());
    assert(column_table()[4].aliases[2].len() != s.len());
    assert(column_table()[4].aliases[3].len() != s.len());
    assert(!column_matches(column_table()[4], s));
    lemma_skip(s, 4);
    assert(lower_seq("seller_tax_id"@).len() != lower_seq(s).len());
    assert(column_table()[5].label.len() != s.len());
    assert(column_table()[5].aliases[0].len() != s.len());
    assert(column_table()[5].aliases[1].len() != s.len());
    assert(!column_matches(column_table()[5], s));
    lemma_skip(s, 5);
    assert(lower_seq("buyer_name"@).len() != lower_seq(s).len());
    assert(column_table()[6].label.len() != s.len());
    assert(column_table()[6].aliases[0].len() != s.len());
    assert(column_table()[6].aliases[1].len() != s.len());
    assert(!column_matches(column_table()[6], s));
    lemma_skip(s, 6);
    assert(lower_seq("buyer_tax_id"@).len() != lower_seq(s).len());
    assert(column_table()[7].label.len() != s.len());
    assert(column_table()[7].aliases[0].len() != s.len());
    assert(column_table()[7].aliases[1].len() != s.len());
    assert(!column_matches(column_table()[7], s));
    lemma_skip(s, 7);
    assert(lower_seq("currency"@).len() != lower_seq(s).len());
    assert(column_table()[8].label.len() != s.len());
    assert(column_table()[8].aliases[0].len() != s.len());
    assert(!column_matches(column_table()[8], s));
    lemma_skip(s, 8);
    assert(lower_seq("amount_without_tax"@).len() != lower_seq(s).len());
    assert(column_table()[9].label.len() != s.len());
    assert(column_table()[9].aliases[0].len() != s.len());
    assert(column_table()[9].aliases[1].len() != s.len());
    assert(!column_matches(column_table()[9], s));
    lemma_skip(s, 9);
    assert(lower_seq("tax_amount"@).len() != lower_seq(s).len());
    assert(column_table()[10].label.len() != s.len());
    assert(column_table()[10].aliases[0].len() != s.len());
    assert(!column_matches(column_table()[10], s));
    lemma_skip(s, 10);
    assert(lower_seq("total_amount"@).len() != lower_seq(s).len());
    assert(column_table()[11].label.len() != s.len());
    assert(column_table()[11].aliases[0].len() != s.len());
    assert(column_table()[11].aliases[1].len() != s.len());
    assert(column_table()[11].aliases[2].len() != s.len());
    assert(column_table()[11].aliases[3].len() != s.len());
    assert(!column_matches(column_table()[11], s));
    lemma_skip(s, 11);
    assert(lower_seq("category"@).len() != lower_seq(s).len());
    assert(column_table()[12].label.len() != s.len());
    assert(column_table()[12].aliases[0].len() != s.len());
    assert(column_table()[12].aliases[1].len() != s.len());
    assert(column_table()[12].aliases[2].len() != s.len());
    assert(!column_matches(column_table()[12], s));
    lemma_skip(s, 12);
    assert(lower_seq(s) =~= lower_seq(column_table()[13].key));
    lemma_hit(s, 13);
    assert(trim_start(s) == s);
    assert(trim_end(s) == s);
}

proof fn lemma_key_14()
    ensures
        first_match(column_table()[14].key) == Some(14int),
        trim(column_table()[14].key) == column_table()[14].key,
        column_table()[14].key.len() > 0,
{
    reveal_strlit("source_page_range");
    reveal_strlit("invoice_type");
    reveal_strlit("发票类型");
    reveal_strlit("类型");
    reveal_strlit("票种");
    reveal_strlit("发票种类");
    reveal_strlit("invoice_code");
    reveal_strlit("发票代码");
    reveal_strlit("发票编码");
    reveal_strlit("代码");
    reveal_strlit("invoice_number");
    reveal_strlit("发票号码");
    reveal_strlit("发票号");
    reveal_strlit("号码");
    reveal_strlit("issue_date");
    reveal_strlit("开票日期");
    reveal_strlit("日期");
    reveal_strlit("时间");
    reveal_strlit("发票日期");
    reveal_strlit("seller_name");
    reveal_strlit("销售方");
    reveal_strlit("销方");
    reveal_strlit("供应商");
    reveal_strlit("商家");
    reveal_strlit("公司名称");
    reveal_strlit("seller_tax_id");
    reveal_strlit("销售方税号");
    reveal_strlit("销方税号");
    reveal_strlit("供应商税号");
    reveal_strlit("buyer_name");
    reveal_strlit("购买方");
    reveal_strlit("购方");
    reveal_strlit("买方");
    reveal_strlit("buyer_tax_id");
    reveal_strlit("购买方税号");
    reveal_strlit("购方税号");
    reveal_strlit("买方税号");
    reveal_strlit("currency");
    reveal_strlit("币种");
    reveal_strlit("货币");
    reveal_strlit("amount_without_tax");
    reveal_strlit("不含税金额");
    reveal_strlit("未税金额");
    reveal_strlit("金额不含税");
    reveal_strlit("tax_amount");
    reveal_strlit("税额");
    reveal_strlit("税金");
    reveal_strlit("total_amount");
    reveal_strlit("价税合计");
    reveal_strlit("总金额");
    reveal_strlit("金额");
    reveal_strlit("合计");
    reveal_strlit("含税金额");
    reveal_strlit("category");
    reveal_strlit("类别");
    reveal_strlit("分类");
    reveal_strlit("费用类别");
    reveal_strlit("remarks");
    reveal_strlit("备注");
    reveal_strlit("说明");
    reveal_strlit("发票内容");
    reveal_strlit("内容");
    let s = column_table()[14].key;
    assert(s == "source_page_range"@);
    assert(lower_seq("invoice_type"@).len() != lower_seq(s).len());
    assert(column_table()[0].label.len() != s.len());
    assert(column_table()[0].aliases[0].len() != s.len());
    assert(column_table()[0].aliases[1].len() != s.len());
    assert(column_table()[0].aliases[2].len() != s.len());
    assert(!column_matches(column_table()[0], s));
    lemma_skip(s, 0);
    assert(lower_seq("invoice_code"@).len() != lower_seq(s).len());
    assert(column_table()[1].label.len() != s.len());
    assert(column_table()[1].aliases[0].len() != s.len());
    assert(column_table()[1].aliases[1].len() != s.len());
    assert(!column_matches(column_table()[1], s));
    lemma_skip(s, 1);
    assert(lower_seq("invoice_number"@).len() != lower_seq(s).len());
    assert(column_table()[2].label.len() != s.len());
    assert(column_table()[2].aliases[0].len() != s.len());
    assert(column_table()[2].aliases[1].len() != s.len());
    assert(!column_matches(column_table()[2], s));
    lemma_skip(s, 2);
    assert(lower_seq("issue_date"@).len() != lower_seq(s).len());
    assert(column_table()[3].label.len() != s.len());
    assert(column_table()[3].aliases[0].len() != s.len());
    assert(column_table()[3].aliases[1].len() != s.len());
    assert(column_table()[3].aliases[2].len() != s.len());
    assert(!column_matches(column_table()[3], s));
    lemma_skip(s, 3);
    assert(lower_seq("seller_name"@).len() != lower_seq(s).len());
    assert(column_table()[4].label.len() != s.len());
    assert(column_table()[4].aliases[0].len() != s.len());
    assert(column_table()[4].aliases[1].len() != s.len());
    assert(column_table()[4].aliases[2].len() != s.len());
    assert(column_table()[4].aliases[3].len() != s.len());
    assert(!column_matches(column_table()[4], s));
    lemma_skip(s, 4);
    assert(lower_seq("seller_tax_id"@).len() != lower_seq(s).len());
    assert(column_table()[5].label.len() != s.len());
    assert(column_table()[5].aliases[0].len() != s.len());
    assert(column_table()[5].aliases[1].len() != s.len());
    assert(!column_matches(column_table()[5], s));
    lemma_skip(s, 5);
    assert(lower_seq("buyer_name"@).len() != lower_seq(s).len());
    assert(column_table()[6].label.len() != s.len());
    assert(column_table()[6].aliases[0].len() != s.len());
    assert(column_table()[6].aliases[1].len() != s.len());
    assert(!column_matches(column_table()[6], s));
    lemma_skip(s, 6);
    assert(lower_seq("buyer_tax_id"@).len() != lower_seq(s).len());
    assert(column_table()[7].label.len() != s.len());
    assert(column_table()[7].aliases[0].len() != s.len());
    assert(column_table()[7].aliases[1].len() != s.len());
    assert(!column_matches(column_table()[7], s));
    lemma_skip(s, 7);
    assert(lower_seq("currency"@).len() != lower_seq(s).len());
    assert(column_table()[8].label.len() != s.len());
    assert(column_table()[8].aliases[0].len() != s.len());
    assert(!column_matches(column_table()[8], s));
    lemma_skip(s, 8);
    assert(lower_seq("amount_without_tax"@).len() != lower_seq(s).len());
    assert(column_table()[9].label.len() != s.len());
    assert(column_table()[9].aliases[0].len() != s.len());
    assert(column_table()[9].aliases[1].len() != s.len());
    assert(!column_matches(column_table()[9], s));
    lemma_skip(s, 9);
    assert(lower_seq("tax_amount"@).len() != lower_seq(s).len());
    assert(column_table()[10].label.len() != s.len());
    assert(column_table()[10].aliases[0].len() != s.len());
    assert(!column_matches(column_table()[10], s));
    lemma_skip(s, 10);
    assert(lower_seq("total_amount"@).len() != lower_seq(s).len());
    assert(column_table()[11].label.len() != s.len());
    assert(column_table()[11].aliases[0].len() != s.len());
    assert(column_table()[11].aliases[1].len() != s.len());
    assert(column_table()[11].aliases[2].len() != s.len());
    assert(column_table()[11].aliases[3].len() != s.len());
    assert(!column_matches(column_table()[11], s));
    lemma_skip(s, 11);
    assert(lower_seq("category"@).len() != lower_seq(s).len());
    assert(column_table()[12].label.len() != s.len());
    assert(column_table()[12].aliases[0].len() != s.len());
    assert(column_table()[12].aliases[1].len() != s.len());
    assert(column_table()[12].aliases[2].len() != s.len());
    assert(!column_matches(column_table()[12], s));
    lemma_skip(s, 12);
    assert(lower_seq("remarks"@).len() != lower_seq(s).len());
    assert(column_table()[13].label.len() != s.len());
    assert(column_table()[13].aliases[0].len() != s.len());
    assert(column_table()[13].aliases[1].len() != s.len());
    assert(column_table()[13].aliases[2].len() != s.len());
    assert(!column_matches(column_table()[13], s));
    lemma_skip(s, 13);
    assert(lower_seq(s) =~= lower_seq(column_table()[14].key));
    lemma_hit(s, 14);
    assert(trim_start(s) == s);
    assert(trim_end(s) == s);
}

proof fn lemma_key_15()
    ensures
        first_match(column_table()[15].key) == Some(15int),
        trim(column_table()[15].key) == column_table()[15].key,
        column_table()[15].key.len() > 0,
{
    reveal_strlit("confidence");
    reveal_strlit("invoice_type");
    reveal_strlit("发票类型");
    reveal_strlit("类型");
    reveal_strlit("票种");
    reveal_strlit("发票种类");
    reveal_strlit("invoice_code");
    reveal_strlit("发票代码");
    reveal_strlit("发票编码");
    reveal_strlit("代码");
    reveal_strlit("invoice_number");
    reveal_strlit("发票号码");
    reveal_strlit("发票号");
    reveal_strlit("号码");
    reveal_strlit("issue_date");
    reveal_strlit("开票日期");
    reveal_strlit("日期");
    reveal_strlit("时间");
    reveal_strlit("发票日期");
    reveal_strlit("seller_name");
    reveal_strlit("销售方");
    reveal_strlit("销方");
    reveal_strlit("供应商");
    reveal_strlit("商家");
    reveal_strlit("公司名称");
    reveal_strlit("seller_tax_id");
    reveal_strlit("销售方税号");
    reveal_strlit("销方税号");
    reveal_strlit("供应商税号");
    reveal_strlit("buyer_name");
    reveal_strlit("购买方");
    reveal_strlit("购方");
    reveal_strlit("买方");
    reveal_strlit("buyer_tax_id");
    reveal_strlit("购买方税号");
    reveal_strlit("购方税号");
    reveal_strlit("买方税号");
    reveal_strlit("currency");
    reveal_strlit("币种");
    reveal_strlit("货币");
    reveal_strlit("amount_without_tax");
    reveal_strlit("不含税金额");
    reveal_strlit("未税金额");
    reveal_strlit("金额不含税");
    reveal_strlit("tax_amount");
    reveal_strlit("税额");
    reveal_strlit("税金");
    reveal_strlit("total_amount");
    reveal_strlit("价税合计");
    reveal_strlit("总金额");
    reveal_strlit("金额");
    reveal_strlit("合计");
    reveal_strlit("含税金额");
    reveal_strlit("category");
    reveal_strlit("类别");
    reveal_strlit("分类");
    reveal_strlit("费用类别");
    reveal_strlit("remarks");
    reveal_strlit("备注");
    reveal_strlit("说明");
    reveal_strlit("发票内容");
    reveal_strlit("内容");
    reveal_strlit("source_page_range");
    reveal_strlit("页码范围");
    reveal_strlit("页码");
    let s = column_table()[15].key;
    assert(s == "confidence"@);
    assert(lower_seq("invoice_type"@).len() != lower_seq(s).len());
    assert(column_table()[0].label.len() != s.len());
    assert(column_table()[0].aliases[0].len() != s.len());
    assert(column_table()[0].aliases[1].len() != s.len());
    assert(column_table()[0].aliases[2].len() != s.len());
    assert(!column_matches(column_table()[0], s));
    lemma_skip(s, 0);
    assert(lower_seq("invoice_code"@).len() != lower_seq(s).len());
    assert(column_table()[1].label.len() != s.len());
    assert(column_table()[1].aliases[0].len() != s.len());
    assert(column_table()[1].aliases[1].len() != s.len());
    assert(!column_matches(column_table()[1], s));
    lemma_skip(s, 1);
    assert(lower_seq("invoice_number"@).len() != lower_seq(s).len());
    assert(column_table()[2].label.len() != s.len());
    assert(column_table()[2].aliases[0].len() != s.len());
    assert(column_table()[2].aliases[1].len() != s.len());
    assert(!column_matches(column_table()[2], s));
    lemma_skip(s, 2);
    lemma_lower_differs("issue_date"@, s, 0);
    assert(column_table()[3].label.len() != s.len());
    assert(column_table()[3].aliases[0].len() != s.len());
    assert(column_table()[3].aliases[1].len() != s.len());
    assert(column_table()[3].aliases[2].len() != s.len());
    assert(!column_matches(column_table()[3], s));
    lemma_skip(s, 3);
    assert(lower_seq("seller_name"@).len() != lower_seq(s).len());
    assert(column_table()[4].label.len() != s.len());
    assert(column_table()[4].aliases[0].len() != s.len());
    assert(column_table()[4].aliases[1].len() != s.len());
    assert(column_table()[4].aliases[2].len() != s.len());
    assert(column_table()[4].aliases[3].len() != s.len());
    assert(!column_matches(column_table()[4], s));
    lemma_skip(s, 4);
    assert(lower_seq("seller_tax_id"@).len() != lower_seq(s).len());
    assert(column_table()[5].label.len() != s.len());
    assert(column_table()[5].aliases[0].len() != s.len());
    assert(column_table()[5].aliases[1].len() != s.len());
    assert(!column_matches(column_table()[5], s));
    lemma_skip(s, 5);
    lemma_lower_differs("buyer_name"@, s, 0);
    assert(column_table()[6].label.len() != s.len());
    assert(column_table()[6].aliases[0].len() != s.len());
    assert(column_table()[6].aliases[1].len() != s.len());
    assert(!column_matches(column_table()[6], s));
    lemma_skip(s, 6);
    assert(lower_seq("buyer_tax_id"@).len() != lower_seq(s).len());
    assert(column_table()[7].label.len() != s.len());
    assert(column_table()[7].aliases[0].len() != s.len());
    assert(column_table()[7].aliases[1].len() != s.len());
    assert(!column_matches(column_table()[7], s));
    lemma_skip(s, 7);
    assert(lower_seq("currency"@).len() != lower_seq(s).len());
    assert(column_table()[8].label.len() != s.len());
    assert(column_table()[8].aliases[0].len() != s.len());
    assert(!column_matches(column_table()[8], s));
    lemma_skip(s, 8);
    assert(lower_seq("amount_without_tax"@).len() != lower_seq(s).len());
    assert(column_table()[9].label.len() != s.len());
    assert(column_table()[9].aliases[0].len() != s.len());
    assert(column_table()[9].aliases[1].len() != s.len());
    assert(!column_matches(column_table()[9], s));
    lemma_skip(s, 9);
    lemma_lower_differs("tax_amount"@, s, 0);
    assert(column_table()[10].label.len() != s.len());
    assert(column_table()[10].aliases[0].len() != s.len());
    assert(!column_matches(column_table()[10], s));
    lemma_skip(s, 10);
    assert(lower_seq("total_amount"@).len() != lower_seq(s).len());
    assert(column_table()[11].label.len() != s.len());
    assert(column_table()[11].aliases[0].len() != s.len());
    assert(column_table()[11].aliases[1].len() != s.len());
    assert(column_table()[11].aliases[2].len() != s.len());
    assert(column_table()[11].aliases[3].len() != s.len());
    assert(!column_matches(column_table()[11], s));
    lemma_skip(s, 11);
    assert(lower_seq("category"@).len() != lower_seq(s).len());
    assert(column_table()[12].label.len() != s.len());
    assert(column_table()[12].aliases[0].len() != s.len());
    assert(column_table()[12].aliases[1].len() != s.len());
    assert(column_table()[12].aliases[2].len() != s.len());
    assert(!column_matches(column_table()[12], s));
    lemma_skip(s, 12);
    assert(lower_seq("remarks"@).len() != lower_seq(s).len());
    assert(column_table()[13].label.len() != s.len());
    assert(column_table()[13].aliases[0].len() != s.len());
    assert(column_table()[13].aliases[1].len() != s.len());
    assert(column_table()[13].aliases[2].len() != s.len());
    assert(!column_matches(column_table()[13], s));
    lemma_skip(s, 13);
    assert(lower_seq("source_page_range"@).len() != lower_seq(s).len());
    assert(column_table()[14].label.len() != s.len());
    assert(column_table()[14].aliases[0].len() != s.len());
    assert(!column_matches(column_table()[14], s));
    lemma_skip(s, 14);
    assert(lower_seq(s) =~= lower_seq(column_table()[15].key));
    lemma_hit(s, 15);
    assert(trim_start(s) == s);
    assert(trim_end(s) == s);
}

proof fn lemma_key_16()
    ensures
        first_match(column_table()[16].key) == Some(16int),
        trim(column_table()[16].key) == column_table()[16].key,
        column_table()[16].key.len() > 0,
{
    reveal_strlit("status");
    reveal_strlit("invoice_type");
    reveal_strlit("发票类型");
    reveal_strlit("类型");
    reveal_strlit("票种");
    reveal_strlit("发票种类");
    reveal_strlit("invoice_code");
    reveal_strlit("发票代码");
    reveal_strlit("发票编码");
    reveal_strlit("代码");
    reveal_strlit("invoice_number");
    reveal_strlit("发票号码");
    reveal_strlit("发票号");
    reveal_strlit("号码");
    reveal_strlit("issue_date");
    reveal_strlit("开票日期");
    reveal_strlit("日期");
    reveal_strlit("时间");
    reveal_strlit("发票日期");
    reveal_strlit("seller_name");
    reveal_strlit("销售方");
    reveal_strlit("销方");
    reveal_strlit("供应商");
    reveal_strlit("商家");
    reveal_strlit("公司名称");
    reveal_strlit("seller_tax_id");
    reveal_strlit("销售方税号");
    reveal_strlit("销方税号");
    reveal_strlit("供应商税号");
    reveal_strlit("buyer_name");
    reveal_strlit("购买方");
    reveal_strlit("购方");
    reveal_strlit("买方");
    reveal_strlit("buyer_tax_id");
    reveal_strlit("购买方税号");
    reveal_strlit("购方税号");
    reveal_strlit("买方税号");
    reveal_strlit("currency");
    reveal_strlit("币种");
    reveal_strlit("货币");
    reveal_strlit("amount_without_tax");
    reveal_strlit("不含税金额");
    reveal_strlit("未税金额");
    reveal_strlit("金额不含税");
    reveal_strlit("tax_amount");
    reveal_strlit("税额");
    reveal_strlit("税金");
    reveal_strlit("total_amount");
    reveal_strlit("价税合计");
    reveal_strlit("总金额");
    reveal_strlit("金额");
    reveal_strlit("合计");
    reveal_strlit("含税金额");
    reveal_strlit("category");
    reveal_strlit("类别");
    reveal_strlit("分类");
    reveal_strlit("费用类别");
    reveal_strlit("remarks");
    reveal_strlit("备注");
    reveal_strlit("说明");
    reveal_strlit("发票内容");
    reveal_strlit("内容");
    reveal_strlit("source_page_range");
    reveal_strlit("页码范围");
    reveal_strlit("页码");
    reveal_strlit("confidence");
    reveal_strlit("置信度");
    reveal_strlit("识别置信度");
    let s = column_table()[16].key;
    assert(s == "status"@);
    assert(lower_seq("invoice_type"@).len() != lower_seq(s).len());
    assert(column_table()[0].label.len() != s.len());
    assert(column_table()[0].aliases[0].len() != s.len());
    assert(column_table()[0].aliases[1].len() != s.len());
    assert(column_table()[0].aliases[2].len() != s.len());
    assert(!column_matches(column_table()[0], s));
    lemma_skip(s, 0);
    assert(lower_seq("invoice_code"@).len() != lower_seq(s).len());
    assert(column_table()[1].label.len() != s.len());
    assert(column_table()[1].aliases[0].len() != s.len());
    assert(column_table()[1].aliases[1].len() != s.len());
    assert(!column_matches(column_table()[1], s));
    lemma_skip(s, 1);
    assert(lower_seq("invoice_number"@).len() != lower_seq(s).len());
    assert(column_table()[2].label.len() != s.len());
    assert(column_table()[2].aliases[0].len() != s.len());
    assert(column_table()[2].aliases[1].len() != s.len());
    assert(!column_matches(column_table()[2], s));
    lemma_skip(s, 2);
    assert(lower_seq("issue_date"@).len() != lower_seq(s).len());
    assert(column_table()[3].label.len() != s.len());
    assert(column_table()[3].aliases[0].len() != s.len());
    assert(column_table()[3].aliases[1].len() != s.len());
    assert(column_table()[3].aliases[2].len() != s.len());
    assert(!column_matches(column_table()[3], s));
    lemma_skip(s, 3);
    assert(lower_seq("seller_name"@).len() != lower_seq(s).len());
    assert(column_table()[4].label.len() != s.len());
    assert(column_table()[4].aliases[0].len() != s.len());
    assert(column_table()[4].aliases[1].len() != s.len());
    assert(column_table()[4].aliases[2].len() != s.len());
    assert(column_table()[4].aliases[3].len() != s.len());
    assert(!column_matches(column_table()[4], s));
    lemma_skip(s, 4);
    assert(lower_seq("seller_tax_id"@).len() != lower_seq(s).len());
    assert(column_table()[5].label.len() != s.len());
    assert(column_table()[5].aliases[0].len() != s.len());
    assert(column_table()[5].aliases[1].len() != s.len());
    assert(!column_matches(column_table()[5], s));
    lemma_skip(s, 5);
    assert(lower_seq("buyer_name"@).len() != lower_seq(s).len());
    assert(column_table()[6].label.len() != s.len());
    assert(column_table()[6].aliases[0].len() != s.len());
    assert(column_table()[6].aliases[1].len() != s.len());
    assert(!column_matches(column_table()[6], s));
    lemma_skip(s, 6);
    assert(lower_seq("buyer_tax_id"@).len() != lower_seq(s).len());
    assert(column_table()[7].label.len() != s.len());
    assert(column_table()[7].aliases[0].len() != s.len());
    assert(column_table()[7].aliases[1].len() != s.len());
    assert(!column_matches(column_table()[7], s));
    lemma_skip(s, 7);
    assert(lower_seq("currency"@).len() != lower_seq(s).len());
    assert(column_table()[8].label.len() != s.len());
    assert(column_table()[8].aliases[0].len() != s.len());
    assert(!column_matches(column_table()[8], s));
    lemma_skip(s, 8);
    assert(lower_seq("amount_without_tax"@).len() != lower_seq(s).len());
    assert(column_table()[9].label.len() != s.len());
    assert(column_table()[9].aliases[0].len() != s.len());
    assert(column_table()[9].aliases[1].len() != s.len());
    assert(!column_matches(column_table()[9], s));
    lemma_skip(s, 9);
    assert(lower_seq("tax_amount"@).len() != lower_seq(s).len());
    assert(column_table()[10].label.len() != s.len());
    assert(column_table()[10].aliases[0].len() != s.len());
    assert(!column_matches(column_table()[10], s));
    lemma_skip(s, 10);
    assert(lower_seq("total_amount"@).len() != lower_seq(s).len());
    assert(column_table()[11].label.len() != s.len());
    assert(column_table()[11].aliases[0].len() != s.len());
    assert(column_table()[11].aliases[1].len() != s.len());
    assert(column_table()[11].aliases[2].len() != s.len());
    assert(column_table()[11].aliases[3].len() != s.len());
    assert(!column_matches(column_table()[11], s));
    lemma_skip(s, 11);
    assert(lower_seq("category"@).len() != lower_seq(s).len());
    assert(column_table()[12].label.len() != s.len());
    assert(column_table()[12].aliases[0].len() != s.len());
    assert(column_table()[12].aliases[1].len() != s.len());
    assert(column_table()[12].aliases[2].len() != s.len());
    assert(!column_matches(column_table()[12], s));
    lemma_skip(s, 12);
    assert(lower_seq("remarks"@).len() != lower_seq(s).len());
    assert(column_table()[13].label.len() != s.len());
    assert(column_table()[13].aliases[0].len() != s.len());
    assert(column_table()[13].aliases[1].len() != s.len());
    assert(column_table()[13].aliases[2].len() != s.len());
    assert(!column_matches(column_table()[13], s));
    lemma_skip(s, 13);
    assert(lower_seq("source_page_range"@).len() != lower_seq(s).len());
    assert(column_table()[14].label.len() != s.len());
    assert(column_table()[14].aliases[0].len() != s.len());
    assert(!column_matches(column_table()[14], s));
    lemma_skip(s, 14);
    assert(lower_seq("confidence"@).len() != lower_seq(s).len());
    assert(column_table()[15].label.len() != s.len());
    assert(column_table()[15].aliases[0].len() != s.len());
    assert(!column_matches(column_table()[15], s));
    lemma_skip(s, 15);
    assert(lower_seq(s) =~= lower_seq(column_table()[16].key));
    lemma_hit(s, 16);
    assert(trim_start(s) == s);
    assert(trim_end(s) == s);
}

proof fn lemma_key_17()
    ensures
        first_match(column_table()[17].key) == Some(17int),
        trim(column_table()[17].key) == column_table()[17].key,
        column_table()[17].key.len() > 0,
{
    reveal_strlit("duplicate_status");
    reveal_strlit("invoice_type");
    reveal_strlit("发票类型");
    reveal_strlit("类型");
    reveal_strlit("票种");
    reveal_strlit("发票种类");
    reveal_strlit("invoice_code");
    reveal_strlit("发票代码");
    reveal_strlit("发票编码");
    reveal_strlit("代码");
    reveal_strlit("invoice_number");
    reveal_strlit("发票号码");
    reveal_strlit("发票号");
    reveal_strlit("号码");
    reveal_strlit("issue_date");
    reveal_strlit("开票日期");
    reveal_strlit("日期");
    reveal_strlit("时间");
    reveal_strlit("发票日期");
    reveal_strlit("seller_name");
    reveal_strlit("销售方");
    reveal_strlit("销方");
    reveal_strlit("供应商");
    reveal_strlit("商家");
    reveal_strlit("公司名称");
    reveal_strlit("seller_tax_id");
    reveal_strlit("销售方税号");
    reveal_strlit("销方税号");
    reveal_strlit("供应商税号");
    reveal_strlit("buyer_name");
    reveal_strlit("购买方");
    reveal_strlit("购方");
    reveal_strlit("买方");
    reveal_strlit("buyer_tax_id");
    reveal_strlit("购买方税号");
    reveal_strlit("购方税号");
    reveal_strlit("买方税号");
    reveal_strlit("currency");
    reveal_strlit("币种");
    reveal_strlit("货币");
    reveal_strlit("amount_without_tax");
    reveal_strlit("不含税金额");
    reveal_strlit("未税金额");
    reveal_strlit("金额不含税");
    reveal_strlit("tax_amount");
    reveal_strlit("税额");
    reveal_strlit("税金");
    reveal_strlit("total_amount");
    reveal_strlit("价税合计");
    reveal_strlit("总金额");
    reveal_strlit("金额");
    reveal_strlit("合计");
    reveal_strlit("含税金额");
    reveal_strlit("category");
    reveal_strlit("类别");
    reveal_strlit("分类");
    reveal_strlit("费用类别");
    reveal_strlit("remarks");
    reveal_strlit("备注");
    reveal_strlit("说明");
    reveal_strlit("发票内容");
    reveal_strlit("内容");
    reveal_strlit("source_page_range");
    reveal_strlit("页码范围");
    reveal_strlit("页码");
    reveal_strlit("confidence");
    reveal_strlit("置信度");
    reveal_strlit("识别置信度");
    reveal_strlit("status");
    reveal_strlit("状态");
    reveal_strlit("识别状态");
    let s = column_table()[17].key;
    assert(s == "duplicate_status"@);
    assert(lower_seq("invoice_type"@).len() != lower_seq(s).len());
    assert(column_table()[0].label.len() != s.len());
    assert(column_table()[0].aliases[0].len() != s.len());
    assert(column_table()[0].aliases[1].len() != s.len());
    assert(column_table()[0].aliases[2].len() != s.len());
    assert(!column_matches(column_table()[0], s));
    lemma_skip(s, 0);
    assert(lower_seq("invoice_code"@).len() != lower_seq(s).len());
    assert(column_table()[1].label.len() != s.len());
    assert(column_table()[1].aliases[0].len() != s.len());
    assert(column_table()[1].aliases[1].len() != s.len());
    assert(!column_matches(column_table()[1], s));
    lemma_skip(s, 1);
    assert(lower_seq("invoice_number"@).len() != lower_seq(s).len());
    assert(column_table()[2].label.len() != s.len());
    assert(column_table()[2].aliases[0].len() != s.len());
    assert(column_table()[2].aliases[1].len() != s.len());
    assert(!column_matches(column_table()[2], s));
    lemma_skip(s, 2);
    assert(lower_seq("issue_date"@).len() != lower_seq(s).len());
    assert(column_table()[3].label.len() != s.len());
    assert(column_table()[3].aliases[0].len() != s.len());
    assert(column_table()[3].aliases[1].len() != s.len());
    assert(column_table()[3].aliases[2].len() != s.len());
    assert(!column_matches(column_table()[3], s));
    lemma_skip(s, 3);
    assert(lower_seq("seller_name"@).len() != lower_seq(s).len());
    assert(column_table()[4].label.len() != s.len());
    assert(column_table()[4].aliases[0].len() != s.len());
    assert(column_table()[4].aliases[1].len() != s.len());
    assert(column_table()[4].aliases[2].len() != s.len());
    assert(column_table()[4].aliases[3].len() != s.len());
    assert(!column_matches(column_table()[4], s));
    lemma_skip(s, 4);
    assert(lower_seq("seller_tax_id"@).len() != lower_seq(s).len());
    assert(column_table()[5].label.len() != s.len());
    assert(column_table()[5].aliases[0].len() != s.len());
    assert(column_table()[5].aliases[1].len() != s.len());
    assert(!column_matches(column_table()[5], s));
    lemma_skip(s, 5);
    assert(lower_seq("buyer_name"@).len() != lower_seq(s).len());
    assert(column_table()[6].label.len() != s.len());
    assert(column_table()[6].aliases[0].len() != s.len());
    assert(column_table()[6].aliases[1].len() != s.len());
    assert(!column_matches(column_table()[6], s));
    lemma_skip(s, 6);
    assert(lower_seq("buyer_tax_id"@).len() != lower_seq(s).len());
    assert(column_table()[7].label.len() != s.len());
    assert(column_table()[7].aliases[0].len() != s.len());
    assert(column_table()[7].aliases[1].len() != s.len());
    assert(!column_matches(column_table()[7], s));
    lemma_skip(s, 7);
    assert(lower_seq("currency"@).len() != lower_seq(s).len());
    assert(column_table()[8].label.len() != s.len());
    assert(column_table()[8].aliases[0].len() != s.len());
    assert(!column_matches(column_table()[8], s));
    lemma_skip(s, 8);
    assert(lower_seq("amount_without_tax"@).len() != lower_seq(s).len());
    assert(column_table()[9].label.len() != s.len());
    assert(column_table()[9].aliases[0].len() != s.len());
    assert(column_table()[9].aliases[1].len() != s.len());
    assert(!column_matches(column_table()[9], s));
    lemma_skip(s, 9);
    assert(lower_seq("tax_amount"@).len() != lower_seq(s).len());
    assert(column_table()[10].label.len() != s.len());
    assert(column_table()[10].aliases[0].len() != s.len());
    assert(!column_matches(column_table()[10], s));
    lemma_skip(s, 10);
    assert(lower_seq("total_amount"@).len() != lower_seq(s).len());
    assert(column_table()[11].label.len() != s.len());
    assert(column_table()[11].aliases[0].len() != s.len());
    assert(column_table()[11].aliases[1].len() != s.len());
    assert(column_table()[11].aliases[2].len() != s.len());
    assert(column_table()[11].aliases[3].len() != s.len());
    assert(!column_matches(column_table()[11], s));
    lemma_skip(s, 11);
    assert(lower_seq("category"@).len() != lower_seq(s).len());
    assert(column_table()[12].label.len() != s.len());
    assert(column_table()[12].aliases[0].len() != s.len());
    assert(column_table()[12].aliases[1].len() != s.len());
    assert(column_table()[12].aliases[2].len() != s.len());
    assert(!column_matches(column_table()[12], s));
    lemma_skip(s, 12);
    assert(lower_seq("remarks"@).len() != lower_seq(s).len());
    assert(column_table()[13].label.len() != s.len());
    assert(column_table()[13].aliases[0].len() != s.len());
    assert(column_table()[13].aliases[1].len() != s.len());
    assert(column_table()[13].aliases[2].len() != s.len());
    assert(!column_matches(column_table()[13], s));
    lemma_skip(s, 13);
    assert(lower_seq("source_page_range"@).len() != lower_seq(s).len());
    assert(column_table()[14].label.len() != s.len());
    assert(column_table()[14].aliases[0].len() != s.len());
    assert(!column_matches(column_table()[14], s));
    lemma_skip(s, 14);
    assert(lower_seq("confidence"@).len() != lower_seq(s).len());
    assert(column_table()[15].label.len() != s.len());
    assert(column_table()[15].aliases[0].len() != s.len());
    assert(!column_matches(column_table()[15], s));
    lemma_skip(s, 15);
    assert(lower_seq("status"@).len() != lower_seq(s).len());
    assert(column_table()[16].label.len() != s.len());
    assert(column_table()[16].aliases[0].len() != s.len());
    assert(!column_matches(column_table()[16], s));
    lemma_skip(s, 16);
    assert(lower_seq(s) =~= lower_seq(column_table()[17].key));
    lemma_hit(s, 17);
    assert(trim_start(s) == s);
    assert(trim_end(s) == s);
}

proof fn lemma_key_18()
    ensures
        first_match(column_table()[18].key) == Some(18int),
        trim(column_table()[18].key) == column_table()[18].key,
        column_table()[18].key.len() > 0,
{
    reveal_strlit("created_at");
    reveal_strlit("invoice_type");
    reveal_strlit("发票类型");
    reveal_strlit("类型");
    reveal_strlit("票种");
    reveal_strlit("发票种类");
    reveal_strlit("invoice_code");
    reveal_strlit("发票代码");
    reveal_strlit("发票编码");
    reveal_strlit("代码");
    reveal_strlit("invoice_number");
    reveal_strlit("发票号码");
    reveal_strlit("发票号");
    reveal_strlit("号码");
    reveal_strlit("issue_date");
    reveal_strlit("开票日期");
    reveal_strlit("日期");
    reveal_strlit("时间");
    reveal_strlit("发票日期");
    reveal_strlit("seller_name");
    reveal_strlit("销售方");
    reveal_strlit("销方");
    reveal_strlit("供应商");
    reveal_strlit("商家");
    reveal_strlit("公司名称");
    reveal_strlit("seller_tax_id");
    reveal_strlit("销售方税号");
    reveal_strlit("销方税号");
    reveal_strlit("供应商税号");
    reveal_strlit("buyer_name");
    reveal_strlit("购买方");
    reveal_strlit("购方");
    reveal_strlit("买方");
    reveal_strlit("buyer_tax_id");
    reveal_strlit("购买方税号");
    reveal_strlit("购方税号");
    reveal_strlit("买方税号");
    reveal_strlit("currency");
    reveal_strlit("币种");
    reveal_strlit("货币");
    reveal_strlit("amount_without_tax");
    reveal_strlit("不含税金额");
    reveal_strlit("未税金额");
    reveal_strlit("金额不含税");
    reveal_strlit("tax_amount");
    reveal_strlit("税额");
    reveal_strlit("税金");
    reveal_strlit("total_amount");
    reveal_strlit("价税合计");
    reveal_strlit("总金额");
    reveal_strlit("金额");
    reveal_strlit("合计");
    reveal_strlit("含税金额");
    reveal_strlit("category");
    reveal_strlit("类别");
    reveal_strlit("分类");
    reveal_strlit("费用类别");
    reveal_strlit("remarks");
    reveal_strlit("备注");
    reveal_strlit("说明");
    reveal_strlit("发票内容");
    reveal_strlit("内容");
    reveal_strlit("source_page_range");
    reveal_strlit("页码范围");
    reveal_strlit("页码");
    reveal_strlit("confidence");
    reveal_strlit("置信度");
    reveal_strlit("识别置信度");
    reveal_strlit("status");
    reveal_strlit("状态");
    reveal_strlit("识别状态");
    reveal_strlit("duplicate_status");
    reveal_strlit("重复状态");
    reveal_strlit("是否重复");
    let s = column_table()[18].key;
    assert(s == "created_at"@);
    assert(lower_seq("invoice_type"@).len() != lower_seq(s).len());
    assert(column_table()[0].label.len() != s.len());
    assert(column_table()[0].aliases[0].len() != s.len());
    assert(column_table()[0].aliases[1].len() != s.len());
    assert(column_table()[0].aliases[2].len() != s.len());
    assert(!column_matches(column_table()[0], s));
    lemma_skip(s, 0);
    assert(lower_seq("invoice_code"@).len() != lower_seq(s).len());
    assert(column_table()[1].label.len() != s.len());
    assert(column_table()[1].aliases[0].len() != s.len());
    assert(column_table()[1].aliases[1].len() != s.len());
    assert(!column_matches(column_table()[1], s));
    lemma_skip(s, 1);
    assert(lower_seq("invoice_number"@).len() != lower_seq(s).len());
    assert(column_table()[2].label.len() != s.len());
    assert(column_table()[2].aliases[0].len() != s.len());
    assert(column_table()[2].aliases[1].len() != s.len());
    assert(!column_matches(column_table()[2], s));
    lemma_skip(s, 2);
    lemma_lower_differs("issue_date"@, s, 0);
    assert(column_table()[3].label.len() != s.len());
    assert(column_table()[3].aliases[0].len() != s.len());
    assert(column_table()[3].aliases[1].len() != s.len());
    assert(column_table()[3].aliases[2].len() != s.len());
    assert(!column_matches(column_table()[3], s));
    lemma_skip(s, 3);
    assert(lower_seq("seller_name"@).len() != lower_seq(s).len());
    assert(column_table()[4].label.len() != s.len());
    assert(column_table()[4].aliases[0].len() != s.len());
    assert(column_table()[4].aliases[1].len() != s.len());
    assert(column_table()[4].aliases[2].len() != s.len());
    assert(column_table()[4].aliases[3].len() != s.len());
    assert(!column_matches(column_table()[4], s));
    lemma_skip(s, 4);
    assert(lower_seq("seller_tax_id"@).len() != lower_seq(s).len());
    assert(column_table()[5].label.len() != s.len());
    assert(column_table()[5].aliases[0].len() != s.len());
    assert(column_table()[5].aliases[1].len() != s.len());
    assert(!column_matches(column_table()[5], s));
    lemma_skip(s, 5);
    lemma_lower_differs("buyer_name"@, s, 0);
    assert(column_table()[6].label.len() != s.len());
    assert(column_table()[6].aliases[0].len() != s.len());
    assert(column_table()[6].aliases[1].len() != s.len());
    assert(!column_matches(column_table()[6], s));
    lemma_skip(s, 6);
    assert(lower_seq("buyer_tax_id"@).len() != lower_seq(s).len());
    assert(column_table()[7].label.len() != s.len());
    assert(column_table()[7].aliases[0].len() != s.len());
    assert(column_table()[7].aliases[1].len() != s.len());
    assert(!column_matches(column_table()[7], s));
    lemma_skip(s, 7);
    assert(lower_seq("currency"@).len() != lower_seq(s).len());
    assert(column_table()[8].label.len() != s.len());
    assert(column_table()[8].aliases[0].len() != s.len());
    assert(!column_matches(column_table()[8], s));
    lemma_skip(s, 8);
    assert(lower_seq("amount_without_tax"@).len() != lower_seq(s).len());
    assert(column_table()[9].label.len() != s.len());
    assert(column_table()[9].aliases[0].len() != s.len());
    assert(column_table()[9].aliases[1].len() != s.len());
    assert(!column_matches(column_table()[9], s));
    lemma_skip(s, 9);
    lemma_lower_differs("tax_amount"@, s, 0);
    assert(column_table()[10].label.len() != s.len());
    assert(column_table()[10].aliases[0].len() != s.len());
    assert(!column_matches(column_table()[10], s));
    lemma_skip(s, 10);
    assert(lower_seq("total_amount"@).len() != lower_seq(s).len());
    assert(column_table()[11].label.len() != s.len());
    assert(column_table()[11].aliases[0].len() != s.len());
    assert(column_table()[11].aliases[1].len() != s.len());
    assert(column_table()[11].aliases[2].len() != s.len());
    assert(column_table()[11].aliases[3].len() != s.len());
    assert(!column_matches(column_table()[11], s));
    lemma_skip(s, 11);
    assert(lower_seq("category"@).len() != lower_seq(s).len());
    assert(column_table()[12].label.len() != s.len());
    assert(column_table()[12].aliases[0].len() != s.len());
    assert(column_table()[12].aliases[1].len() != s.len());
    assert(column_table()[12].aliases[2].len() != s.len());
    assert(!column_matches(column_table()[12], s));
    lemma_skip(s, 12);
    assert(lower_seq("remarks"@).len() != lower_seq(s).len());
    assert(column_table()[13].label.len() != s.len());
    assert(column_table()[13].aliases[0].len() != s.len());
    assert(column_table()[13].aliases[1].len() != s.len());
    assert(column_table()[13].aliases[2].len() != s.len());
    assert(!column_matches(column_table()[13], s));
    lemma_skip(s, 13);
    assert(lower_seq("source_page_range"@).len() != lower_seq(s).len());
    assert(column_table()[14].label.len() != s.len());
    assert(column_table()[14].aliases[0].len() != s.len());
    assert(!column_matches(column_table()[14], s));
    lemma_skip(s, 14);
    lemma_lower_differs("confidence"@, s, 1);
    assert(column_table()[15].label.len() != s.len());
    assert(column_table()[15].aliases[0].len() != s.len());
    assert(!column_matches(column_table()[15], s));
    lemma_skip(s, 15);
    assert(lower_seq("status"@).len() != lower_seq(s).len());
    assert(column_table()[16].label.len() != s.len());
    assert(column_table()[16].aliases[0].len() != s.len());
    assert(!column_matches(column_table()[16], s));
    lemma_skip(s, 16);
    assert(lower_seq("duplicate_status"@).len() != lower_seq(s).len());
    assert(column_table()[17].label.len() != s.len());
    assert(column_table()[17].aliases[0].len() != s.len());
    assert(!column_matches(column_table()[17], s));
    lemma_skip(s, 17);
    assert(lower_seq(s) =~= lower_seq(column_table()[18].key));
    lemma_hit(s, 18);
    assert(trim_start(s) == s);
    assert(trim_end(s) == s);
}

/// Every key of the column table, taken as a label, is already trimmed and
/// names its own column first.
pub proof fn lemma_keys_resolve_to_themselves(j: int)
    requires
        0 <= j < column_table().len(),
    ensures
        first_match(column_table()[j].key) == Some(j),
        trim(column_table()[j].key) == column_table()[j].key,
        column_table()[j].key.len() > 0,
{
    if j == 0 {
        lemma_key_0();
    } else if j == 1 {
        lemma_key_1();
    } else if j == 2 {
        lemma_key_2();
    } else if j == 3 {
        lemma_key_3();
    } else if j == 4 {
        lemma_key_4();
    } else if j == 5 {
        lemma_key_5();
    } else if j == 6 {
        lemma_key_6();
    } else if j == 7 {
        lemma_key_7();
    } else if j == 8 {
        lemma_key_8();
    } else if j == 9 {
        lemma_key_9();
    } else if j == 10 {
        lemma_key_10();
    } else if j == 11 {
        lemma_key_11();
    } else if j == 12 {
        lemma_key_12();
    } else if j == 13 {
        lemma_key_13();
    } else if j == 14 {
        lemma_key_14();
    } else if j == 15 {
        lemma_key_15();
    } else if j == 16 {
        lemma_key_16();
    } else if j == 17 {
        lemma_key_17();
    } else if j == 18 {
        lemma_key_18();
    }
}

/// Each (position, key) pair of the label matcher names a label of the
/// list, and that label alone resolves to that key: the key is the export
/// column named by that header cell.
pub proof fn law_matched_pairs_resolve_alone(labels: Seq<Seq<char>>)
    ensures
        forall|k: int|
            0 <= k < matched_pairs(labels).len() ==> {
                let p = #[trigger] matched_pairs(labels)[k];
                &&& 0 <= p.0 < labels.len()
                &&& resolved_keys(seq![labels[p.0]]) == seq![p.1]
            },
    decreases labels.len(),
{
    if labels.len() > 0 {
        let rest = labels.drop_last();
        law_matched_pairs_resolve_alone(rest);
        let prev = matched_pairs(rest);
        let t = trim(labels.last());
        let one = seq![labels.last()];
        assert(one.drop_last() =~= Seq::<Seq<char>>::empty());
        assert(one.last() == labels.last());
        assert forall|k: int| 0 <= k < matched_pairs(labels).len() implies {
            let p = #[trigger] matched_pairs(labels)[k];
            &&& 0 <= p.0 < labels.len()
            &&& resolved_keys(seq![labels[p.0]]) == seq![p.1]
        } by {
            if k < prev.len() {
                let p = prev[k];
                assert(matched_pairs(labels)[k] == p);
                assert(rest[p.0] == labels[p.0]);
            } else {
                let p = matched_pairs(labels)[k];
                assert(t.len() > 0);
                let i = first_match(t)->0;
                assert(p == (labels.len() - 1, column_table()[i].key));
                assert(labels[p.0] == labels.last());
                assert(resolved_keys(Seq::<Seq<char>>::empty()) =~= Seq::<Seq<char>>::empty());
                assert(resolved_keys(one) =~= seq![p.1]);
            }
        }
    }
}

/// Resolving labels never gives more keys than labels, and resolving the
/// resolved keys again gives them back unchanged.
pub proof fn law_resolved_keys_bounded_and_stable(labels: Seq<Seq<char>>)
    ensures
        resolved_keys(labels).len() <= labels.len(),
        resolved_keys(resolved_keys(labels)) == resolved_keys(labels),
    decreases labels.len(),
{
    if labels.len() > 0 {
        let rest = labels.drop_last();
        law_resolved_keys_bounded_and_stable(rest);
        let prev = resolved_keys(rest);
        let t = trim(labels.last());
        if t.len() > 0 {
            match first_match(t) {
                Some(i) => {
                    if !prev.contains(column_table()[i].key) {
                        lemma_first_match_from(t, 0);
                        lemma_keys_resolve_to_themselves(i);
                        let r = prev.push(column_table()[i].key);
                        assert(r.drop_last() =~= prev);
                        assert(r.last() == column_table()[i].key);
                        assert(resolved_keys(r) =~= r);
                    }
                },
                None => {},
            }
        }
    }
}

} // verus!
