//! Invoice search and statistics queries: the filter clauses with their
//! numbered placeholders and bound values, the sort order, paging, the
//! issue-date filter of the dashboard and the date filter of usage
//! statistics.
use vstd::prelude::*;

use crate::sql::{join, join_strings, values_view, SqlValue, SqlValueView};
use crate::text::{chars_eq_str, chars_of, dec, push_str, push_usize, string_from_chars};
use crate::xlsx::string_views;

verus! {

/// The filters, sorting and page of an invoice search.
pub struct InvoiceSearchParams {
    pub query: Option<String>,
    pub invoice_type: Option<String>,
    pub seller_name: Option<String>,
    pub buyer_name: Option<String>,
    pub invoice_number: Option<String>,
    pub date_from: Option<String>,
    pub date_to: Option<String>,
    pub amount_min: Option<String>,
    pub amount_max: Option<String>,
    pub category: Option<String>,
    pub status: Option<String>,
    pub duplicate_status: Option<String>,
    pub sort_by: Option<String>,
    pub sort_order: Option<String>,
    pub page: Option<i64>,
    pub page_size: Option<i64>,
}

pub open spec fn ostr(o: Option<String>) -> Option<Seq<char>> {
    match o {
        Some(s) => Some(s@),
        None => None,
    }
}

/// `prefix`, the placeholder number `n`, then `suffix`.
pub open spec fn numbered(prefix: Seq<char>, n: nat, suffix: Seq<char>) -> Seq<char> {
    prefix + dec(n) + suffix
}

/// `%v%`: the pattern of a substring match.
pub open spec fn like_pattern(v: Seq<char>) -> Seq<char> {
    "%"@ + v + "%"@
}

/// The clauses and bound values built so far.
pub type FilterState = (Seq<Seq<char>>, Seq<SqlValueView>);

/// Adds `prefix ?n suffix` for a present value, binding it (as a substring
/// pattern when `like`) to the next placeholder.
pub open spec fn add_filter(
    st: (Seq<Seq<char>>, Seq<SqlValueView>),
    v: Option<Seq<char>>,
    prefix: Seq<char>,
    suffix: Seq<char>,
    like: bool,
) -> (Seq<Seq<char>>, Seq<SqlValueView>) {
    match v {
        Some(x) => (
            st.0.push(numbered(prefix, st.1.len() + 1, suffix)),
            st.1.push(SqlValueView::Text(if like { like_pattern(x) } else { x })),
        ),
        None => st,
    }
}

/// The free-text clause: one placeholder, matched against four columns.
pub open spec fn query_clause(n: nat) -> Seq<char> {
    "(seller_name LIKE ?"@ + dec(n) + " OR buyer_name LIKE ?"@ + dec(n) + " OR invoice_number LIKE ?"@
        + dec(n) + " OR invoice_code LIKE ?"@ + dec(n) + ")"@
}

pub open spec fn add_query(st: (Seq<Seq<char>>, Seq<SqlValueView>), q: Option<Seq<char>>) -> (
    Seq<Seq<char>>,
    Seq<SqlValueView>,
) {
    match q {
        Some(x) => (
            st.0.push(query_clause(st.1.len() + 1)),
            st.1 + seq![
                SqlValueView::Text(like_pattern(x)),
                SqlValueView::Text(like_pattern(x)),
                SqlValueView::Text(like_pattern(x)),
                SqlValueView::Text(like_pattern(x)),
            ],
        ),
        None => st,
    }
}

/// The clauses and values of a search, in the order of the filters.
pub open spec fn search_filters(p: InvoiceSearchParams) -> (Seq<Seq<char>>, Seq<SqlValueView>) {
    let s0 = add_query((Seq::empty(), Seq::empty()), ostr(p.query));
    let s1 = add_filter(s0, ostr(p.invoice_type), "invoice_type = ?"@, Seq::empty(), false);
    let s2 = add_filter(s1, ostr(p.seller_name), "seller_name LIKE ?"@, Seq::empty(), true);
    let s3 = add_filter(s2, ostr(p.buyer_name), "buyer_name LIKE ?"@, Seq::empty(), true);
    let s4 = add_filter(s3, ostr(p.invoice_number), "invoice_number LIKE ?"@, Seq::empty(), true);
    let s5 = add_filter(s4, ostr(p.date_from), "issue_date >= ?"@, Seq::empty(), false);
    let s6 = add_filter(s5, ostr(p.date_to), "issue_date <= ?"@, Seq::empty(), false);
    let s7 = add_filter(
        s6,
        ostr(p.amount_min),
        "CAST(total_amount AS REAL) >= CAST(?"@,
        " AS REAL)"@,
        false,
    );
    let s8 = add_filter(
        s7,
        ostr(p.amount_max),
        "CAST(total_amount AS REAL) <= CAST(?"@,
        " AS REAL)"@,
        false,
    );
    let s9 = add_filter(s8, ostr(p.category), "category LIKE ?"@, Seq::empty(), true);
    let s10 = add_filter(s9, ostr(p.status), "status = ?"@, Seq::empty(), false);
    add_filter(s10, ostr(p.duplicate_status), "duplicate_status = ?"@, Seq::empty(), false)
}

proof fn lemma_add_filter_extends(
    st: (Seq<Seq<char>>, Seq<SqlValueView>),
    v: Option<Seq<char>>,
    prefix: Seq<char>,
    suffix: Seq<char>,
    like: bool,
)
    ensures
        ({
            let r = add_filter(st, v, prefix, suffix, like);
            &&& r.0.len() >= st.0.len()
            &&& r.1.len() >= st.1.len()
            &&& forall|k: int| 0 <= k < st.0.len() ==> r.0[k] == st.0[k]
            &&& forall|k: int| 0 <= k < st.1.len() ==> r.1[k] == st.1[k]
        }),
{
}

/// The clause that keeps invoices totalling at least the `n`-th value.
pub open spec fn amount_at_least(n: nat) -> Seq<char> {
    "CAST(total_amount AS REAL) >= CAST(?"@ + dec(n) + " AS REAL)"@
}

/// The clause that keeps invoices totalling at most the `n`-th value.
pub open spec fn amount_at_most(n: nat) -> Seq<char> {
    "CAST(total_amount AS REAL) <= CAST(?"@ + dec(n) + " AS REAL)"@
}

/// The amount filters bound the total from the side their names say: a
/// minimum adds a clause `total >= ?n` and a maximum a clause `total <= ?m`,
/// each with the given amount bound to its own placeholder; without them no
/// such clause appears.
pub proof fn law_amount_filters_bound_the_total(p: InvoiceSearchParams)
    ensures
        ({
            let f = search_filters(p);
            &&& (ostr(p.amount_min) matches Some(x) ==> exists|k: int, n: nat|
                0 <= k < f.0.len() && 1 <= n <= f.1.len() && f.0[k] == amount_at_least(n) && f.1[n - 1]
                    == SqlValueView::Text(x))
            &&& (ostr(p.amount_max) matches Some(x) ==> exists|k: int, n: nat|
                0 <= k < f.0.len() && 1 <= n <= f.1.len() && f.0[k] == amount_at_most(n) && f.1[n - 1]
                    == SqlValueView::Text(x))
        }),
{
    let s0 = add_query((Seq::empty(), Seq::empty()), ostr(p.query));
    let s1 = add_filter(s0, ostr(p.invoice_type), "invoice_type = ?"@, Seq::empty(), false);
    let s2 = add_filter(s1, ostr(p.seller_name), "seller_name LIKE ?"@, Seq::empty(), true);
    let s3 = add_filter(s2, ostr(p.buyer_name), "buyer_name LIKE ?"@, Seq::empty(), true);
    let s4 = add_filter(s3, ostr(p.invoice_number), "invoice_number LIKE ?"@, Seq::empty(), true);
    let s5 = add_filter(s4, ostr(p.date_from), "issue_date >= ?"@, Seq::empty(), false);
    let s6 = add_filter(s5, ostr(p.date_to), "issue_date <= ?"@, Seq::empty(), false);
    let s7 = add_filter(s6, ostr(p.amount_min), "CAST(total_amount AS REAL) >= CAST(?"@, " AS REAL)"@, false);
    let s8 = add_filter(s7, ostr(p.amount_max), "CAST(total_amount AS REAL) <= CAST(?"@, " AS REAL)"@, false);
    let s9 = add_filter(s8, ostr(p.category), "category LIKE ?"@, Seq::empty(), true);
    let s10 = add_filter(s9, ostr(p.status), "status = ?"@, Seq::empty(), false);
    let s11 = add_filter(s10, ostr(p.duplicate_status), "duplicate_status = ?"@, Seq::empty(), false);
    let f = search_filters(p);
    assert(f == s11);
    lemma_add_filter_extends(s7, ostr(p.amount_max), "CAST(total_amount AS REAL) <= CAST(?"@, " AS REAL)"@, false);
    lemma_add_filter_extends(s8, ostr(p.category), "category LIKE ?"@, Seq::empty(), true);
    lemma_add_filter_extends(s9, ostr(p.status), "status = ?"@, Seq::empty(), false);
    lemma_add_filter_extends(s10, ostr(p.duplicate_status), "duplicate_status = ?"@, Seq::empty(), false);
    if let Some(x) = ostr(p.amount_min) {
        let k = s6.0.len() as int;
        let n = (s6.1.len() + 1) as nat;
        assert(s7.0[k] == amount_at_least(n));
        assert(s7.1[n - 1] == SqlValueView::Text(x));
        assert(s8.0[k] == amount_at_least(n) && s8.1[n - 1] == SqlValueView::Text(x));
        assert(s9.0[k] == amount_at_least(n) && s9.1[n - 1] == SqlValueView::Text(x));
        assert(s10.0[k] == amount_at_least(n) && s10.1[n - 1] == SqlValueView::Text(x));
        assert(f.0[k] == amount_at_least(n) && f.1[n - 1] == SqlValueView::Text(x));
    }
    if let Some(x) = ostr(p.amount_max) {
        let k = s7.0.len() as int;
        let n = (s7.1.len() + 1) as nat;
        assert(s8.0[k] == amount_at_most(n));
        assert(s8.1[n - 1] == SqlValueView::Text(x));
        assert(s9.0[k] == amount_at_most(n) && s9.1[n - 1] == SqlValueView::Text(x));
        assert(s10.0[k] == amount_at_most(n) && s10.1[n - 1] == SqlValueView::Text(x));
        assert(f.0[k] == amount_at_most(n) && f.1[n - 1] == SqlValueView::Text(x));
    }
}

/// The `n`-th value is bound and some clause is `prefix ?n suffix`.
#[verifier::opaque]
pub open spec fn binds(
    f: (Seq<Seq<char>>, Seq<SqlValueView>),
    prefix: Seq<char>,
    suffix: Seq<char>,
    value: SqlValueView,
) -> bool {
    exists|k: int, n: nat|
        0 <= k < f.0.len() && 1 <= n <= f.1.len() && #[trigger] f.0[k] == prefix + dec(n) + suffix
            && #[trigger] f.1[n - 1] == value
}

proof fn lemma_filter_binds(
    st: (Seq<Seq<char>>, Seq<SqlValueView>),
    v: Option<Seq<char>>,
    prefix: Seq<char>,
    suffix: Seq<char>,
    like: bool,
)
    ensures
        v matches Some(x) ==> binds(
            add_filter(st, v, prefix, suffix, like),
            prefix,
            suffix,
            SqlValueView::Text(if like { like_pattern(x) } else { x }),
        ),
{
    reveal(binds);
    if let Some(x) = v {
        let f = add_filter(st, v, prefix, suffix, like);
        let k = st.0.len() as int;
        let n = (st.1.len() + 1) as nat;
        assert(f.0[k] == prefix + dec(n) + suffix);
        assert(f.1[n - 1] == SqlValueView::Text(if like { like_pattern(x) } else { x }));
    }
}

proof fn lemma_binds_kept(
    st: (Seq<Seq<char>>, Seq<SqlValueView>),
    v: Option<Seq<char>>,
    prefix: Seq<char>,
    suffix: Seq<char>,
    like: bool,
    bp: Seq<char>,
    bs: Seq<char>,
    bv: SqlValueView,
)
    requires
        binds(st, bp, bs, bv),
    ensures
        binds(add_filter(st, v, prefix, suffix, like), bp, bs, bv),
{
    reveal(binds);
    let (k, n) = choose|k: int, n: nat|
        0 <= k < st.0.len() && 1 <= n <= st.1.len() && #[trigger] st.0[k] == bp + dec(n) + bs
            && #[trigger] st.1[n - 1] == bv;
    let f = add_filter(st, v, prefix, suffix, like);
    assert(f.0[k] == bp + dec(n) + bs && f.1[n - 1] == bv);
}

/// Each filter of a search binds its own value to a clause of its own
/// meaning: the type, status and duplicate status by equality; the seller,
/// buyer, number and category by a substring pattern; the dates from below
/// (`issue_date >= ?`) and above (`issue_date <= ?`); the amounts from
/// below and above as numbers.
pub proof fn law_filters_bind_their_values(p: InvoiceSearchParams)
    ensures
        ({
            let f = search_filters(p);
            &&& (ostr(p.invoice_type) matches Some(x) ==> binds(f, "invoice_type = ?"@, Seq::<char>::empty(), SqlValueView::Text(x)))
            &&& (ostr(p.seller_name) matches Some(x) ==> binds(f, "seller_name LIKE ?"@, Seq::<char>::empty(), SqlValueView::Text(like_pattern(x))))
            &&& (ostr(p.buyer_name) matches Some(x) ==> binds(f, "buyer_name LIKE ?"@, Seq::<char>::empty(), SqlValueView::Text(like_pattern(x))))
            &&& (ostr(p.invoice_number) matches Some(x) ==> binds(f, "invoice_number LIKE ?"@, Seq::<char>::empty(), SqlValueView::Text(like_pattern(x))))
            &&& (ostr(p.date_from) matches Some(x) ==> binds(f, "issue_date >= ?"@, Seq::<char>::empty(), SqlValueView::Text(x)))
            &&& (ostr(p.date_to) matches Some(x) ==> binds(f, "issue_date <= ?"@, Seq::<char>::empty(), SqlValueView::Text(x)))
            &&& (ostr(p.amount_min) matches Some(x) ==> binds(f, "CAST(total_amount AS REAL) >= CAST(?"@, " AS REAL)"@, SqlValueView::Text(x)))
            &&& (ostr(p.amount_max) matches Some(x) ==> binds(f, "CAST(total_amount AS REAL) <= CAST(?"@, " AS REAL)"@, SqlValueView::Text(x)))
            &&& (ostr(p.category) matches Some(x) ==> binds(f, "category LIKE ?"@, Seq::<char>::empty(), SqlValueView::Text(like_pattern(x))))
            &&& (ostr(p.status) matches Some(x) ==> binds(f, "status = ?"@, Seq::<char>::empty(), SqlValueView::Text(x)))
            &&& (ostr(p.duplicate_status) matches Some(x) ==> binds(f, "duplicate_status = ?"@, Seq::<char>::empty(), SqlValueView::Text(x)))
        }),
{
    let s0 = add_query((Seq::empty(), Seq::empty()), ostr(p.query));
    let s1 = add_filter(s0, ostr(p.invoice_type), "invoice_type = ?"@, Seq::<char>::empty(), false);
    let s2 = add_filter(s1, ostr(p.seller_name), "seller_name LIKE ?"@, Seq::<char>::empty(), true);
    let s3 = add_filter(s2, ostr(p.buyer_name), "buyer_name LIKE ?"@, Seq::<char>::empty(), true);
    let s4 = add_filter(s3, ostr(p.invoice_number), "invoice_number LIKE ?"@, Seq::<char>::empty(), true);
    let s5 = add_filter(s4, ostr(p.date_from), "issue_date >= ?"@, Seq::<char>::empty(), false);
    let s6 = add_filter(s5, ostr(p.date_to), "issue_date <= ?"@, Seq::<char>::empty(), false);
    let s7 = add_filter(s6, ostr(p.amount_min), "CAST(total_amount AS REAL) >= CAST(?"@, " AS REAL)"@, false);
    let s8 = add_filter(s7, ostr(p.amount_max), "CAST(total_amount AS REAL) <= CAST(?"@, " AS REAL)"@, false);
    let s9 = add_filter(s8, ostr(p.category), "category LIKE ?"@, Seq::<char>::empty(), true);
    let s10 = add_filter(s9, ostr(p.status), "status = ?"@, Seq::<char>::empty(), false);
    let s11 = add_filter(s10, ostr(p.duplicate_status), "duplicate_status = ?"@, Seq::<char>::empty(), false);
    assert(search_filters(p) == s11);
    if let Some(x) = ostr(p.invoice_type) {
        lemma_filter_binds(s0, ostr(p.invoice_type), "invoice_type = ?"@, Seq::<char>::empty(), false);
        lemma_binds_kept(s1, ostr(p.seller_name), "seller_name LIKE ?"@, Seq::<char>::empty(), true, "invoice_type = ?"@, Seq::<char>::empty(), SqlValueView::Text(x));
        lemma_binds_kept(s2, ostr(p.buyer_name), "buyer_name LIKE ?"@, Seq::<char>::empty(), true, "invoice_type = ?"@, Seq::<char>::empty(), SqlValueView::Text(x));
        lemma_binds_kept(s3, ostr(p.invoice_number), "invoice_number LIKE ?"@, Seq::<char>::empty(), true, "invoice_type = ?"@, Seq::<char>::empty(), SqlValueView::Text(x));
        lemma_binds_kept(s4, ostr(p.date_from), "issue_date >= ?"@, Seq::<char>::empty(), false, "invoice_type = ?"@, Seq::<char>::empty(), SqlValueView::Text(x));
        lemma_binds_kept(s5, ostr(p.date_to), "issue_date <= ?"@, Seq::<char>::empty(), false, "invoice_type = ?"@, Seq::<char>::empty(), SqlValueView::Text(x));
        lemma_binds_kept(s6, ostr(p.amount_min), "CAST(total_amount AS REAL) >= CAST(?"@, " AS REAL)"@, false, "invoice_type = ?"@, Seq::<char>::empty(), SqlValueView::Text(x));
        lemma_binds_kept(s7, ostr(p.amount_max), "CAST(total_amount AS REAL) <= CAST(?"@, " AS REAL)"@, false, "invoice_type = ?"@, Seq::<char>::empty(), SqlValueView::Text(x));
        lemma_binds_kept(s8, ostr(p.category), "category LIKE ?"@, Seq::<char>::empty(), true, "invoice_type = ?"@, Seq::<char>::empty(), SqlValueView::Text(x));
        lemma_binds_kept(s9, ostr(p.status), "status = ?"@, Seq::<char>::empty(), false, "invoice_type = ?"@, Seq::<char>::empty(), SqlValueView::Text(x));
        lemma_binds_kept(s10, ostr(p.duplicate_status), "duplicate_status = ?"@, Seq::<char>::empty(), false, "invoice_type = ?"@, Seq::<char>::empty(), SqlValueView::Text(x));
    }
    if let Some(x) = ostr(p.seller_name) {
        lemma_filter_binds(s1, ostr(p.seller_name), "seller_name LIKE ?"@, Seq::<char>::empty(), true);
        lemma_binds_kept(s2, ostr(p.buyer_name), "buyer_name LIKE ?"@, Seq::<char>::empty(), true, "seller_name LIKE ?"@, Seq::<char>::empty(), SqlValueView::Text(like_pattern(x)));
        lemma_binds_kept(s3, ostr(p.invoice_number), "invoice_number LIKE ?"@, Seq::<char>::empty(), true, "seller_name LIKE ?"@, Seq::<char>::empty(), SqlValueView::Text(like_pattern(x)));
        lemma_binds_kept(s4, ostr(p.date_from), "issue_date >= ?"@, Seq::<char>::empty(), false, "seller_name LIKE ?"@, Seq::<char>::empty(), SqlValueView::Text(like_pattern(x)));
        lemma_binds_kept(s5, ostr(p.date_to), "issue_date <= ?"@, Seq::<char>::empty(), false, "seller_name LIKE ?"@, Seq::<char>::empty(), SqlValueView::Text(like_pattern(x)));
        lemma_binds_kept(s6, ostr(p.amount_min), "CAST(total_amount AS REAL) >= CAST(?"@, " AS REAL)"@, false, "seller_name LIKE ?"@, Seq::<char>::empty(), SqlValueView::Text(like_pattern(x)));
        lemma_binds_kept(s7, ostr(p.amount_max), "CAST(total_amount AS REAL) <= CAST(?"@, " AS REAL)"@, false, "seller_name LIKE ?"@, Seq::<char>::empty(), SqlValueView::Text(like_pattern(x)));
        lemma_binds_kept(s8, ostr(p.category), "category LIKE ?"@, Seq::<char>::empty(), true, "seller_name LIKE ?"@, Seq::<char>::empty(), SqlValueView::Text(like_pattern(x)));
        lemma_binds_kept(s9, ostr(p.status), "status = ?"@, Seq::<char>::empty(), false, "seller_name LIKE ?"@, Seq::<char>::empty(), SqlValueView::Text(like_pattern(x)));
        lemma_binds_kept(s10, ostr(p.duplicate_status), "duplicate_status = ?"@, Seq::<char>::empty(), false, "seller_name LIKE ?"@, Seq::<char>::empty(), SqlValueView::Text(like_pattern(x)));
    }
    if let Some(x) = ostr(p.buyer_name) {
        lemma_filter_binds(s2, ostr(p.buyer_name), "buyer_name LIKE ?"@, Seq::<char>::empty(), true);
        lemma_binds_kept(s3, ostr(p.invoice_number), "invoice_number LIKE ?"@, Seq::<char>::empty(), true, "buyer_name LIKE ?"@, Seq::<char>::empty(), SqlValueView::Text(like_pattern(x)));
        lemma_binds_kept(s4, ostr(p.date_from), "issue_date >= ?"@, Seq::<char>::empty(), false, "buyer_name LIKE ?"@, Seq::<char>::empty(), SqlValueView::Text(like_pattern(x)));
        lemma_binds_kept(s5, ostr(p.date_to), "issue_date <= ?"@, Seq::<char>::empty(), false, "buyer_name LIKE ?"@, Seq::<char>::empty(), SqlValueView::Text(like_pattern(x)));
        lemma_binds_kept(s6, ostr(p.amount_min), "CAST(total_amount AS REAL) >= CAST(?"@, " AS REAL)"@, false, "buyer_name LIKE ?"@, Seq::<char>::empty(), SqlValueView::Text(like_pattern(x)));
        lemma_binds_kept(s7, ostr(p.amount_max), "CAST(total_amount AS REAL) <= CAST(?"@, " AS REAL)"@, false, "buyer_name LIKE ?"@, Seq::<char>::empty(), SqlValueView::Text(like_pattern(x)));
        lemma_binds_kept(s8, ostr(p.category), "category LIKE ?"@, Seq::<char>::empty(), true, "buyer_name LIKE ?"@, Seq::<char>::empty(), SqlValueView::Text(like_pattern(x)));
        lemma_binds_kept(s9, ostr(p.status), "status = ?"@, Seq::<char>::empty(), false, "buyer_name LIKE ?"@, Seq::<char>::empty(), SqlValueView::Text(like_pattern(x)));
        lemma_binds_kept(s10, ostr(p.duplicate_status), "duplicate_status = ?"@, Seq::<char>::empty(), false, "buyer_name LIKE ?"@, Seq::<char>::empty(), SqlValueView::Text(like_pattern(x)));
    }
    if let Some(x) = ostr(p.invoice_number) {
        lemma_filter_binds(s3, ostr(p.invoice_number), "invoice_number LIKE ?"@, Seq::<char>::empty(), true);
        lemma_binds_kept(s4, ostr(p.date_from), "issue_date >= ?"@, Seq::<char>::empty(), false, "invoice_number LIKE ?"@, Seq::<char>::empty(), SqlValueView::Text(like_pattern(x)));
        lemma_binds_kept(s5, ostr(p.date_to), "issue_date <= ?"@, Seq::<char>::empty(), false, "invoice_number LIKE ?"@, Seq::<char>::empty(), SqlValueView::Text(like_pattern(x)));
        lemma_binds_kept(s6, ostr(p.amount_min), "CAST(total_amount AS REAL) >= CAST(?"@, " AS REAL)"@, false, "invoice_number LIKE ?"@, Seq::<char>::empty(), SqlValueView::Text(like_pattern(x)));
        lemma_binds_kept(s7, ostr(p.amount_max), "CAST(total_amount AS REAL) <= CAST(?"@, " AS REAL)"@, false, "invoice_number LIKE ?"@, Seq::<char>::empty(), SqlValueView::Text(like_pattern(x)));
        lemma_binds_kept(s8, ostr(p.category), "category LIKE ?"@, Seq::<char>::empty(), true, "invoice_number LIKE ?"@, Seq::<char>::empty(), SqlValueView::Text(like_pattern(x)));
        lemma_binds_kept(s9, ostr(p.status), "status = ?"@, Seq::<char>::empty(), false, "invoice_number LIKE ?"@, Seq::<char>::empty(), SqlValueView::Text(like_pattern(x)));
        lemma_binds_kept(s10, ostr(p.duplicate_status), "duplicate_status = ?"@, Seq::<char>::empty(), false, "invoice_number LIKE ?"@, Seq::<char>::empty(), SqlValueView::Text(like_pattern(x)));
    }
    if let Some(x) = ostr(p.date_from) {
        lemma_filter_binds(s4, ostr(p.date_from), "issue_date >= ?"@, Seq::<char>::empty(), false);
        lemma_binds_kept(s5, ostr(p.date_to), "issue_date <= ?"@, Seq::<char>::empty(), false, "issue_date >= ?"@, Seq::<char>::empty(), SqlValueView::Text(x));
        lemma_binds_kept(s6, ostr(p.amount_min), "CAST(total_amount AS REAL) >= CAST(?"@, " AS REAL)"@, false, "issue_date >= ?"@, Seq::<char>::empty(), SqlValueView::Text(x));
        lemma_binds_kept(s7, ostr(p.amount_max), "CAST(total_amount AS REAL) <= CAST(?"@, " AS REAL)"@, false, "issue_date >= ?"@, Seq::<char>::empty(), SqlValueView::Text(x));
        lemma_binds_kept(s8, ostr(p.category), "category LIKE ?"@, Seq::<char>::empty(), true, "issue_date >= ?"@, Seq::<char>::empty(), SqlValueView::Text(x));
        lemma_binds_kept(s9, ostr(p.status), "status = ?"@, Seq::<char>::empty(), false, "issue_date >= ?"@, Seq::<char>::empty(), SqlValueView::Text(x));
        lemma_binds_kept(s10, ostr(p.duplicate_status), "duplicate_status = ?"@, Seq::<char>::empty(), false, "issue_date >= ?"@, Seq::<char>::empty(), SqlValueView::Text(x));
    }
    if let Some(x) = ostr(p.date_to) {
        lemma_filter_binds(s5, ostr(p.date_to), "issue_date <= ?"@, Seq::<char>::empty(), false);
        lemma_binds_kept(s6, ostr(p.amount_min), "CAST(total_amount AS REAL) >= CAST(?"@, " AS REAL)"@, false, "issue_date <= ?"@, Seq::<char>::empty(), SqlValueView::Text(x));
        lemma_binds_kept(s7, ostr(p.amount_max), "CAST(total_amount AS REAL) <= CAST(?"@, " AS REAL)"@, false, "issue_date <= ?"@, Seq::<char>::empty(), SqlValueView::Text(x));
        lemma_binds_kept(s8, ostr(p.category), "category LIKE ?"@, Seq::<char>::empty(), true, "issue_date <= ?"@, Seq::<char>::empty(), SqlValueView::Text(x));
        lemma_binds_kept(s9, ostr(p.status), "status = ?"@, Seq::<char>::empty(), false, "issue_date <= ?"@, Seq::<char>::empty(), SqlValueView::Text(x));
        lemma_binds_kept(s10, ostr(p.duplicate_status), "duplicate_status = ?"@, Seq::<char>::empty(), false, "issue_date <= ?"@, Seq::<char>::empty(), SqlValueView::Text(x));
    }
    if let Some(x) = ostr(p.amount_min) {
        lemma_filter_binds(s6, ostr(p.amount_min), "CAST(total_amount AS REAL) >= CAST(?"@, " AS REAL)"@, false);
        lemma_binds_kept(s7, ostr(p.amount_max), "CAST(total_amount AS REAL) <= CAST(?"@, " AS REAL)"@, false, "CAST(total_amount AS REAL) >= CAST(?"@, " AS REAL)"@, SqlValueView::Text(x));
        lemma_binds_kept(s8, ostr(p.category), "category LIKE ?"@, Seq::<char>::empty(), true, "CAST(total_amount AS REAL) >= CAST(?"@, " AS REAL)"@, SqlValueView::Text(x));
        lemma_binds_kept(s9, ostr(p.status), "status = ?"@, Seq::<char>::empty(), false, "CAST(total_amount AS REAL) >= CAST(?"@, " AS REAL)"@, SqlValueView::Text(x));
        lemma_binds_kept(s10, ostr(p.duplicate_status), "duplicate_status = ?"@, Seq::<char>::empty(), false, "CAST(total_amount AS REAL) >= CAST(?"@, " AS REAL)"@, SqlValueView::Text(x));
    }
    if let Some(x) = ostr(p.amount_max) {
        lemma_filter_binds(s7, ostr(p.amount_max), "CAST(total_amount AS REAL) <= CAST(?"@, " AS REAL)"@, false);
        lemma_binds_kept(s8, ostr(p.category), "category LIKE ?"@, Seq::<char>::empty(), true, "CAST(total_amount AS REAL) <= CAST(?"@, " AS REAL)"@, SqlValueView::Text(x));
        lemma_binds_kept(s9, ostr(p.status), "status = ?"@, Seq::<char>::empty(), false, "CAST(total_amount AS REAL) <= CAST(?"@, " AS REAL)"@, SqlValueView::Text(x));
        lemma_binds_kept(s10, ostr(p.duplicate_status), "duplicate_status = ?"@, Seq::<char>::empty(), false, "CAST(total_amount AS REAL) <= CAST(?"@, " AS REAL)"@, SqlValueView::Text(x));
    }
    if let Some(x) = ostr(p.category) {
        lemma_filter_binds(s8, ostr(p.category), "category LIKE ?"@, Seq::<char>::empty(), true);
        lemma_binds_kept(s9, ostr(p.status), "status = ?"@, Seq::<char>::empty(), false, "category LIKE ?"@, Seq::<char>::empty(), SqlValueView::Text(like_pattern(x)));
        lemma_binds_kept(s10, ostr(p.duplicate_status), "duplicate_status = ?"@, Seq::<char>::empty(), false, "category LIKE ?"@, Seq::<char>::empty(), SqlValueView::Text(like_pattern(x)));
    }
    if let Some(x) = ostr(p.status) {
        lemma_filter_binds(s9, ostr(p.status), "status = ?"@, Seq::<char>::empty(), false);
        lemma_binds_kept(s10, ostr(p.duplicate_status), "duplicate_status = ?"@, Seq::<char>::empty(), false, "status = ?"@, Seq::<char>::empty(), SqlValueView::Text(x));
    }
    if let Some(x) = ostr(p.duplicate_status) {
        lemma_filter_binds(s10, ostr(p.duplicate_status), "duplicate_status = ?"@, Seq::<char>::empty(), false);
    }
}

/// Clauses joined after `WHERE 1=1`: empty, or ` AND ` before each clause.
pub open spec fn and_clauses(clauses: Seq<Seq<char>>) -> Seq<char> {
    if clauses.len() == 0 {
        Seq::empty()
    } else {
        " AND "@ + join(clauses, " AND "@)
    }
}

pub fn numbered_text(prefix: &str, n: usize, suffix: &str) -> (r: String)
    ensures
        r@ == numbered(prefix@, n as nat, suffix@),
{
    let mut out: Vec<char> = Vec::new();
    push_str(&mut out, prefix);
    push_usize(&mut out, n);
    push_str(&mut out, suffix);
    string_from_chars(out.as_slice())
}

fn like_text(v: &str) -> (r: String)
    ensures
        r@ == like_pattern(v@),
{
    let mut out: Vec<char> = Vec::new();
    push_str(&mut out, "%");
    push_str(&mut out, v);
    push_str(&mut out, "%");
    string_from_chars(out.as_slice())
}

fn push_filter(
    clauses: &mut Vec<String>,
    values: &mut Vec<SqlValue>,
    v: &Option<String>,
    prefix: &str,
    suffix: &str,
    like: bool,
)
    requires
        old(values).len() < usize::MAX,
    ensures
        (string_views(final(clauses)@), values_view(final(values)@)) == add_filter(
            (string_views(old(clauses)@), values_view(old(values)@)),
            ostr(*v),
            prefix@,
            suffix@,
            like,
        ),
        final(values).len() <= old(values).len() + 1,
{
    match v {
        Some(x) => {
            let ghost c0 = clauses@;
            let ghost v0 = values@;
            let n = values.len() + 1;
            let clause = numbered_text(prefix, n, suffix);
            clauses.push(clause);
            let value = if like {
                like_text(x.as_str())
            } else {
                x.clone()
            };
            values.push(SqlValue::Text(value));
            assert(string_views(clauses@) =~= string_views(c0).push(clause@));
            assert(values_view(values@) =~= values_view(v0).push(SqlValueView::Text(value@)));
        },
        None => {},
    }
}

/// The `WHERE` additions of a search and the values bound to them; each
/// clause names its placeholder by number, counting the values before it.
pub fn build_search_where(params: &InvoiceSearchParams) -> (r: (String, Vec<SqlValue>))
    ensures
        r.0@ == and_clauses(search_filters(*params).0),
        values_view(r.1@) == search_filters(*params).1,
{
    let mut clauses: Vec<String> = Vec::new();
    let mut values: Vec<SqlValue> = Vec::new();
    match &params.query {
        Some(q) => {
            let mut c: Vec<char> = Vec::new();
            push_str(&mut c, "(seller_name LIKE ?");
            push_usize(&mut c, 1);
            push_str(&mut c, " OR buyer_name LIKE ?");
            push_usize(&mut c, 1);
            push_str(&mut c, " OR invoice_number LIKE ?");
            push_usize(&mut c, 1);
            push_str(&mut c, " OR invoice_code LIKE ?");
            push_usize(&mut c, 1);
            push_str(&mut c, ")");
            clauses.push(string_from_chars(c.as_slice()));
            let pattern = like_text(q.as_str());
            values.push(SqlValue::Text(pattern.clone()));
            values.push(SqlValue::Text(pattern.clone()));
            values.push(SqlValue::Text(pattern.clone()));
            values.push(SqlValue::Text(pattern));
            assert(values_view(values@) =~= seq![
                SqlValueView::Text(like_pattern(q@)),
                SqlValueView::Text(like_pattern(q@)),
                SqlValueView::Text(like_pattern(q@)),
                SqlValueView::Text(like_pattern(q@)),
            ]);
            assert(string_views(clauses@) =~= seq![query_clause(1)]);
        },
        None => {
            assert(values_view(values@) =~= Seq::<SqlValueView>::empty());
            assert(string_views(clauses@) =~= Seq::<Seq<char>>::empty());
        },
    }
    push_filter(&mut clauses, &mut values, &params.invoice_type, "invoice_type = ?", "", false);
    push_filter(&mut clauses, &mut values, &params.seller_name, "seller_name LIKE ?", "", true);
    push_filter(&mut clauses, &mut values, &params.buyer_name, "buyer_name LIKE ?", "", true);
    push_filter(
        &mut clauses,
        &mut values,
        &params.invoice_number,
        "invoice_number LIKE ?",
        "",
        true,
    );
    push_filter(&mut clauses, &mut values, &params.date_from, "issue_date >= ?", "", false);
    push_filter(&mut clauses, &mut values, &params.date_to, "issue_date <= ?", "", false);
    push_filter(
        &mut clauses,
        &mut values,
        &params.amount_min,
        "CAST(total_amount AS REAL) >= CAST(?",
        " AS REAL)",
        false,
    );
    push_filter(
        &mut clauses,
        &mut values,
        &params.amount_max,
        "CAST(total_amount AS REAL) <= CAST(?",
        " AS REAL)",
        false,
    );
    push_filter(&mut clauses, &mut values, &params.category, "category LIKE ?", "", true);
    push_filter(&mut clauses, &mut values, &params.status, "status = ?", "", false);
    push_filter(
        &mut clauses,
        &mut values,
        &params.duplicate_status,
        "duplicate_status = ?",
        "",
        false,
    );
    assert(Seq::<char>::empty() =~= ""@) by {
        reveal_strlit("");
    }
    let where_clause = if clauses.len() == 0 {
        String::new()
    } else {
        let mut w: Vec<char> = Vec::new();
        push_str(&mut w, " AND ");
        let j = join_strings(&clauses, " AND ");
        push_str(&mut w, j.as_str());
        string_from_chars(w.as_slice())
    };
    (where_clause, values)
}

// ---------------------------------------------------------------------------
// Sorting and paging
// ---------------------------------------------------------------------------

pub open spec fn sortable(c: Seq<char>) -> bool {
    c == "issue_date"@ || c == "total_amount"@ || c == "seller_name"@ || c == "confidence"@ || c
        == "created_at"@
}

/// `ORDER BY <column> <direction>`: an allowed column or `id`, ascending only
/// when asked for `asc`.
pub open spec fn sort_clause_spec(sort_by: Option<Seq<char>>, sort_order: Option<Seq<char>>) -> Seq<
    char,
> {
    let column = match sort_by {
        Some(c) => if sortable(c) {
            c
        } else {
            "id"@
        },
        None => "id"@,
    };
    let direction = match sort_order {
        Some(o) => if o == "asc"@ {
            "ASC"@
        } else {
            "DESC"@
        },
        None => "DESC"@,
    };
    "ORDER BY "@ + column + " "@ + direction
}

pub open spec fn opt_str_view(o: Option<&str>) -> Option<Seq<char>> {
    match o {
        Some(s) => Some(s@),
        None => None,
    }
}

pub fn build_sort_clause(sort_by: Option<&str>, sort_order: Option<&str>) -> (r: String)
    ensures
        r@ == sort_clause_spec(opt_str_view(sort_by), opt_str_view(sort_order)),
{
    let mut out: Vec<char> = Vec::new();
    push_str(&mut out, "ORDER BY ");
    match sort_by {
        Some(c) => {
            let cc = chars_of(c);
            if chars_eq_str(&cc, "issue_date") || chars_eq_str(&cc, "total_amount") || chars_eq_str(
                &cc,
                "seller_name",
            ) || chars_eq_str(&cc, "confidence") || chars_eq_str(&cc, "created_at") {
                push_str(&mut out, c);
            } else {
                push_str(&mut out, "id");
            }
        },
        None => push_str(&mut out, "id"),
    }
    push_str(&mut out, " ");
    match sort_order {
        Some(o) => {
            let oc = chars_of(o);
            if chars_eq_str(&oc, "asc") {
                push_str(&mut out, "ASC");
            } else {
                push_str(&mut out, "DESC");
            }
        },
        None => push_str(&mut out, "DESC"),
    }
    string_from_chars(out.as_slice())
}

/// The page asked for: 1 by default, and at least 1.
pub open spec fn page_spec(page: Option<i64>) -> int {
    let p = match page {
        Some(p) => p as int,
        None => 1,
    };
    if p < 1 {
        1
    } else {
        p
    }
}

/// The page size: 50 by default, and between 1 and 500.
pub open spec fn page_size_spec(page_size: Option<i64>) -> int {
    let s = match page_size {
        Some(s) => s as int,
        None => 50,
    };
    if s > 500 {
        500
    } else if s < 1 {
        1
    } else {
        s
    }
}

/// Page, page size and offset of a search.
pub struct Paging {
    pub page: i64,
    pub page_size: i64,
    pub offset: i64,
}

/// The offset of a page fits the integer type.
pub open spec fn paging_fits(page: Option<i64>, page_size: Option<i64>) -> bool {
    (page_spec(page) - 1) * page_size_spec(page_size) <= i64::MAX
}

pub fn search_paging(page: Option<i64>, page_size: Option<i64>) -> (r: Paging)
    requires
        paging_fits(page, page_size),
    ensures
        r.page == page_spec(page),
        r.page_size == page_size_spec(page_size),
        r.offset == (r.page - 1) * r.page_size,
{
    let p = match page {
        Some(p) => p,
        None => 1,
    };
    let p = if p < 1 {
        1
    } else {
        p
    };
    let s = match page_size {
        Some(s) => s,
        None => 50,
    };
    let s = if s > 500 {
        500
    } else if s < 1 {
        1
    } else {
        s
    };
    let offset = (p - 1) * s;
    Paging { page: p, page_size: s, offset }
}

/// The number of pages of a result: `total / page_size` rounded up, and at
/// least 1.
pub open spec fn total_pages_spec(total: int, page_size: int) -> int {
    let q = total / page_size + (if total % page_size == 0 {
        0int
    } else {
        1int
    });
    if q < 1 {
        1
    } else {
        q
    }
}

pub fn total_pages(total_count: i64, page_size: i64) -> (r: i64)
    requires
        total_count >= 0,
        1 <= page_size <= 500,
    ensures
        r == total_pages_spec(total_count as int, page_size as int),
        r >= 1,
        (r - 1) * page_size < total_count || r == 1,
        total_count <= r * page_size,
{
    assert(total_count / page_size <= total_count) by (nonlinear_arith)
        requires
            page_size >= 1,
            total_count >= 0,
    ;
    assert(total_count % page_size != 0 ==> total_count / page_size < i64::MAX) by (nonlinear_arith)
        requires
            page_size >= 1,
            total_count >= 0,
            total_count <= i64::MAX,
    {
        if total_count % page_size != 0 {
            assert(page_size >= 2);
            assert(total_count == page_size * (total_count / page_size) + total_count % page_size);
        }
    }
    let q = total_count / page_size + if total_count % page_size == 0 {
        0
    } else {
        1
    };
    assert(q * page_size >= total_count && (q - 1) * page_size < total_count && (q < 1
        ==> total_count == 0)) by (nonlinear_arith)
        requires
            q == total_count / page_size + (if total_count % page_size == 0 {
                0int
            } else {
                1int
            }),
            page_size >= 1,
            total_count >= 0,
    {
        assert(total_count == page_size * (total_count / page_size) + total_count % page_size);
    }
    if q < 1 {
        1
    } else {
        q
    }
}

/// The statement that counts the matches of a search.
pub fn search_count_sql(where_clause: &str) -> (r: String)
    ensures
        r@ == "SELECT COUNT(*) FROM invoices WHERE 1=1 "@ + where_clause@,
{
    let mut out: Vec<char> = Vec::new();
    push_str(&mut out, "SELECT COUNT(*) FROM invoices WHERE 1=1 ");
    push_str(&mut out, where_clause);
    string_from_chars(out.as_slice())
}

pub open spec fn search_sql_spec(where_clause: Seq<char>, sort: Seq<char>, n: nat) -> Seq<char> {
    "SELECT id, raw_file_id, (SELECT mime_type FROM raw_files rf WHERE rf.id = invoices.raw_file_id) AS raw_file_mime, invoice_type, invoice_code, invoice_number, issue_date, seller_name, buyer_name, currency, total_amount, category, source_page_range, confidence, status, duplicate_status, created_at, updated_at FROM invoices WHERE 1=1 "@
        + where_clause + " "@ + sort + " LIMIT ?"@ + dec(n + 1) + " OFFSET ?"@ + dec(n + 2)
}

/// The statement that loads a page of a search; the page size and the offset
/// are bound after the filter values.
pub fn search_query_sql(where_clause: &str, sort_clause: &str, n_values: usize) -> (r: String)
    requires
        n_values + 2 <= usize::MAX,
    ensures
        r@ == search_sql_spec(where_clause@, sort_clause@, n_values as nat),
{
    let mut out: Vec<char> = Vec::new();
    push_str(
        &mut out,
        "SELECT id, raw_file_id, (SELECT mime_type FROM raw_files rf WHERE rf.id = invoices.raw_file_id) AS raw_file_mime, invoice_type, invoice_code, invoice_number, issue_date, seller_name, buyer_name, currency, total_amount, category, source_page_range, confidence, status, duplicate_status, created_at, updated_at FROM invoices WHERE 1=1 ",
    );
    push_str(&mut out, where_clause);
    push_str(&mut out, " ");
    push_str(&mut out, sort_clause);
    push_str(&mut out, " LIMIT ?");
    push_usize(&mut out, n_values + 1);
    push_str(&mut out, " OFFSET ?");
    push_usize(&mut out, n_values + 2);
    string_from_chars(out.as_slice())
}

// ---------------------------------------------------------------------------
// Dashboard and usage statistics
// ---------------------------------------------------------------------------

/// The SQL expression of the summed total amount.
pub fn sum_amount() -> (r: &'static str)
    ensures
        r@ == "COALESCE(SUM(CAST(total_amount AS REAL)), 0.0)"@,
{
    "COALESCE(SUM(CAST(total_amount AS REAL)), 0.0)"
}

/// A range filter: `ge` and `le` are the clause texts before the placeholder
/// numbers, which count from `first`.
pub open spec fn date_filter_spec(
    ge: Seq<char>,
    le: Seq<char>,
    from: Option<Seq<char>>,
    to: Option<Seq<char>>,
    first: nat,
) -> (Seq<Seq<char>>, Seq<Seq<char>>) {
    let a: (Seq<Seq<char>>, Seq<Seq<char>>) = match from {
        Some(f) => (seq![ge + dec(first)], seq![f]),
        None => (Seq::empty(), Seq::empty()),
    };
    match to {
        Some(t) => (a.0.push(le + dec(first + a.1.len())), a.1.push(t)),
        None => a,
    }
}

/// The issue-date filter of the dashboard's aggregate query: ` AND`-joined
/// clauses whose placeholders are numbered from `first_param_index`, and the
/// dates bound to them.
pub fn build_issue_date_filter(date_from: Option<&str>, date_to: Option<&str>, first_param_index: usize) -> (r: (
    String,
    Vec<String>,
))
    requires
        first_param_index + 2 <= usize::MAX,
    ensures
        r.0@ == and_clauses(
            date_filter_spec(
                "issue_date >= ?"@,
                "issue_date <= ?"@,
                opt_str_view(date_from),
                opt_str_view(date_to),
                first_param_index as nat,
            ).0,
        ),
        string_views(r.1@) == date_filter_spec(
            "issue_date >= ?"@,
            "issue_date <= ?"@,
            opt_str_view(date_from),
            opt_str_view(date_to),
            first_param_index as nat,
        ).1,
{
    let mut clauses: Vec<String> = Vec::new();
    let mut params: Vec<String> = Vec::new();
    match date_from {
        Some(f) => {
            let mut c: Vec<char> = Vec::new();
            push_str(&mut c, "issue_date >= ?");
            push_usize(&mut c, first_param_index);
            clauses.push(string_from_chars(c.as_slice()));
            params.push(f.to_owned());
        },
        None => {},
    }
    match date_to {
        Some(t) => {
            let mut c: Vec<char> = Vec::new();
            push_str(&mut c, "issue_date <= ?");
            push_usize(&mut c, first_param_index + params.len());
            clauses.push(string_from_chars(c.as_slice()));
            params.push(t.to_owned());
        },
        None => {},
    }
    let ghost spec = date_filter_spec(
        "issue_date >= ?"@,
        "issue_date <= ?"@,
        opt_str_view(date_from),
        opt_str_view(date_to),
        first_param_index as nat,
    );
    assert(string_views(clauses@) =~= spec.0);
    assert(string_views(params@) =~= spec.1);
    let clause = if clauses.len() == 0 {
        String::new()
    } else {
        let mut w: Vec<char> = Vec::new();
        push_str(&mut w, " AND ");
        let j = join_strings(&clauses, " AND ");
        push_str(&mut w, j.as_str());
        string_from_chars(w.as_slice())
    };
    (clause, params)
}

/// The statements of the dashboard, each with its bound values.
pub struct DashboardQueries {
    pub aggregate: (String, Vec<String>),
    pub currency: String,
    pub trend: (String, Vec<String>),
    pub by_type: (String, Vec<String>),
    pub by_status: (String, Vec<String>),
    pub top_sellers: (String, Vec<String>),
}

pub open spec fn sum_amount_spec() -> Seq<char> {
    "COALESCE(SUM(CAST(total_amount AS REAL)), 0.0)"@
}

pub open spec fn issue_filter(from: Option<Seq<char>>, to: Option<Seq<char>>, first: nat) -> (
    Seq<Seq<char>>,
    Seq<Seq<char>>,
) {
    date_filter_spec("issue_date >= ?"@, "issue_date <= ?"@, from, to, first)
}

/// Totals over the filtered invoices: count, amount, mean confidence, this
/// month's count and amount (from `?1`), pending and duplicate counts.
pub open spec fn aggregate_sql(filter: Seq<char>) -> Seq<char> {
    "SELECT COUNT(*), "@ + sum_amount_spec()
        + ", COALESCE(AVG(confidence), 0.0), COALESCE(SUM(CASE WHEN issue_date >= ?1 THEN 1 ELSE 0 END), 0), COALESCE(SUM(CASE WHEN issue_date >= ?1 THEN CAST(total_amount AS REAL) ELSE 0 END), 0.0), COALESCE(SUM(CASE WHEN status = 'pending_confirmation' THEN 1 ELSE 0 END), 0), COALESCE(SUM(CASE WHEN duplicate_status IN ('possible_duplicate', 'probable_duplicate') THEN 1 ELSE 0 END), 0) FROM invoices WHERE 1=1"@
        + filter
}

pub open spec fn currency_sql() -> Seq<char> {
    "SELECT currency FROM invoices GROUP BY currency ORDER BY COUNT(*) DESC LIMIT 1"@
}

/// The last twelve months that have invoices, newest first.
pub open spec fn trend_sql(filter: Seq<char>) -> Seq<char> {
    "SELECT strftime('%Y-%m', issue_date) as month, COUNT(*), "@ + sum_amount_spec()
        + " FROM invoices WHERE issue_date IS NOT NULL"@ + filter
        + " GROUP BY month ORDER BY month DESC LIMIT 12"@
}

/// Count and amount per value of `column`, shown as `label`, with `unknown`
/// for a missing value; `limit` is appended as it stands.
pub open spec fn breakdown_sql(
    select: Seq<char>,
    column: Seq<char>,
    filter: Seq<char>,
    limit: Seq<char>,
) -> Seq<char> {
    "SELECT "@ + select + ", COUNT(*), "@ + sum_amount_spec() + " FROM invoices WHERE 1=1"@ + filter
        + " GROUP BY "@ + column + " ORDER BY COUNT(*) DESC"@ + limit
}

pub open spec fn dashboard_queries_spec(
    this_month: Seq<char>,
    from: Option<Seq<char>>,
    to: Option<Seq<char>>,
) -> (Seq<char>, Seq<Seq<char>>, Seq<char>, Seq<char>, Seq<char>, Seq<char>, Seq<Seq<char>>) {
    let agg = issue_filter(from, to, 2);
    let rest = issue_filter(from, to, 1);
    let f = and_clauses(rest.0);
    (
        aggregate_sql(and_clauses(agg.0)),
        seq![this_month] + agg.1,
        trend_sql(f),
        breakdown_sql("COALESCE(invoice_type, '未知') as label"@, "invoice_type"@, f, Seq::empty()),
        breakdown_sql("status"@, "status"@, f, Seq::empty()),
        breakdown_sql("COALESCE(seller_name, '未知') as name"@, "seller_name"@, f, " LIMIT 5"@),
        rest.1,
    )
}

/// The dashboard's statements for the invoices issued between `date_from`
/// and `date_to` (either bound may be absent). `this_month` is the first day
/// of the current month, bound as `?1` of the aggregate statement; the
/// date filter of that statement is numbered from `?2`, that of the others
/// from `?1`. The currency statement takes no values.
pub fn dashboard_queries(this_month: &str, date_from: Option<&str>, date_to: Option<&str>) -> (r: DashboardQueries)
    ensures
        ({
            let s = dashboard_queries_spec(this_month@, opt_str_view(date_from), opt_str_view(date_to));
            &&& r.aggregate.0@ == s.0
            &&& string_views(r.aggregate.1@) == s.1
            &&& r.currency@ == currency_sql()
            &&& r.trend.0@ == s.2
            &&& r.by_type.0@ == s.3
            &&& r.by_status.0@ == s.4
            &&& r.top_sellers.0@ == s.5
            &&& string_views(r.trend.1@) == s.6
            &&& string_views(r.by_type.1@) == s.6
            &&& string_views(r.by_status.1@) == s.6
            &&& string_views(r.top_sellers.1@) == s.6
        }),
{
    let (agg_where, agg_filter) = build_issue_date_filter(date_from, date_to, 2);
    let mut agg_params: Vec<String> = Vec::new();
    agg_params.push(this_month.to_owned());
    let mut i: usize = 0;
    while i < agg_filter.len()
        invariant
            i <= agg_filter.len(),
            string_views(agg_params@) =~= seq![this_month@] + string_views(agg_filter@).take(i as int),
        decreases agg_filter.len() - i,
    {
        let ghost before = agg_params@;
        agg_params.push(agg_filter[i].clone());
        assert(string_views(agg_params@) =~= string_views(before).push(agg_filter@[i as int]@));
        assert(string_views(agg_filter@).take(i + 1) =~= string_views(agg_filter@).take(i as int).push(
            agg_filter@[i as int]@,
        ));
        i = i + 1;
    }
    assert(string_views(agg_filter@).take(agg_filter.len() as int) == string_views(agg_filter@));
    let mut a: Vec<char> = Vec::new();
    push_str(&mut a, "SELECT COUNT(*), ");
    push_str(&mut a, sum_amount());
    push_str(
        &mut a,
        ", COALESCE(AVG(confidence), 0.0), COALESCE(SUM(CASE WHEN issue_date >= ?1 THEN 1 ELSE 0 END), 0), COALESCE(SUM(CASE WHEN issue_date >= ?1 THEN CAST(total_amount AS REAL) ELSE 0 END), 0.0), COALESCE(SUM(CASE WHEN status = 'pending_confirmation' THEN 1 ELSE 0 END), 0), COALESCE(SUM(CASE WHEN duplicate_status IN ('possible_duplicate', 'probable_duplicate') THEN 1 ELSE 0 END), 0) FROM invoices WHERE 1=1",
    );
    push_str(&mut a, agg_where.as_str());

    let (f, params) = build_issue_date_filter(date_from, date_to, 1);

    let mut t: Vec<char> = Vec::new();
    push_str(&mut t, "SELECT strftime('%Y-%m', issue_date) as month, COUNT(*), ");
    push_str(&mut t, sum_amount());
    push_str(&mut t, " FROM invoices WHERE issue_date IS NOT NULL");
    push_str(&mut t, f.as_str());
    push_str(&mut t, " GROUP BY month ORDER BY month DESC LIMIT 12");

    let by_type = breakdown_text("COALESCE(invoice_type, '未知') as label", "invoice_type", f.as_str(), "");
    let by_status = breakdown_text("status", "status", f.as_str(), "");
    let top = breakdown_text("COALESCE(seller_name, '未知') as name", "seller_name", f.as_str(), " LIMIT 5");
    proof {
        reveal_strlit("");
    }
    DashboardQueries {
        aggregate: (string_from_chars(a.as_slice()), agg_params),
        currency: "SELECT currency FROM invoices GROUP BY currency ORDER BY COUNT(*) DESC LIMIT 1".to_string(),
        trend: (string_from_chars(t.as_slice()), params.clone()),
        by_type: (by_type, params.clone()),
        by_status: (by_status, params.clone()),
        top_sellers: (top, params),
    }
}

fn breakdown_text(select: &str, column: &str, filter: &str, limit: &str) -> (r: String)
    ensures
        r@ == breakdown_sql(select@, column@, filter@, limit@),
{
    let mut b: Vec<char> = Vec::new();
    push_str(&mut b, "SELECT ");
    push_str(&mut b, select);
    push_str(&mut b, ", COUNT(*), ");
    push_str(&mut b, sum_amount());
    push_str(&mut b, " FROM invoices WHERE 1=1");
    push_str(&mut b, filter);
    push_str(&mut b, " GROUP BY ");
    push_str(&mut b, column);
    push_str(&mut b, " ORDER BY COUNT(*) DESC");
    push_str(&mut b, limit);
    string_from_chars(b.as_slice())
}

/// The dashboard's currency: the most used one, `CNY` when no invoice names
/// one (`top` is none when the statement found no row or a null currency).
pub fn dashboard_currency(top: Option<String>) -> (r: String)
    ensures
        r@ == match top {
            Some(c) => c@,
            None => "CNY"@,
        },
{
    match top {
        Some(c) => c,
        None => "CNY".to_owned(),
    }
}

/// The monthly trend oldest first: the statement gives the latest months
/// newest first.
pub fn oldest_first<T>(rows: Vec<T>) -> (r: Vec<T>)
    ensures
        r.len() == rows.len(),
        forall|i: int| 0 <= i < r.len() ==> r@[i] == rows@[rows.len() - 1 - i],
{
    let ghost orig = rows@;
    let mut rest = rows;
    let mut out: Vec<T> = Vec::new();
    while rest.len() > 0
        invariant
            rest@ == orig.take(orig.len() - out.len()),
            out.len() <= orig.len(),
            forall|i: int| 0 <= i < out.len() ==> out@[i] == orig[orig.len() - 1 - i],
        decreases rest.len(),
    {
        let ghost before = rest@;
        match rest.pop() {
            Some(x) => {
                assert(x == orig[orig.len() - 1 - out.len()]);
                out.push(x);
                assert(rest@ =~= orig.take(orig.len() - out.len()));
            },
            None => {},
        }
    }
    out
}

/// Token usage totals.
pub struct LlmUsageStats {
    pub total_calls: i64,
    pub llm_calls: i64,
    pub embedding_calls: i64,
    pub total_prompt_tokens: i64,
    pub total_completion_tokens: i64,
    pub total_tokens: i64,
    pub this_month_calls: i64,
    pub this_month_tokens: i64,
}

pub open spec fn usage_filter_spec(from: Option<Seq<char>>, to: Option<Seq<char>>) -> (
    Seq<Seq<char>>,
    Seq<Seq<char>>,
) {
    date_filter_spec(
        "created_at >= ?"@,
        "created_at <= ?"@,
        from,
        match to {
            Some(t) => Some(t + " 23:59:59"@),
            None => None,
        },
        1,
    )
}

/// The date filter of usage statistics: `created_at` from the start of the
/// first day to the end of the last day, as ` WHERE`-prefixed clauses with
/// the bound values.
pub fn usage_filter(date_from: Option<&str>, date_to: Option<&str>) -> (r: (String, Vec<String>))
    ensures
        r.0@ == (if usage_filter_spec(opt_str_view(date_from), opt_str_view(date_to)).0.len() == 0 {
            Seq::<char>::empty()
        } else {
            " WHERE "@ + join(usage_filter_spec(opt_str_view(date_from), opt_str_view(date_to)).0, " AND "@)
        }),
        string_views(r.1@) == usage_filter_spec(opt_str_view(date_from), opt_str_view(date_to)).1,
{
    let mut clauses: Vec<String> = Vec::new();
    let mut params: Vec<String> = Vec::new();
    match date_from {
        Some(f) => {
            let mut c: Vec<char> = Vec::new();
            push_str(&mut c, "created_at >= ?");
            push_usize(&mut c, 1);
            clauses.push(string_from_chars(c.as_slice()));
            params.push(f.to_owned());
        },
        None => {},
    }
    match date_to {
        Some(t) => {
            let mut c: Vec<char> = Vec::new();
            push_str(&mut c, "created_at <= ?");
            push_usize(&mut c, 1 + params.len());
            clauses.push(string_from_chars(c.as_slice()));
            let mut v: Vec<char> = Vec::new();
            push_str(&mut v, t);
            push_str(&mut v, " 23:59:59");
            params.push(string_from_chars(v.as_slice()));
        },
        None => {},
    }
    let ghost spec = usage_filter_spec(opt_str_view(date_from), opt_str_view(date_to));
    assert(string_views(clauses@) =~= spec.0);
    assert(string_views(params@) =~= spec.1);
    let clause = if clauses.len() == 0 {
        String::new()
    } else {
        let mut w: Vec<char> = Vec::new();
        push_str(&mut w, " WHERE ");
        let j = join_strings(&clauses, " AND ");
        push_str(&mut w, j.as_str());
        string_from_chars(w.as_slice())
    };
    (clause, params)
}

} // verus!
