use invoicevault::search::{
    build_issue_date_filter, build_search_where, dashboard_currency, dashboard_queries, oldest_first, build_sort_clause, search_count_sql,
    search_paging, search_query_sql, sum_amount, total_pages, usage_filter, InvoiceSearchParams,
};
use invoicevault::sql::SqlValue;

fn params() -> InvoiceSearchParams {
    InvoiceSearchParams {
        query: None,
        invoice_type: None,
        seller_name: None,
        buyer_name: None,
        invoice_number: None,
        date_from: None,
        date_to: None,
        amount_min: None,
        amount_max: None,
        category: None,
        status: None,
        duplicate_status: None,
        sort_by: None,
        sort_order: None,
        page: None,
        page_size: None,
    }
}

#[test]
fn search_without_filters_adds_nothing() {
    let (w, v) = build_search_where(&params());
    assert_eq!(w, "");
    assert!(v.is_empty());
}

#[test]
fn free_text_binds_four_copies_then_numbers_continue() {
    let mut p = params();
    p.query = Some("abc".to_owned());
    p.status = Some("recognized".to_owned());
    p.amount_min = Some("10".to_owned());
    let (w, v) = build_search_where(&p);
    assert_eq!(
        w,
        " AND (seller_name LIKE ?1 OR buyer_name LIKE ?1 OR invoice_number LIKE ?1 OR invoice_code LIKE ?1) AND CAST(total_amount AS REAL) >= CAST(?5 AS REAL) AND status = ?6"
    );
    let pat = SqlValue::Text("%abc%".to_owned());
    assert_eq!(
        v,
        vec![pat.clone(), pat.clone(), pat.clone(), pat, SqlValue::Text("10".to_owned()), SqlValue::Text("recognized".to_owned())]
    );
}

#[test]
fn substring_filters_are_patterns() {
    let mut p = params();
    p.seller_name = Some("Acme".to_owned());
    p.invoice_type = Some("普票".to_owned());
    let (w, v) = build_search_where(&p);
    assert_eq!(w, " AND invoice_type = ?1 AND seller_name LIKE ?2");
    assert_eq!(v, vec![SqlValue::Text("普票".to_owned()), SqlValue::Text("%Acme%".to_owned())]);
}

#[test]
fn sort_clause_allows_known_columns_only() {
    assert_eq!(build_sort_clause(Some("total_amount"), Some("asc")), "ORDER BY total_amount ASC");
    assert_eq!(build_sort_clause(Some("drop table"), None), "ORDER BY id DESC");
    assert_eq!(build_sort_clause(None, Some("ASC")), "ORDER BY id DESC");
    assert_eq!(build_sort_clause(Some("issue_date"), Some("desc")), "ORDER BY issue_date DESC");
}

#[test]
fn paging_defaults_and_clamps() {
    let p = search_paging(None, None);
    assert_eq!((p.page, p.page_size, p.offset), (1, 50, 0));
    let p = search_paging(Some(0), Some(1000));
    assert_eq!((p.page, p.page_size, p.offset), (1, 500, 0));
    let p = search_paging(Some(3), Some(20));
    assert_eq!((p.page, p.page_size, p.offset), (3, 20, 40));
    assert_eq!(total_pages(0, 50), 1);
    assert_eq!(total_pages(100, 50), 2);
    assert_eq!(total_pages(101, 50), 3);
}

#[test]
fn search_statements_number_limit_and_offset() {
    assert_eq!(search_count_sql(" AND status = ?1"), "SELECT COUNT(*) FROM invoices WHERE 1=1  AND status = ?1");
    let sql = search_query_sql(" AND status = ?1", "ORDER BY id DESC", 1);
    assert!(sql.ends_with("WHERE 1=1  AND status = ?1 ORDER BY id DESC LIMIT ?2 OFFSET ?3"));
}

#[test]
fn dashboard_date_filter_numbers_from_given_index() {
    let (c, p) = build_issue_date_filter(Some("2024-01-01"), Some("2024-01-31"), 2);
    assert_eq!(c, " AND issue_date >= ?2 AND issue_date <= ?3");
    assert_eq!(p, vec!["2024-01-01".to_owned(), "2024-01-31".to_owned()]);
    let (c, p) = build_issue_date_filter(None, Some("2024-01-31"), 2);
    assert_eq!(c, " AND issue_date <= ?2");
    assert_eq!(p.len(), 1);
    assert_eq!(sum_amount(), "COALESCE(SUM(CAST(total_amount AS REAL)), 0.0)");
}

#[test]
fn usage_filter_covers_whole_last_day() {
    let (c, p) = usage_filter(None, Some("2024-05-01"));
    assert_eq!(c, " WHERE created_at <= ?1");
    assert_eq!(p, vec!["2024-05-01 23:59:59".to_owned()]);
    let (c, p) = usage_filter(None, None);
    assert_eq!(c, "");
    assert!(p.is_empty());
}

#[test]
fn dashboard_queries_number_the_date_filter() {
    let q = dashboard_queries("2024-05-01", Some("2024-01-01"), Some("2024-12-31"));
    assert!(q.aggregate.0.starts_with("SELECT COUNT(*), COALESCE(SUM(CAST(total_amount AS REAL)), 0.0), "));
    assert!(q.aggregate.0.ends_with("FROM invoices WHERE 1=1 AND issue_date >= ?2 AND issue_date <= ?3"));
    assert_eq!(q.aggregate.1, vec!["2024-05-01".to_owned(), "2024-01-01".to_owned(), "2024-12-31".to_owned()]);
    assert_eq!(
        q.trend.0,
        "SELECT strftime('%Y-%m', issue_date) as month, COUNT(*), COALESCE(SUM(CAST(total_amount AS REAL)), 0.0) FROM invoices WHERE issue_date IS NOT NULL AND issue_date >= ?1 AND issue_date <= ?2 GROUP BY month ORDER BY month DESC LIMIT 12"
    );
    assert_eq!(q.trend.1, vec!["2024-01-01".to_owned(), "2024-12-31".to_owned()]);
    assert_eq!(
        q.top_sellers.0,
        "SELECT COALESCE(seller_name, '未知') as name, COUNT(*), COALESCE(SUM(CAST(total_amount AS REAL)), 0.0) FROM invoices WHERE 1=1 AND issue_date >= ?1 AND issue_date <= ?2 GROUP BY seller_name ORDER BY COUNT(*) DESC LIMIT 5"
    );
    assert_eq!(
        q.by_status.0,
        "SELECT status, COUNT(*), COALESCE(SUM(CAST(total_amount AS REAL)), 0.0) FROM invoices WHERE 1=1 AND issue_date >= ?1 AND issue_date <= ?2 GROUP BY status ORDER BY COUNT(*) DESC"
    );
    assert_eq!(q.currency, "SELECT currency FROM invoices GROUP BY currency ORDER BY COUNT(*) DESC LIMIT 1");
}

#[test]
fn dashboard_queries_without_dates() {
    let q = dashboard_queries("2024-05-01", None, None);
    assert!(q.aggregate.0.ends_with("FROM invoices WHERE 1=1"));
    assert_eq!(q.aggregate.1, vec!["2024-05-01".to_owned()]);
    assert!(q.by_type.0.contains("WHERE 1=1 GROUP BY invoice_type"));
    assert!(q.by_type.1.is_empty());
}

#[test]
fn dashboard_trend_and_currency() {
    assert_eq!(oldest_first(vec!["2024-03", "2024-02", "2024-01"]), vec!["2024-01", "2024-02", "2024-03"]);
    assert_eq!(oldest_first(Vec::<i32>::new()), Vec::<i32>::new());
    assert_eq!(dashboard_currency(None), "CNY");
    assert_eq!(dashboard_currency(Some("USD".to_owned())), "USD");
}
