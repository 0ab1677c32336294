use invoicevault::dedupe::{
    candidate_pair_query, candidate_upsert, candidates_query, exact_rule_query, invoice_delete_statements,
    open_max_score_query, raw_file_cleanup, status_update, step_statement, duplicate_status, exact_rule_applies, field_rule_query, has_exact_duplicate, match_count, resolve_action,
    resolve_steps, DedupeStep, MatchFields, EXACT_MATCH_SCORE,
};
use invoicevault::event::{event_paging, event_queries, event_total_pages};
use invoicevault::exporter::{export_query, resolve_columns, row_record, InvoiceRow};
use invoicevault::extraction::{
    extraction_run_insert, invoice_insert, item_insert, normalize_extraction, ConfidenceBand, InvoiceExtraction,
    InvoiceItemExtraction, PartyExtraction,
};
use invoicevault::search::{
    build_search_where, build_sort_clause, dashboard_queries, search_count_sql, search_paging, search_query_sql,
    InvoiceSearchParams,
};
use invoicevault::importer::{recovered_job, recovery_update, unfinished_jobs_query};
use invoicevault::sql::SqlValue;
use rusqlite::types::Value;
use rusqlite::Connection;

fn setup() -> Connection {
    let conn = Connection::open_in_memory().expect("open");
    conn.execute_batch(
        "CREATE TABLE events (
            id INTEGER PRIMARY KEY AUTOINCREMENT,
            event_type TEXT NOT NULL, title TEXT NOT NULL, description TEXT NOT NULL, status TEXT NOT NULL,
            reference_type TEXT, reference_id INTEGER, metadata_json TEXT,
            created_at TEXT NOT NULL DEFAULT CURRENT_TIMESTAMP);
         CREATE TABLE raw_files (id INTEGER PRIMARY KEY, mime_type TEXT);
         CREATE TABLE invoices (
            id INTEGER PRIMARY KEY AUTOINCREMENT, raw_file_id INTEGER, invoice_type TEXT, invoice_code TEXT,
            invoice_number TEXT, issue_date TEXT, seller_name TEXT, seller_tax_id TEXT, buyer_name TEXT,
            buyer_tax_id TEXT, currency TEXT, amount_without_tax TEXT, tax_amount TEXT, total_amount TEXT,
            category TEXT, remarks TEXT, source_page_range TEXT, confidence REAL, status TEXT,
            duplicate_status TEXT, created_at TEXT DEFAULT CURRENT_TIMESTAMP, updated_at TEXT DEFAULT CURRENT_TIMESTAMP);
         CREATE TABLE invoice_items (
            id INTEGER PRIMARY KEY AUTOINCREMENT, invoice_id INTEGER NOT NULL, name TEXT NOT NULL,
            specification TEXT, unit TEXT, quantity TEXT, unit_price TEXT, amount TEXT, tax_rate TEXT, tax_amount TEXT);
         CREATE TABLE extraction_runs (
            id INTEGER PRIMARY KEY AUTOINCREMENT, raw_file_id INTEGER, invoice_id INTEGER, provider_name TEXT,
            model TEXT, status TEXT, request_started_at TEXT, response_summary TEXT);
         CREATE TABLE import_jobs (
            id INTEGER PRIMARY KEY AUTOINCREMENT, raw_file_id INTEGER, source_path TEXT, status TEXT,
            error_message TEXT, source_type TEXT, updated_at TEXT);
         CREATE TABLE dedupe_candidates (
            id INTEGER PRIMARY KEY AUTOINCREMENT, invoice_id INTEGER NOT NULL, candidate_invoice_id INTEGER NOT NULL,
            score REAL NOT NULL, reason TEXT NOT NULL, status TEXT NOT NULL, resolved_at TEXT,
            UNIQUE(invoice_id, candidate_invoice_id));
         INSERT INTO raw_files (id, mime_type) VALUES (1, 'application/pdf');",
    )
    .expect("schema");
    conn
}

fn create_event(conn: &Connection, event_type: &str, title: &str) {
    conn.execute(
        "INSERT INTO events (event_type, title, description, status) VALUES (?1, ?2, 'd', 'completed')",
        [event_type, title],
    )
    .expect("create");
}

fn insert_invoice(conn: &Connection, code: &str, number: &str, date: &str, amount: &str, seller: &str) -> i64 {
    conn.execute(
        "INSERT INTO invoices (raw_file_id, invoice_code, invoice_number, issue_date, total_amount, seller_name,
            currency, status, duplicate_status, confidence)
         VALUES (1, ?1, ?2, ?3, ?4, ?5, 'CNY', 'pending_confirmation', 'unique', 0.9)",
        [code, number, date, amount, seller],
    )
    .expect("insert invoice");
    conn.last_insert_rowid()
}

fn bind(values: &[SqlValue]) -> Vec<Value> {
    values
        .iter()
        .map(|v| match v {
            SqlValue::Integer(i) => Value::Integer(*i),
            SqlValue::Text(t) => Value::Text(t.clone()),
            SqlValue::Null => Value::Null,
        })
        .collect()
}

fn count(conn: &Connection, sql: &str, values: &[SqlValue]) -> i64 {
    conn.query_row(sql, rusqlite::params_from_iter(bind(values)), |row| row.get(0)).expect("count")
}

fn ids(conn: &Connection, sql: &str, values: &[SqlValue]) -> Vec<i64> {
    let mut stmt = conn.prepare(sql).expect("prepare");
    let rows = stmt.query_map(rusqlite::params_from_iter(bind(values)), |row| row.get(0)).expect("query");
    rows.collect::<Result<Vec<i64>, _>>().expect("rows")
}

fn list_events(conn: &Connection, page: i64, page_size: i64, event_type: Option<&str>) -> (i64, usize, i64) {
    let paging = event_paging(page, page_size);
    let q = event_queries(event_type.is_some());
    let mut values: Vec<SqlValue> = event_type.iter().map(|t| SqlValue::Text(t.to_string())).collect();
    let total = count(conn, &q.count_sql, &values);
    values.push(SqlValue::Integer(paging.page_size));
    values.push(SqlValue::Integer(paging.offset));
    let events = ids(conn, &q.list_sql, &values);
    (total, events.len(), event_total_pages(total, paging.page_size))
}

#[test]
fn create_and_list_events() {
    let conn = setup();
    create_event(&conn, "import", "导入 3 个文件");
    create_event(&conn, "recognition", "识别发票");
    let (total, listed, _) = list_events(&conn, 1, 20, None);
    assert_eq!(total, 2);
    assert_eq!(listed, 2);
}

#[test]
fn filter_events_by_type() {
    let conn = setup();
    create_event(&conn, "import", "t1");
    create_event(&conn, "agent", "t2");
    let (total, _, _) = list_events(&conn, 1, 20, Some("import"));
    assert_eq!(total, 1);
}

#[test]
fn list_events_pagination() {
    let conn = setup();
    for i in 0..5 {
        create_event(&conn, "import", &format!("t{i}"));
    }
    let (_, listed, total_pages) = list_events(&conn, 1, 2, None);
    assert_eq!(listed, 2);
    assert_eq!(total_pages, 3);
}

fn match_fields(number: &str, date: &str, amount: &str, seller: &str) -> MatchFields {
    MatchFields {
        invoice_number: Some(number.to_owned()),
        issue_date: Some(date.to_owned()),
        total_amount: Some(amount.to_owned()),
        seller_name: Some(seller.to_owned()),
    }
}

#[test]
fn detects_exact_invoice_code_number_match() {
    let conn = setup();
    let id1 = insert_invoice(&conn, "CODE001", "NUM001", "2026-04-01", "100.00", "SellerA");
    let id2 = insert_invoice(&conn, "CODE001", "NUM001", "2026-04-01", "100.00", "SellerA");
    assert!(exact_rule_applies(&Some("CODE001".to_owned()), &Some("NUM001".to_owned())));
    let q = exact_rule_query(id1, "CODE001", "NUM001");
    let exact = ids(&conn, &q.sql, &q.params);
    assert_eq!(exact, vec![id2]);
    let scores: Vec<u32> = exact.iter().map(|_| EXACT_MATCH_SCORE).collect();
    // the field rule leaves out what the exact rule found
    let q = field_rule_query(id1, &exact);
    assert!(ids(&conn, &q.sql, &q.params).is_empty());
    assert!(has_exact_duplicate(&scores));
    assert!(!scores.is_empty());
    assert!(scores[0] >= 95);
    let same = match_fields("NUM001", "2026-04-01", "100.00", "SellerA");
    assert_eq!(match_count(&same, &same), 4);
}

#[test]
fn resolves_duplicate_as_confirmed() {
    let conn = setup();
    let id1 = insert_invoice(&conn, "CODE002", "NUM002", "2026-05-01", "200.00", "SellerB");
    let id2 = insert_invoice(&conn, "CODE002", "NUM002", "2026-05-01", "200.00", "SellerB");
    let action = resolve_action("confirm").expect("known action");
    let steps = resolve_steps(&action, id1, id2);
    for step in steps {
        if let DedupeStep::MarkProbableDuplicate { invoice_id } = step {
            conn.execute(
                "UPDATE invoices SET duplicate_status = ?1 WHERE id = ?2",
                (duplicate_status(Some(EXACT_MATCH_SCORE)), invoice_id),
            )
            .expect("update");
        }
    }
    let status: String = conn
        .query_row("SELECT duplicate_status FROM invoices WHERE id = ?1", [id1], |row| row.get(0))
        .expect("read status");
    assert_eq!(status, "probable_duplicate");
}

fn search_params() -> InvoiceSearchParams {
    InvoiceSearchParams {
        query: None,
        invoice_type: None,
        seller_name: None,
        buyer_name: None,
        invoice_number: None,
        date_from: None,
        date_to: None,
        amount_min: None,
        amount_max: None,
        category: None,
        status: None,
        duplicate_status: None,
        sort_by: None,
        sort_order: None,
        page: None,
        page_size: None,
    }
}

#[test]
fn search_statements_run_on_sqlite() {
    let conn = setup();
    insert_invoice(&conn, "C1", "N1", "2024-01-05", "10.00", "Alpha Trading");
    insert_invoice(&conn, "C2", "N2", "2024-02-05", "20.00", "Beta Foods");
    insert_invoice(&conn, "C3", "N3", "2024-03-05", "30.00", "Alpha Foods");
    let mut params = search_params();
    params.seller_name = Some("Alpha".to_owned());
    params.page_size = Some(1);
    params.sort_by = Some("issue_date".to_owned());
    params.sort_order = Some("asc".to_owned());
    let (where_clause, values) = build_search_where(&params);
    assert_eq!(count(&conn, &search_count_sql(&where_clause), &values), 2);
    let paging = search_paging(params.page, params.page_size);
    let sort = build_sort_clause(params.sort_by.as_deref(), params.sort_order.as_deref());
    let mut page_values = values.clone();
    page_values.push(SqlValue::Integer(paging.page_size));
    page_values.push(SqlValue::Integer(paging.offset));
    assert_eq!(ids(&conn, &search_query_sql(&where_clause, &sort, values.len()), &page_values), vec![1]);
}

#[test]
fn free_text_search_binds_four_values_to_one_placeholder() {
    let conn = setup();
    let mut params = search_params();
    params.query = Some("Alpha".to_owned());
    let (where_clause, values) = build_search_where(&params);
    assert_eq!(values.len(), 4);
    // the clause numbers one placeholder for the four values, which SQLite refuses to bind
    let mut stmt = conn.prepare(&search_count_sql(&where_clause)).expect("prepare");
    assert_eq!(stmt.parameter_count(), 1);
    assert!(stmt.query_row(rusqlite::params_from_iter(bind(&values)), |row| row.get::<_, i64>(0)).is_err());
}

#[test]
fn dashboard_statements_run_on_sqlite() {
    let conn = setup();
    insert_invoice(&conn, "C1", "N1", "2024-01-05", "10.00", "Alpha");
    insert_invoice(&conn, "C2", "N2", "2024-02-05", "20.50", "Alpha");
    let q = dashboard_queries("2024-02-01", Some("2024-01-01"), None);
    let text: Vec<SqlValue> = q.aggregate.1.iter().map(|p| SqlValue::Text(p.clone())).collect();
    let (n, amount, this_month, pending): (i64, f64, i64, i64) = conn
        .query_row(&q.aggregate.0, rusqlite::params_from_iter(bind(&text)), |row| {
            Ok((row.get(0)?, row.get(1)?, row.get(3)?, row.get(5)?))
        })
        .expect("aggregate");
    assert_eq!((n, this_month, pending), (2, 1, 2));
    assert!((amount - 30.5).abs() < 1e-9);
    let sellers: Vec<SqlValue> = q.top_sellers.1.iter().map(|p| SqlValue::Text(p.clone())).collect();
    let top: (String, i64) = conn
        .query_row(&q.top_sellers.0, rusqlite::params_from_iter(bind(&sellers)), |row| Ok((row.get(0)?, row.get(1)?)))
        .expect("top seller");
    assert_eq!(top, ("Alpha".to_owned(), 2));
}

#[test]
fn export_statement_selects_by_id_and_date() {
    let conn = setup();
    let a = insert_invoice(&conn, "C1", "N1", "2024-01-05", "10.00", "Alpha");
    let b = insert_invoice(&conn, "C2", "N2", "2024-02-05", "20.00", "Beta");
    let q = export_query(Some(&[a, b]), Some("2024-02-01"), None).expect("statement");
    let mut stmt = conn.prepare(&q.sql).expect("prepare");
    let rows: Vec<InvoiceRow> = stmt
        .query_map(rusqlite::params_from_iter(bind(&q.params)), |row| {
            Ok(InvoiceRow {
                invoice_type: row.get(0)?,
                invoice_code: row.get(1)?,
                invoice_number: row.get(2)?,
                issue_date: row.get(3)?,
                seller_name: row.get(4)?,
                seller_tax_id: row.get(5)?,
                buyer_name: row.get(6)?,
                buyer_tax_id: row.get(7)?,
                currency: row.get::<_, Option<String>>(8)?.unwrap_or_else(|| "CNY".into()),
                amount_without_tax: row.get(9)?,
                tax_amount: row.get(10)?,
                total_amount: row.get(11)?,
                category: row.get(12)?,
                remarks: row.get(13)?,
                source_page_range: row.get(14)?,
                confidence: row.get::<_, Option<f64>>(15)?.map(|c| format!("{c:.2}")),
                status: row.get::<_, Option<String>>(16)?.unwrap_or_else(|| "unknown".into()),
                duplicate_status: row.get::<_, Option<String>>(17)?.unwrap_or_else(|| "unknown".into()),
                created_at: row.get(18)?,
            })
        })
        .expect("query")
        .collect::<Result<_, _>>()
        .expect("rows");
    assert_eq!(rows.len(), 1);
    let columns = resolve_columns(Some(&["invoice_number".to_owned(), "total_amount".to_owned(), "confidence".to_owned()]));
    assert_eq!(row_record(&rows[0], &columns), vec!["N2".to_owned(), "20.00".to_owned(), "0.90".to_owned()]);
    assert!(export_query(Some(&[]), None, None).is_none());
}

fn some(v: &str) -> Option<String> {
    Some(v.to_owned())
}

#[test]
fn saves_valid_extraction_to_invoice_tables() {
    let conn = setup();
    let raw_file_id = 1;
    // the answer's JSON read as the library's extraction: numbers keep their JSON text
    let mut extraction = InvoiceExtraction {
        is_invoice: true,
        invoice_type: some("增值税电子普通发票"),
        invoice_code: some("044002300111"),
        invoice_number: some("12345678"),
        issue_date: some("2026-04-30"),
        seller: PartyExtraction { name: some("测试销售方"), tax_id: some("SELLER-TAX") },
        buyer: PartyExtraction { name: some("测试购买方"), tax_id: some("BUYER-TAX") },
        currency: some("CNY"),
        amount_without_tax: some("100.25"),
        tax_amount: some("6.02"),
        total_amount: some("106.27"),
        category: some("办公"),
        items: vec![InvoiceItemExtraction {
            name: some("纸张"),
            spec: None,
            unit: None,
            quantity: some("1"),
            unit_price: some("100.25"),
            amount: some("100.25"),
            tax_rate: None,
            tax_amount: None,
        }],
        remarks: some("测试备注"),
        confidence: Some(ConfidenceBand::Sufficient),
        needs_review: Some(false),
    };
    assert!(normalize_extraction(&mut extraction).is_ok());
    let q = invoice_insert(raw_file_id, Some("1"), &extraction);
    let mut values = bind(&q.params);
    values.push(Value::Real(0.96));
    conn.execute(&q.sql, rusqlite::params_from_iter(values)).expect("insert invoice");
    let invoice_id = conn.last_insert_rowid();
    for item in &extraction.items {
        let q = item_insert(invoice_id, item);
        conn.execute(&q.sql, rusqlite::params_from_iter(bind(&q.params))).expect("insert item");
    }
    let q = extraction_run_insert(raw_file_id, invoice_id, some("test-provider"), some("vision-model"), "{}");
    conn.execute(&q.sql, rusqlite::params_from_iter(bind(&q.params))).expect("insert run");

    let (raw, number, seller, total, status): (i64, String, String, String, String) = conn
        .query_row(
            "SELECT raw_file_id, invoice_number, seller_name, total_amount, status FROM invoices WHERE id = ?1",
            [invoice_id],
            |row| Ok((row.get(0)?, row.get(1)?, row.get(2)?, row.get(3)?, row.get(4)?)),
        )
        .expect("read invoice");
    assert_eq!(raw, raw_file_id);
    assert_eq!(number, "12345678");
    assert_eq!(seller, "测试销售方");
    assert_eq!(total, "106.27");
    assert_eq!(status, "recognized");
    let item_count: i64 = conn.query_row("SELECT COUNT(*) FROM invoice_items", [], |row| row.get(0)).expect("count");
    assert_eq!(item_count, 1);
    let (provider, model): (String, String) = conn
        .query_row("SELECT provider_name, model FROM extraction_runs", [], |row| Ok((row.get(0)?, row.get(1)?)))
        .expect("run");
    assert_eq!((provider.as_str(), model.as_str()), ("test-provider", "vision-model"));
}

#[test]
fn recovers_interrupted_import_jobs() {
    let conn = setup();
    insert_invoice(&conn, "C1", "N1", "2024-01-01", "1.00", "S");
    conn.execute_batch(
        "INSERT INTO raw_files (id, mime_type) VALUES (2, 'image/png');
         INSERT INTO import_jobs (raw_file_id, source_path, status, source_type) VALUES
            (NULL, '/tmp/a.pdf', 'importing', 'manual'),
            (1, '/tmp/b.pdf', 'recognizing', 'manual'),
            (2, '/tmp/c.png', 'pending', 'manual'),
            (2, '/tmp/d.png', 'duplicate', 'manual');",
    )
    .expect("jobs");
    let mut stmt = conn.prepare(unfinished_jobs_query()).expect("prepare");
    let jobs: Vec<(i64, String, i64)> = stmt
        .query_map([], |row| Ok((row.get(0)?, row.get(1)?, row.get(2)?)))
        .expect("query")
        .collect::<Result<_, _>>()
        .expect("rows");
    drop(stmt);
    let mut changed = 0;
    for (id, status, has_invoice) in jobs {
        if let Some(q) = recovery_update(id, &status, has_invoice == 1, "1700000000000") {
            changed += conn.execute(&q.sql, rusqlite::params_from_iter(bind(&q.params))).expect("recover");
        }
    }
    assert_eq!(changed, 3);
    let mut stmt = conn.prepare("SELECT raw_file_id, status, error_message FROM import_jobs ORDER BY id").expect("prepare");
    let rows: Vec<(Option<i64>, String, Option<String>)> = stmt
        .query_map([], |row| Ok((row.get(0)?, row.get(1)?, row.get(2)?)))
        .expect("query")
        .collect::<Result<_, _>>()
        .expect("rows");
    let before = ["importing", "recognizing", "pending", "duplicate"];
    for ((raw, status, error), old) in rows.iter().zip(before) {
        let has_invoice = *raw == Some(1);
        match recovered_job(old, has_invoice) {
            Some((st, err)) => {
                assert_eq!(status, st);
                assert_eq!(error.as_deref(), err);
            },
            None => assert_eq!(status, old),
        }
    }
    assert_eq!(rows[0].1, "failed");
    assert_eq!(rows[0].2.as_deref(), Some("上次运行中断，任务已停止。请重新导入或重新识别。"));
    assert_eq!(rows[1].1, "imported");
}

fn run(conn: &Connection, q: &invoicevault::exporter::SqlQuery) {
    conn.execute(&q.sql, rusqlite::params_from_iter(bind(&q.params))).expect("run");
}

fn stored_status(conn: &Connection, id: i64) -> String {
    conn.query_row("SELECT duplicate_status FROM invoices WHERE id = ?1", [id], |row| row.get(0)).expect("status")
}

fn best_open(conn: &Connection, id: i64) -> Option<u32> {
    let q = open_max_score_query(id);
    let best: Option<f64> = conn
        .query_row(&q.sql, rusqlite::params_from_iter(bind(&q.params)), |row| row.get(0))
        .expect("max");
    best.map(|s| s.floor() as u32)
}

#[test]
fn duplicate_statements_run_on_sqlite() {
    let conn = setup();
    let id1 = insert_invoice(&conn, "C9", "N9", "2026-06-01", "9.00", "S");
    let id2 = insert_invoice(&conn, "C9", "N9", "2026-06-01", "9.00", "S");
    let id3 = insert_invoice(&conn, "", "N9", "2026-06-01", "9.00", "T");
    run(&conn, &candidate_upsert(id1, id2, 95));
    run(&conn, &candidate_upsert(id1, id3, 80));
    assert_eq!(ids(&conn, &candidates_query(id1).sql, &candidates_query(id1).params), vec![1, 2]);
    assert_eq!(best_open(&conn, id1), Some(95));
    run(&conn, &status_update(id1, best_open(&conn, id1)));
    assert_eq!(stored_status(&conn, id1), "probable_duplicate");

    // a verdict survives a later check
    let pair = candidate_pair_query(1);
    assert_eq!(ids(&conn, &pair.sql, &pair.params), vec![id1]);
    run(&conn, &step_statement(&DedupeStep::SetCandidateVerdict { confirm: false }, 1).unwrap());
    run(&conn, &candidate_upsert(id1, id2, 95));
    let status: String =
        conn.query_row("SELECT status FROM dedupe_candidates WHERE id = 1", [], |row| row.get(0)).expect("status");
    assert_eq!(status, "ignore");
    assert_eq!(best_open(&conn, id1), Some(80));
    run(&conn, &status_update(id1, best_open(&conn, id1)));
    assert_eq!(stored_status(&conn, id1), "possible_duplicate");

    run(&conn, &step_statement(&DedupeStep::MarkPairDistinct { a: id1, b: id3 }, 0).unwrap());
    assert_eq!(best_open(&conn, id1), None);
    run(&conn, &status_update(id1, None));
    assert_eq!(stored_status(&conn, id1), "unique");

    for q in invoice_delete_statements(id2) {
        run(&conn, &q);
    }
    assert_eq!(count(&conn, "SELECT COUNT(*) FROM dedupe_candidates WHERE candidate_invoice_id = ?1", &[SqlValue::Integer(id2)]), 0);
    assert_eq!(count(&conn, "SELECT COUNT(*) FROM invoices WHERE id = ?1", &[SqlValue::Integer(id2)]), 0);
    assert!(raw_file_cleanup(1, 2).is_empty());
    for q in raw_file_cleanup(1, 0) {
        run(&conn, &q);
    }
    assert_eq!(count(&conn, "SELECT COUNT(*) FROM raw_files", &[]), 0);
}
