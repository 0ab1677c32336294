use invoicevault::exporter::{
    export_column_catalog, export_format, export_header, export_records, export_query, label_matcher, preview_export,
    preview_limit, resolve_column_defs, resolve_columns, resolve_export_column_keys_from_labels,
    ExportError, ExportFormat, InvoiceRow,
};
use invoicevault::sql::SqlValue;

fn s(v: &str) -> String {
    v.to_owned()
}

fn row() -> InvoiceRow {
    InvoiceRow {
        invoice_type: Some(s("增值税电子普通发票")),
        invoice_code: None,
        invoice_number: Some(s("N1")),
        issue_date: Some(s("2024-03-01")),
        seller_name: Some(s("SellerA")),
        seller_tax_id: None,
        buyer_name: None,
        buyer_tax_id: None,
        currency: s("CNY"),
        amount_without_tax: None,
        tax_amount: None,
        total_amount: Some(s("100.00")),
        category: None,
        remarks: None,
        source_page_range: None,
        confidence: Some(s("0.95")),
        status: s("recognized"),
        duplicate_status: s("unique"),
        created_at: s("2024-03-02 10:00:00"),
    }
}

#[test]
fn catalog_lists_every_column_in_order() {
    let catalog = export_column_catalog();
    assert_eq!(catalog.len(), 19);
    assert_eq!(catalog[0].key, "invoice_type");
    assert_eq!(catalog[0].label, "发票类型");
    assert_eq!(catalog[0].aliases, vec![s("类型"), s("票种"), s("发票种类")]);
    assert_eq!(catalog[0].data_type, "string");
    assert_eq!(catalog[11].key, "total_amount");
    assert_eq!(catalog[11].data_type, "number");
    assert_eq!(catalog[18].key, "created_at");
    assert!(catalog.iter().all(|c| c.exportable));
}

#[test]
fn labels_resolve_to_keys_once() {
    let labels = vec![
        s("  发票号 "),
        s("INVOICE_NUMBER"),
        s("金额"),
        s("unknown"),
        s("   "),
        s("类型"),
    ];
    let keys = resolve_export_column_keys_from_labels(&labels);
    assert_eq!(keys, vec![s("invoice_number"), s("total_amount"), s("invoice_type")]);
}

#[test]
fn label_matcher_pairs_positions_with_keys() {
    let labels = vec![s("日期"), s("x"), s("开票日期"), s("销方")];
    let pairs = label_matcher(&labels);
    assert_eq!(pairs, vec![(0, s("issue_date")), (3, s("seller_name"))]);
    let keys = resolve_export_column_keys_from_labels(&labels);
    let matched: Vec<String> = pairs.into_iter().map(|p| p.1).collect();
    assert_eq!(matched, keys);
}

#[test]
fn column_defs_follow_known_keys() {
    let defs = resolve_column_defs(&[(0, s("issue_date")), (3, s("nope")), (5, s("tax_amount"))]);
    assert_eq!(defs.len(), 2);
    assert_eq!(defs[0].0, 0);
    assert_eq!(defs[0].1.label, "开票日期");
    assert_eq!(defs[1].0, 5);
    assert!(defs[1].1.numeric);
}

#[test]
fn export_columns_fall_back_to_all() {
    assert_eq!(resolve_columns(None).len(), 19);
    let nope = vec![s("nope")];
    assert_eq!(resolve_columns(Some(nope.as_slice())).len(), 19);
    let wanted = vec![s("tax_amount"), s("currency"), s("bogus")];
    let picked = resolve_columns(Some(wanted.as_slice()));
    let keys: Vec<&str> = picked.iter().map(|c| c.key).collect();
    assert_eq!(keys, vec!["tax_amount", "currency"]);
}

#[test]
fn cells_follow_keys() {
    let r = row();
    assert_eq!(r.field_by_key("invoice_number"), "N1");
    assert_eq!(r.field_by_key("invoice_code"), "");
    assert_eq!(r.field_by_key("currency"), "CNY");
    assert_eq!(r.field_by_key("confidence"), "0.95");
    assert_eq!(r.field_by_key("unknown"), "");
}

#[test]
fn preview_limit_is_clamped() {
    assert_eq!(preview_limit(None), 5);
    assert_eq!(preview_limit(Some(0)), 1);
    assert_eq!(preview_limit(Some(100)), 20);
    assert_eq!(preview_limit(Some(7)), 7);
}

#[test]
fn preview_shows_header_and_first_rows() {
    let rows = vec![row(), row(), row()];
    let wanted = vec![s("invoice_number"), s("total_amount")];
    let cols = resolve_columns(Some(wanted.as_slice()));
    let p = preview_export(&rows, &cols, Some(2));
    assert_eq!(p.row_count, 3);
    assert_eq!(p.columns, vec![s("发票号码"), s("价税合计")]);
    assert_eq!(p.sample_rows, vec![vec![s("N1"), s("100.00")], vec![s("N1"), s("100.00")]]);
}

#[test]
fn unsupported_export_format_is_refused() {
    assert!(matches!(export_format("csv"), Ok(ExportFormat::Csv)));
    assert!(matches!(export_format("xlsx"), Ok(ExportFormat::Xlsx)));
    match export_format("pdf") {
        Err(ExportError::UnsupportedFormat(f)) => assert_eq!(f, "pdf"),
        _ => panic!("pdf should be refused"),
    }
}

#[test]
fn export_query_binds_ids_and_dates() {
    let none: Vec<i64> = Vec::new();
    assert!(export_query(Some(none.as_slice()), None, None).is_none());
    let ids: Vec<i64> = vec![3, 4];
    let q = export_query(Some(ids.as_slice()), Some("2024-01-01"), None).expect("query");
    assert!(q.sql.ends_with("FROM invoices WHERE id IN (?,?) AND issue_date >= ? ORDER BY id DESC"));
    assert_eq!(q.params, vec![SqlValue::Integer(3), SqlValue::Integer(4), SqlValue::Text(s("2024-01-01"))]);
    let all = export_query(None, None, None).expect("query");
    assert!(all.sql.ends_with("FROM invoices ORDER BY id DESC"));
    assert!(all.params.is_empty());
}

#[test]
fn exported_records_line_up_with_the_header() {
    let columns = resolve_columns(Some(&[s("seller_name"), s("invoice_code"), s("total_amount")]));
    let header = export_header(&columns);
    assert_eq!(header, vec![s("销售方"), s("发票代码"), s("价税合计")]);
    let records = export_records(&[row(), row()], &columns, 1);
    assert_eq!(records, vec![vec![s("SellerA"), s(""), s("100.00")]]);
    assert!(records.iter().all(|r| r.len() == header.len()));
}

#[test]
fn matched_labels_resolve_alone_and_keys_are_stable() {
    let labels = vec![s("  金额 "), s("unknown"), s("SELLER_NAME"), s("总金额"), s(""), s("发票号")];
    let pairs = label_matcher(&labels);
    assert_eq!(pairs, vec![(0, s("total_amount")), (2, s("seller_name")), (5, s("invoice_number"))]);
    for (idx, key) in &pairs {
        assert!(*idx < labels.len());
        assert_eq!(resolve_export_column_keys_from_labels(&[labels[*idx].clone()]), vec![key.clone()]);
    }
    let keys = resolve_export_column_keys_from_labels(&labels);
    assert!(keys.len() <= labels.len());
    assert_eq!(resolve_export_column_keys_from_labels(&keys), keys);
    let all: Vec<String> = export_column_catalog().iter().map(|c| c.key.clone()).collect();
    assert_eq!(resolve_export_column_keys_from_labels(&all), all);
}
