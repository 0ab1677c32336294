use invoicevault::document::{thumbnail_candidates, thumbnail_path};
use invoicevault::extraction::invoice_detail;
use invoicevault::extraction::{
    batch_update_statements, clean_optional, extraction_run_fields, field_errors, finish_normalization,
    has_meaningful_item_data, id_list, item_change_statement, item_insert_name, normalize_extraction,
    validate_invoice_fields, BatchUpdateRequest, ConfidenceBand, ExtractorError, InvoiceExtraction,
    InvoiceItemChange, InvoiceItemExtraction, PartyExtraction, embedding_text_full, invoice_to_embedding_text,
    cut_to_bytes, InvoiceEmbeddingFields, InvoiceItemRow,
};
use invoicevault::sql::SqlValue;

fn s(v: &str) -> String {
    v.to_owned()
}

fn item(name: Option<&str>, amount: Option<&str>) -> InvoiceItemExtraction {
    InvoiceItemExtraction {
        name: name.map(s),
        spec: None,
        unit: None,
        quantity: None,
        unit_price: None,
        amount: amount.map(s),
        tax_rate: None,
        tax_amount: None,
    }
}

fn confident(date: Option<&str>) -> InvoiceExtraction {
    InvoiceExtraction {
        is_invoice: true,
        invoice_type: Some(s("  增值税电子普通发票 ")),
        invoice_code: Some(s("   ")),
        invoice_number: Some(s(" 12345678")),
        issue_date: date.map(s),
        seller: PartyExtraction { name: Some(s(" 测试销售方 ")), tax_id: None },
        buyer: PartyExtraction { name: None, tax_id: Some(s("")) },
        currency: Some(s(" ")),
        amount_without_tax: Some(s("100.00")),
        tax_amount: Some(s("6.27")),
        total_amount: Some(s("106.27")),
        category: None,
        items: vec![item(Some("  商品A "), Some("100")), item(Some("   "), None), item(None, Some("6.27"))],
        remarks: None,
        confidence: Some(ConfidenceBand::Sufficient),
        needs_review: Some(false),
    }
}

#[test]
fn blank_optional_text_is_absent() {
    assert_eq!(clean_optional(Some(s("  a b  "))), Some(s("a b")));
    assert_eq!(clean_optional(Some(s(" \t\n"))), None);
    assert_eq!(clean_optional(None), None);
}

#[test]
fn confident_extraction_is_cleaned_and_kept() {
    let mut e = confident(Some("2026-04-30"));
    assert!(normalize_extraction(&mut e).is_ok());
    assert_eq!(e.invoice_type, Some(s("增值税电子普通发票")));
    assert_eq!(e.invoice_code, None);
    assert_eq!(e.invoice_number, Some(s("12345678")));
    assert_eq!(e.seller.name, Some(s("测试销售方")));
    assert_eq!(e.buyer.tax_id, None);
    assert_eq!(e.currency, Some(s("CNY")));
    assert_eq!(e.total_amount, Some(s("106.27")));
    assert_eq!(e.items.len(), 2);
    assert_eq!(e.items[0].name, Some(s("商品A")));
    assert_eq!(e.items[1].name, None);
    assert_eq!(e.items[1].amount, Some(s("6.27")));
}

#[test]
fn unreadable_issue_date_is_refused_with_the_date() {
    let mut e = confident(Some(" 2026-13-45 "));
    match normalize_extraction(&mut e) {
        Err(ExtractorError::InvalidIssueDate(d)) => assert_eq!(d, "2026-13-45"),
        _ => panic!("invalid date should fail"),
    }
}

#[test]
fn review_or_low_confidence_is_refused() {
    let mut e = confident(None);
    e.needs_review = None;
    assert!(matches!(normalize_extraction(&mut e), Err(ExtractorError::LowConfidence)));
    let mut e = confident(None);
    e.confidence = Some(ConfidenceBand::Low);
    assert!(matches!(normalize_extraction(&mut e), Err(ExtractorError::LowConfidence)));
    let mut e = confident(None);
    e.confidence = None;
    assert!(matches!(normalize_extraction(&mut e), Err(ExtractorError::LowConfidence)));
    let mut e = confident(None);
    e.confidence = Some(ConfidenceBand::OutOfRange);
    assert!(matches!(normalize_extraction(&mut e), Err(ExtractorError::InvalidConfidence)));
}

#[test]
fn date_check_result_decides() {
    let mut e = confident(Some("2026-04-30"));
    assert!(matches!(finish_normalization(&mut e, false), Err(ExtractorError::InvalidIssueDate(_))));
    let mut e = confident(Some("whatever"));
    assert!(finish_normalization(&mut e, true).is_ok());
    assert_eq!(e.items.len(), 2);
}

#[test]
fn items_without_data_are_not_meaningful() {
    assert!(!has_meaningful_item_data(&item(None, None)));
    assert!(has_meaningful_item_data(&item(None, Some("1"))));
}

#[test]
fn edits_are_validated() {
    let errors = validate_invoice_fields(&Some(Some(s("2024/01/01"))), &Some(Some(s("done"))), Some(Some(ConfidenceBand::OutOfRange)));
    let fields: Vec<String> = errors.iter().map(|e| e.field.clone()).collect();
    assert_eq!(fields, vec![s("issue_date"), s("status"), s("confidence")]);
    assert_eq!(errors[0].message, "日期格式必须为 YYYY-MM-DD");
    assert_eq!(
        errors[1].message,
        "状态值无效，允许的值: [\"pending_confirmation\", \"recognized\", \"reviewed\", \"flagged\"]"
    );
    assert_eq!(errors[2].message, "置信度必须在 0 到 1 之间");
    let ok = validate_invoice_fields(&Some(Some(s("2024-02-29"))), &Some(Some(s("reviewed"))), Some(Some(ConfidenceBand::Low)));
    assert!(ok.is_empty());
    let cleared = field_errors(&Some(Some(s(""))), false, &Some(None), None);
    assert!(cleared.is_empty());
}

#[test]
fn extraction_runs_default_provider_and_model() {
    let long: String = std::iter::repeat('x').take(600).collect();
    let (p, m, summary) = extraction_run_fields(None, Some(s("  ")), &long);
    assert_eq!(p, "manual");
    assert_eq!(m, "unknown");
    assert_eq!(summary.chars().count(), 500);
    let (p, m, _) = extraction_run_fields(Some(s(" https://x ")), Some(s("vl")), "{}");
    assert_eq!((p.as_str(), m.as_str()), ("https://x", "vl"));
    assert_eq!(item_insert_name(&None), "未命名明细");
}

#[test]
fn item_edits_become_statements() {
    let update = InvoiceItemChange::Update {
        id: 7,
        name: Some(s("新名")),
        specification: None,
        unit: None,
        quantity: Some(s("2")),
        unit_price: None,
        amount: None,
        tax_rate: None,
        tax_amount: None,
    };
    let q = item_change_statement(3, &update).expect("update");
    assert_eq!(q.sql, "UPDATE invoice_items SET name = ?1, quantity = ?2 WHERE id = ?3 AND invoice_id = ?4");
    assert_eq!(q.params, vec![SqlValue::Text(s("新名")), SqlValue::Text(s("2")), SqlValue::Integer(7), SqlValue::Integer(3)]);
    let empty = InvoiceItemChange::Update {
        id: 7,
        name: None,
        specification: None,
        unit: None,
        quantity: None,
        unit_price: None,
        amount: None,
        tax_rate: None,
        tax_amount: None,
    };
    assert!(item_change_statement(3, &empty).is_none());
    let del = item_change_statement(3, &InvoiceItemChange::Delete { id: 9 }).expect("delete");
    assert_eq!(del.sql, "DELETE FROM invoice_items WHERE id = ?1 AND invoice_id = ?2");
    assert_eq!(del.params, vec![SqlValue::Integer(9), SqlValue::Integer(3)]);
    let add = InvoiceItemChange::Add {
        name: s("A"),
        specification: None,
        unit: Some(s("个")),
        quantity: None,
        unit_price: None,
        amount: None,
        tax_rate: None,
        tax_amount: None,
    };
    let q = item_change_statement(3, &add).expect("insert");
    assert_eq!(q.params.len(), 9);
    assert_eq!(q.params[3], SqlValue::Text(s("个")));
    assert_eq!(q.params[2], SqlValue::Null);
}

#[test]
fn batch_updates_name_all_ids() {
    assert_eq!(id_list(&[1, -2, 30]), "1,-2,30");
    let req = BatchUpdateRequest { ids: vec![4, 5], status: Some(s("reviewed")), category: Some(s("差旅")) };
    let qs = batch_update_statements(&req);
    assert_eq!(qs.len(), 2);
    assert_eq!(qs[0].sql, "UPDATE invoices SET status = ?1 WHERE id IN (4,5)");
    assert_eq!(qs[1].sql, "UPDATE invoices SET category = ?1 WHERE id IN (4,5)");
    assert_eq!(qs[1].params, vec![SqlValue::Text(s("差旅"))]);
    let none = BatchUpdateRequest { ids: vec![], status: Some(s("reviewed")), category: None };
    assert!(batch_update_statements(&none).is_empty());
}

#[test]
fn extractor_errors_have_messages() {
    assert_eq!(ExtractorError::NonInvoice.message(), "文件不含有发票");
    assert_eq!(ExtractorError::InvalidIssueDate(s("x")).message(), "invalid issue date, expected YYYY-MM-DD: x");
    assert_eq!(ExtractorError::MissingRawFile(5).message(), "raw file does not exist: 5");
}

fn item_row(name: &str) -> InvoiceItemRow {
    InvoiceItemRow {
        id: 1,
        name: name.to_owned(),
        specification: None,
        unit: None,
        quantity: None,
        unit_price: None,
        amount: None,
        tax_rate: None,
        tax_amount: None,
    }
}

#[test]
fn embedding_text_lists_labelled_fields() {
    let fields = InvoiceEmbeddingFields {
        invoice_type: Some(s("增值税普通发票")),
        seller_name: Some(s("ACME")),
        buyer_name: None,
        total_amount: Some(s("100.00")),
        category: None,
        remarks: Some(String::new()),
        items: vec![item_row("纸"), item_row("笔")],
    };
    assert_eq!(invoice_to_embedding_text(&fields), "类型:增值税普通发票 卖方:ACME 金额:100.00 项目:纸,笔");
    let empty = InvoiceEmbeddingFields {
        invoice_type: None,
        seller_name: None,
        buyer_name: None,
        total_amount: None,
        category: None,
        remarks: Some(s("加急")),
        items: vec![],
    };
    assert_eq!(embedding_text_full(&empty), "备注:加急");
}

#[test]
fn embedding_text_is_cut_at_a_byte_limit() {
    let long = "a".repeat(9000);
    let fields = InvoiceEmbeddingFields {
        invoice_type: None,
        seller_name: None,
        buyer_name: None,
        total_amount: None,
        category: None,
        remarks: Some(long),
        items: vec![],
    };
    let text = invoice_to_embedding_text(&fields);
    assert_eq!(text.len(), 8192);
    assert!(text.starts_with("备注:aaa"));
    assert_eq!(cut_to_bytes("发票ab", 6), "发票");
    assert_eq!(cut_to_bytes("ab", 6), "ab");
}

fn stored_invoice(source_page_range: Option<&str>) -> invoicevault::extraction::StoredInvoice {
    invoicevault::extraction::StoredInvoice {
        id: 5,
        raw_file_id: 12,
        invoice_type: Some("增值税电子普通发票".to_owned()),
        invoice_code: None,
        invoice_number: Some("12345678".to_owned()),
        issue_date: Some("2026-04-30".to_owned()),
        seller_name: Some("测试销售方".to_owned()),
        seller_tax_id: None,
        buyer_name: None,
        buyer_tax_id: None,
        currency: None,
        amount_without_tax: None,
        tax_amount: None,
        total_amount: Some("106.27".to_owned()),
        category: None,
        remarks: None,
        source_page_range: source_page_range.map(|s| s.to_owned()),
        status: None,
        duplicate_status: None,
        created_at: "2026-05-01 10:00:00".to_owned(),
        updated_at: "2026-05-01 10:00:00".to_owned(),
    }
}

fn raw_file() -> invoicevault::extraction::RawFileInfo {
    invoicevault::extraction::RawFileInfo {
        original_name: Some("a.pdf".to_owned()),
        mime_type: Some("application/pdf".to_owned()),
        storage_path: Some("/data/raw/a.pdf".to_owned()),
    }
}

#[test]
fn invoice_detail_defaults_and_preview() {
    assert_eq!(
        thumbnail_candidates(12, Some("3-4")),
        vec!["previews/12/page-3.jpg".to_owned(), "previews/12/image.jpg".to_owned()]
    );
    assert_eq!(thumbnail_candidates(12, None), vec!["previews/12/image.jpg".to_owned()]);
    assert_eq!(thumbnail_path(12, Some("x"), &vec![true, true]), Some("previews/12/page-1.jpg".to_owned()));
    assert_eq!(thumbnail_path(12, Some("2"), &vec![false, true]), Some("previews/12/image.jpg".to_owned()));
    assert_eq!(thumbnail_path(12, Some("2"), &vec![false]), None);
    assert_eq!(thumbnail_path(12, None, &vec![]), None);

    let d = invoice_detail(stored_invoice(Some("3")), vec![], raw_file(), &vec![true, true], None);
    assert_eq!(d.id, 5);
    assert_eq!(d.currency, "CNY");
    assert_eq!(d.status, "pending_confirmation");
    assert_eq!(d.duplicate_status, "unknown");
    assert_eq!(d.thumbnail_path.as_deref(), Some("previews/12/page-3.jpg"));
    assert_eq!(d.raw_file_name.as_deref(), Some("a.pdf"));
    assert_eq!(d.extraction_model, None);

    let mut s = stored_invoice(None);
    s.currency = Some("USD".to_owned());
    s.status = Some("recognized".to_owned());
    s.duplicate_status = Some("unique".to_owned());
    let d = invoice_detail(s, vec![], raw_file(), &vec![false], Some((Some("vision".to_owned()), None)));
    assert_eq!(d.currency, "USD");
    assert_eq!(d.status, "recognized");
    assert_eq!(d.duplicate_status, "unique");
    assert_eq!(d.thumbnail_path, None);
    assert_eq!(d.extraction_model.as_deref(), Some("vision"));
}
