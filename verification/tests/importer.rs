use invoicevault::importer::{
    decision_status, hex_value, import_decision, import_outcome, import_paging, import_total_pages,
    normalize_source_path, percent_decode_path, strip_file_uri, ImportDecision, ImportJobSummary,
};

fn job(status: &str, raw: Option<i64>) -> ImportJobSummary {
    ImportJobSummary {
        id: 1,
        raw_file_id: raw,
        invoice_id: None,
        source_path: "/tmp/a.pdf".to_owned(),
        original_name: None,
        current_name: None,
        status: status.to_owned(),
        sha256: None,
        storage_path: None,
        mime_type: None,
        error_message: None,
        source_type: "manual".to_owned(),
        created_at: "0".to_owned(),
        updated_at: "0".to_owned(),
    }
}

#[test]
fn hex_digits_have_values() {
    assert_eq!(hex_value(b'0'), Some(0));
    assert_eq!(hex_value(b'9'), Some(9));
    assert_eq!(hex_value(b'a'), Some(10));
    assert_eq!(hex_value(b'F'), Some(15));
    assert_eq!(hex_value(b'g'), None);
}

#[test]
fn percent_escapes_are_decoded() {
    assert_eq!(percent_decode_path("a%20b"), "a b");
    assert_eq!(percent_decode_path("%E5%8F%91%E7%A5%A8.pdf"), "发票.pdf");
    assert_eq!(percent_decode_path("%zz%4"), "%zz%4");
    assert_eq!(percent_decode_path("%FF"), "\u{FFFD}");
    assert_eq!(percent_decode_path("plain/path"), "plain/path");
}

#[test]
fn file_uris_name_paths() {
    assert_eq!(strip_file_uri("FILE:///tmp/receipt%20with%20space.pdf"), Some("/tmp/receipt with space.pdf".to_owned()));
    assert_eq!(strip_file_uri("file://localhost/tmp/x.pdf"), Some("tmp/x.pdf".to_owned()));
    assert_eq!(strip_file_uri("/tmp/x.pdf"), None);
}

#[test]
fn source_paths_are_trimmed() {
    assert_eq!(normalize_source_path("  /a/b.pdf \n"), "/a/b.pdf");
    assert_eq!(normalize_source_path(" file:///a/b%20c.pdf "), "/a/b c.pdf");
}

#[test]
fn stored_content_decides_the_job() {
    assert!(matches!(import_decision(Some(4), true, false), ImportDecision::Duplicate { raw_file_id: 4 }));
    assert!(matches!(import_decision(Some(4), false, true), ImportDecision::Duplicate { raw_file_id: 4 }));
    assert!(matches!(import_decision(Some(4), false, false), ImportDecision::Reuse { raw_file_id: 4 }));
    assert!(matches!(import_decision(None, true, true), ImportDecision::Store));
    assert_eq!(decision_status(&ImportDecision::Duplicate { raw_file_id: 1 }), "duplicate");
    assert_eq!(decision_status(&ImportDecision::Store), "imported");
}

#[test]
fn import_history_pages() {
    let p = import_paging(0, 500);
    assert_eq!((p.page, p.page_size, p.offset), (1, 200, 0));
    let p = import_paging(2, 10);
    assert_eq!(p.offset, 10);
    assert_eq!(import_total_pages(0, 10), 0);
    assert_eq!(import_total_pages(21, 10), 3);
}

#[test]
fn import_outcome_counts_statuses() {
    let jobs = vec![job("imported", Some(1)), job("duplicate", Some(2)), job("imported", None), job("failed", None), job("imported", Some(5))];
    let (counts, ids) = import_outcome(&jobs);
    assert_eq!((counts.total, counts.imported, counts.duplicates, counts.failed), (5, 3, 1, 1));
    assert_eq!(ids, vec![1, 5]);
}

#[test]
fn import_files_accepts_file_uri_paths() {
    let source = "/tmp/import-test/receipt with space.pdf";
    let file_uri = format!("file:///{source}").replace(' ', "%20");
    let path = normalize_source_path(&file_uri);
    // `file://` is removed and the rest decoded, so the path keeps the URI's extra slash
    assert_eq!(path, format!("/{source}"));
    let name = std::path::Path::new(&path).file_name().and_then(|n| n.to_str()).map(|n| n.to_owned());
    assert_eq!(name.as_deref(), Some("receipt with space.pdf"));
}

#[test]
fn import_files_records_duplicates() {
    // first import: nothing stored yet
    let first = import_decision(None, false, false);
    assert!(matches!(first, ImportDecision::Store));
    assert_eq!(decision_status(&first), "imported");
    // again, before any invoice: the stored file is reused
    let second = import_decision(Some(1), false, false);
    assert!(matches!(second, ImportDecision::Reuse { raw_file_id: 1 }));
    assert_eq!(decision_status(&second), "imported");
    // once an invoice exists: a duplicate of the same stored file
    let third = import_decision(Some(1), true, false);
    assert!(matches!(third, ImportDecision::Duplicate { raw_file_id: 1 }));
    assert_eq!(decision_status(&third), "duplicate");
}
