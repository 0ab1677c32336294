use invoicevault::mail::{
    attachment_keywords, attachment_name, wanted_attachments, attachment_wanted, message_too_old, empty_sync_result,
    header_date, imap_login_error, imap_search_criteria, imap_test_result, is_attachment, mark_processed,
    max_uid, new_email_source, new_messages, parse_uidl_line, pop3_reply, pop3_test_result,
    processed_text, processed_uidls, record_message_outcome, split_words, uid_set,
    update_email_source_statement, AddEmailSourceRequest, EmailError, Pop3MessageOutcome,
    UpdateEmailSourceRequest,
};
use invoicevault::sql::SqlValue;

fn s(v: &str) -> String {
    v.to_owned()
}

fn add_request(protocol: Option<&str>) -> AddEmailSourceRequest {
    AddEmailSourceRequest {
        name: None,
        protocol: protocol.map(s),
        imap_host: s("imap.example.com"),
        imap_port: None,
        username: s("u"),
        password: s("p"),
        auth_method: None,
        use_ssl: None,
        folder: None,
        name_keywords: None,
        max_email_age_days: None,
        poll_interval_seconds: None,
    }
}

fn update_request() -> UpdateEmailSourceRequest {
    UpdateEmailSourceRequest {
        name: None,
        protocol: None,
        imap_host: None,
        imap_port: None,
        username: None,
        password: None,
        auth_method: None,
        use_ssl: None,
        folder: None,
        name_keywords: None,
        max_email_age_days: None,
        poll_interval_seconds: None,
        enabled: None,
    }
}

#[test]
fn new_sources_get_defaults() {
    let imap = new_email_source(add_request(None));
    assert_eq!(imap.protocol, "imap");
    assert_eq!(imap.imap_port, 993);
    assert_eq!(imap.auth_method, "password");
    assert!(imap.use_ssl);
    assert_eq!(imap.folder, "INBOX");
    assert_eq!(imap.name, "");
    assert_eq!((imap.max_email_age_days, imap.poll_interval_seconds), (30, 300));
    let pop = new_email_source(add_request(Some("pop3")));
    assert_eq!(pop.imap_port, 995);
}

#[test]
fn source_edits_number_their_values() {
    assert!(update_email_source_statement(3, &update_request()).is_none());
    let mut r = update_request();
    r.name = Some(s("工作"));
    r.use_ssl = Some(false);
    r.enabled = Some(true);
    let q = update_email_source_statement(3, &r).expect("statement");
    assert_eq!(
        q.sql,
        "UPDATE email_sources SET name = ?1, use_ssl = ?2, enabled = ?3, updated_at = CURRENT_TIMESTAMP WHERE id = ?4"
    );
    assert_eq!(q.params, vec![SqlValue::Text(s("工作")), SqlValue::Integer(0), SqlValue::Integer(1), SqlValue::Integer(3)]);
}

#[test]
fn pop3_replies_are_classified() {
    assert!(matches!(pop3_reply("+OK ready"), Ok(ref r) if r == "+OK ready"));
    match pop3_reply("-ERR Authentication failed") {
        Err(EmailError::Pop3(m)) => assert_eq!(
            m,
            "认证失败: -ERR Authentication failed。如果使用国内邮箱（163/QQ/Yeah等），请使用「授权码」而非登录密码"
        ),
        _ => panic!("auth failure expected"),
    }
    match pop3_reply("-ERR no such message") {
        Err(EmailError::Pop3(m)) => assert_eq!(m, "command failed: -ERR no such message"),
        _ => panic!("failure expected"),
    }
}

#[test]
fn imap_login_errors_get_a_hint() {
    match imap_login_error("NO LOGIN failed") {
        EmailError::Imap(m) => assert!(m.ends_with("请使用「授权码」而非登录密码")),
        _ => panic!("imap error expected"),
    }
    match imap_login_error("connection reset") {
        EmailError::Imap(m) => assert_eq!(m, "login: connection reset"),
        _ => panic!("imap error expected"),
    }
}

#[test]
fn imap_search_follows_last_uid_and_age() {
    assert_eq!(imap_search_criteria(5, 30, "01-Jan-2024"), "UID 6:* SINCE 01-Jan-2024");
    assert_eq!(imap_search_criteria(0, 30, "01-Jan-2024"), "SINCE 01-Jan-2024");
    assert_eq!(imap_search_criteria(5, 0, "01-Jan-2024"), "UID 6:*");
    assert_eq!(imap_search_criteria(0, 0, "01-Jan-2024"), "1:*");
    assert_eq!(uid_set(&[3, 10, 7]), "3,10,7");
    assert_eq!(max_uid(5, &[Some(3), None, Some(9)]), 9);
    assert_eq!(max_uid(12, &[Some(3)]), 12);
}

#[test]
fn keywords_are_lowercased_words() {
    assert_eq!(split_words("  发票  Invoice\tFAPIAO \n"), vec![s("发票"), s("Invoice"), s("FAPIAO")]);
    assert_eq!(attachment_keywords("发票 Invoice"), vec![s("发票"), s("invoice")]);
    assert!(attachment_keywords("   ").is_empty());
}

#[test]
fn attachments_are_filtered_by_name_and_type() {
    let kw = vec![s("invoice")];
    assert!(attachment_wanted("Invoice_2024.PDF", &kw));
    assert!(!attachment_wanted("receipt.jpg", &kw));
    assert!(attachment_wanted("receipt.JPEG", &vec![]));
    assert!(!attachment_wanted("notes.txt", &vec![]));
    assert!(!attachment_wanted("invoice", &kw));
    assert!(is_attachment(false, "Application/PDF"));
    assert!(is_attachment(false, "image/png"));
    assert!(!is_attachment(false, "text/plain"));
    assert!(is_attachment(true, "text/plain"));
    assert_eq!(attachment_name(None), "attachment");
}

#[test]
fn uidl_lines_are_parsed() {
    assert_eq!(parse_uidl_line("3 abc "), Some((3, s("abc"))));
    assert_eq!(parse_uidl_line("12 a b"), Some((12, s("a b"))));
    assert_eq!(parse_uidl_line("x abc"), None);
    assert_eq!(parse_uidl_line("3"), None);
    assert_eq!(parse_uidl_line("99999999999 abc"), None);
}

#[test]
fn processed_uidls_are_remembered_once() {
    let mut processed = processed_uidls(" a, b,,a ");
    assert_eq!(processed, vec![s("a"), s("b")]);
    let all = vec![(1, s("a")), (2, s("c")), (3, s("d"))];
    let fresh = new_messages(&all, &processed);
    assert_eq!(fresh, vec![(2, s("c")), (3, s("d"))]);
    record_message_outcome(&mut processed, "c", Pop3MessageOutcome::Processed);
    record_message_outcome(&mut processed, "d", Pop3MessageOutcome::RetrieveFailed);
    mark_processed(&mut processed, "a");
    assert_eq!(processed_text(&processed), "a,b,c");
    assert_eq!(new_messages(&all, &processed), vec![(3, s("d"))]);
}

#[test]
fn date_header_is_found_in_any_case() {
    let lines = vec![s("From: x"), s("DATE:  Mon, 1 Jan 2024 10:00:00 +0800 ")];
    assert_eq!(header_date(&lines), Some(s("Mon, 1 Jan 2024 10:00:00 +0800")));
    assert_eq!(header_date(&vec![s("Subject: date:")]), None);
}

#[test]
fn old_mail_is_skipped() {
    let lines = vec![s("Subject: x"), s("Date: Sun, 02 Oct 2016 07:06:22 -0700 (PDT)")];
    // the date is 1475417182 seconds after the epoch
    assert!(!message_too_old(&lines, 1475417182, 0));
    assert!(message_too_old(&lines, 1475417182, 5));
    assert!(message_too_old(&lines, 1475417183, 0));
    assert!(!message_too_old(&lines, 1475417181, 999));
    assert!(!message_too_old(&vec![s("Subject: x")], i64::MAX, 0));
    assert!(!message_too_old(&vec![s("Date: 1 Foo 2020")], i64::MAX, 0));
    // text without any date part reads as the epoch itself
    assert!(message_too_old(&vec![s("Date: someday")], 1, 0));
    // a year chrono cannot represent never counts as old
    assert!(!message_too_old(&vec![s("Date: 1 Jan 300000 00:00:00")], i64::MAX, 0));
}

#[test]
fn connection_reports_count_mail() {
    assert_eq!(pop3_test_result(3).message, "POP3 连接成功，收件箱中有 3 封邮件");
    assert_eq!(imap_test_result("INBOX", 12).message, "连接成功，邮箱 INBOX 中有 12 封邮件");
    assert_eq!(imap_test_result("INBOX", 12).folder_count, Some(12));
    let r = empty_sync_result(4);
    assert_eq!((r.source_id, r.fetched_count, r.imported_count, r.jobs.len()), (4, 0, 0, 0));
}

#[test]
fn message_attachments_are_picked_depth_first() {
    let raw = [
        "From: a@example.com",
        "Subject: invoices",
        "MIME-Version: 1.0",
        "Content-Type: multipart/mixed; boundary=\"outer\"",
        "",
        "--outer",
        "Content-Type: multipart/alternative; boundary=\"inner\"",
        "",
        "--inner",
        "Content-Type: text/plain",
        "",
        "hello",
        "--inner",
        "Content-Type: application/pdf",
        "Content-Disposition: attachment; filename=\"invoice_a.pdf\"",
        "Content-Transfer-Encoding: base64",
        "",
        "JVBERi0x",
        "--inner--",
        "--outer",
        "Content-Type: image/png",
        "Content-Transfer-Encoding: base64",
        "",
        "aGk=",
        "--outer",
        "Content-Type: text/plain",
        "Content-Disposition: attachment; filename=\"notes.txt\"",
        "",
        "notes",
        "--outer",
        "Content-Type: image/jpeg",
        "Content-Disposition: attachment; filename=\"Invoice_b.JPG\"",
        "Content-Transfer-Encoding: base64",
        "",
        "/9j/",
        "--outer--",
    ]
    .join("\r\n");
    let all = wanted_attachments(raw.as_bytes(), &vec![]).expect("parsed");
    assert_eq!(all.len(), 2);
    assert_eq!(all[0].0, "invoice_a.pdf");
    assert_eq!(all[0].1, b"%PDF-1".to_vec());
    assert_eq!(all[1].0, "Invoice_b.JPG");
    assert_eq!(all[1].1, vec![0xff, 0xd8, 0xff]);
    let picked = wanted_attachments(raw.as_bytes(), &vec!["invoice_b".to_owned()]).expect("parsed");
    assert_eq!(picked.len(), 1);
    assert_eq!(picked[0].0, "Invoice_b.JPG");
}
