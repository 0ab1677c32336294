use invoicevault::app_core::import_failure_message;
use invoicevault::document::thumbnail_file_names;
use invoicevault::event::{event_paging, event_queries, event_total_pages, import_event_text, recognition_event_text};
use invoicevault::recognition::{
    add_page, auto_recognition_failure_title, combined_preview, generated_image_dirs, page_range_label,
    preview_line, recognition_job_outcome, recognition_source, recognition_title, should_embed, start_totals,
    PageRecognition, RecognitionSource,
};

#[test]
fn event_paging_clamps_page_and_size() {
    let p = event_paging(0, 500);
    assert_eq!((p.page, p.page_size, p.offset), (1, 100, 0));
    let p = event_paging(3, 20);
    assert_eq!((p.page, p.page_size, p.offset), (3, 20, 40));
    let p = event_paging(2, 0);
    assert_eq!((p.page, p.page_size, p.offset), (2, 1, 1));
}

#[test]
fn event_total_pages_rounds_up() {
    assert_eq!(event_total_pages(0, 20), 0);
    assert_eq!(event_total_pages(41, 20), 3);
    assert_eq!(event_total_pages(40, 20), 2);
}

#[test]
fn event_queries_with_and_without_filter() {
    let q = event_queries(true);
    assert_eq!(q.count_sql, "SELECT COUNT(*) FROM events WHERE event_type = ?1");
    assert!(q.list_sql.ends_with("WHERE event_type = ?1 ORDER BY created_at DESC LIMIT ?2 OFFSET ?3"));
    let q = event_queries(false);
    assert_eq!(q.count_sql, "SELECT COUNT(*) FROM events ");
    assert!(q.list_sql.ends_with("FROM events ORDER BY created_at DESC LIMIT ?1 OFFSET ?2"));
}

#[test]
fn import_event_texts() {
    let (title, description) = import_event_text(5, 3, 1, 1);
    assert_eq!(title, "导入 5 个文件");
    assert_eq!(description, "成功 3，重复 1，失败 1");
}

#[test]
fn recognition_event_texts() {
    let (t, d, s) = recognition_event_text("ACME", true, 1200, "qwen", 2);
    assert_eq!(t, "识别发票: ACME");
    assert_eq!(d, "模型 qwen，耗时 1200ms，2 页");
    assert_eq!(s, "completed");
    let (t, d, s) = recognition_event_text("a.pdf", false, 30, "qwen", 2);
    assert_eq!(t, "识别失败: a.pdf");
    assert_eq!(d, "模型 qwen，耗时 30ms");
    assert_eq!(s, "failed");
}

#[test]
fn pdf_is_rendered_page_by_page() {
    assert!(recognition_source("application/pdf") == RecognitionSource::PdfPages);
    assert!(recognition_source("image/png") == RecognitionSource::Image);
}

#[test]
fn totals_accumulate_pages() {
    let mut totals = start_totals("configured".to_owned());
    add_page(
        &mut totals,
        PageRecognition { model: "m1".to_owned(), duration_ms: 100, prompt_tokens: 10, completion_tokens: 5, total_tokens: 15 },
        Some("1"),
        "first",
    );
    add_page(
        &mut totals,
        PageRecognition { model: "m2".to_owned(), duration_ms: 50, prompt_tokens: 1, completion_tokens: 2, total_tokens: 3 },
        Some("2"),
        "second",
    );
    assert_eq!(totals.model, "m2");
    assert_eq!(totals.duration_ms, 150);
    assert_eq!((totals.prompt_tokens, totals.completion_tokens, totals.total_tokens), (11, 7, 18));
    assert_eq!(combined_preview(&totals), "page 1: first\npage 2: second");
}

#[test]
fn preview_line_of_image() {
    assert_eq!(preview_line(None, "x"), "image: x");
    assert_eq!(page_range_label(12), "12");
}

#[test]
fn titles() {
    assert_eq!(recognition_title(Some("ACME".to_owned())), "ACME");
    assert_eq!(recognition_title(None), "未知");
    assert_eq!(auto_recognition_failure_title(Some("a.pdf")), "自动识别失败: a.pdf");
    assert_eq!(auto_recognition_failure_title(None), "自动识别失败");
}

#[test]
fn job_outcome_maps_errors() {
    let (status, message) = recognition_job_outcome(None);
    assert_eq!(status, "imported");
    assert_eq!(message, None);
    let (status, message) = recognition_job_outcome(Some("timeout"));
    assert_eq!(status, "failed");
    assert_eq!(message, Some("识别失败：timeout".to_owned()));
    assert_eq!(import_failure_message("model says non-invoice"), "文件不含有发票");
    assert_eq!(
        import_failure_message("置信度过低"),
        "识别失败：可能是图片分辨率不清晰、内容不完整，或文件不含有可识别的发票。"
    );
}

#[test]
fn generated_dirs_and_embedding_switch() {
    assert_eq!(generated_image_dirs(), vec!["previews", "normalized", "pdf-pages"]);
    assert!(should_embed(true, true));
    assert!(!should_embed(true, false));
}

#[test]
fn thumbnail_names_start_at_first_page() {
    assert_eq!(thumbnail_file_names(Some("3-4")), vec!["page-3.jpg".to_owned(), "image.jpg".to_owned()]);
    assert_eq!(thumbnail_file_names(Some("x")), vec!["page-1.jpg".to_owned(), "image.jpg".to_owned()]);
    assert_eq!(thumbnail_file_names(None), vec!["image.jpg".to_owned()]);
}
