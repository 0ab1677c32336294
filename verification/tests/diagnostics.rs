use invoicevault::diag::{
    all_passed, check_items_count, comparison_step, ComparisonInput, check_text_field, comparison_passed, dependency_status,
    dependency_timeout_message, dependency_unavailable, embedding_step, infer_mime, recognition_step,
    text_generation_step, RecognitionCheck,
};
use invoicevault::document::{
    exif_orientation, needs_resize, order_pages, orientation_ops, page_number_from_stem, prepared_image_label,
    renderer_error_text, ImageOp,
};

#[test]
fn mime_from_extension_ignores_case() {
    assert_eq!(infer_mime("scan.PNG"), "image/png");
    assert_eq!(infer_mime("a.jpeg"), "image/jpeg");
    assert_eq!(infer_mime("a.JPG"), "image/jpeg");
    assert_eq!(infer_mime("a.pdf"), "application/octet-stream");
}

#[test]
fn text_field_takes_first_non_blank_candidate() {
    let candidates = vec![None, Some("  ".to_owned()), Some(" ACME Ltd ".to_owned())];
    let (ok, line) = check_text_field("seller_name", "ACME", &candidates);
    assert!(ok);
    assert_eq!(line, "seller_name: ✓ (ACME Ltd)");
    let (ok, line) = check_text_field("buyer_name", "Foo", &vec![None]);
    assert!(!ok);
    assert_eq!(line, "buyer_name: ✗ (期望: Foo, 实际: (空))");
}

#[test]
fn items_count_lines() {
    assert_eq!(check_items_count(2, Some(2)), (true, "items_count: ✓ (2)".to_owned()));
    assert_eq!(check_items_count(2, Some(1)), (false, "items_count: ✗ (期望: 2, 实际: 1)".to_owned()));
    assert_eq!(check_items_count(2, None), (false, "items_count: ✗ (期望: 2, 实际: (空))".to_owned()));
}

#[test]
fn comparison_needs_half_of_the_fields() {
    assert!(comparison_passed(3, 6));
    assert!(!comparison_passed(2, 6));
    assert!(!comparison_passed(0, 0));
}

#[test]
fn text_generation_outcomes() {
    let s = text_generation_step(12, Ok("hello"));
    assert!(s.passed);
    assert_eq!(s.name, "文本生成");
    assert_eq!(s.message, "成功，响应: hello");
    let s = text_generation_step(12, Err("timeout"));
    assert!(!s.passed);
    assert_eq!(s.message, "失败: timeout");
}

#[test]
fn recognition_step_passes_only_on_an_invoice() {
    let s = recognition_step(40, RecognitionCheck::Read { is_invoice: true, preview: "{}".to_owned() });
    assert!(s.passed);
    assert_eq!(s.message, "识别为有效发票");
    assert_eq!(s.details, Some("{}".to_owned()));
    let s = recognition_step(40, RecognitionCheck::Missing { path: "/x.png".to_owned() });
    assert!(!s.passed);
    assert_eq!(s.duration_ms, 0);
    assert_eq!(s.message, "测试图片不存在: /x.png");
    let s = recognition_step(40, RecognitionCheck::Read { is_invoice: false, preview: String::new() });
    assert!(!s.passed);
    assert_eq!(s.message, "未识别为发票");
}

#[test]
fn embedding_step_messages() {
    let s = embedding_step(Some(("bge", 512, 8)));
    assert!(s.passed);
    assert_eq!(s.message, "模型: bge，维度: 512，耗时: 8ms");
    let s = embedding_step(None);
    assert_eq!(s.message, "本地 Embedding 未加载，跳过");
    assert!(all_passed(&vec![embedding_step(None), s]));
    assert!(!all_passed(&vec![text_generation_step(1, Err("x"))]));
}

#[test]
fn dependency_version_is_first_non_blank_line() {
    let st = dependency_status("pdftoppm", "pdftoppm -v", b"", b"\n  pdftoppm version 22.02.0 \nCopyright", true, "exit 0".to_owned());
    assert!(st.available);
    assert_eq!(st.version, Some("pdftoppm version 22.02.0".to_owned()));
    assert_eq!(st.error, None);
    let st = dependency_status("x", "x", b"", b"", false, "exit status: 1".to_owned());
    assert!(!st.available);
    assert_eq!(st.error, Some("exit status: 1".to_owned()));
    let st = dependency_unavailable("x", "x", "not found".to_owned());
    assert!(!st.available);
    assert_eq!(dependency_timeout_message(), "检测超时（10s）");
}

#[test]
fn page_numbers_and_order() {
    assert_eq!(page_number_from_stem("page-12"), Some(12));
    assert_eq!(page_number_from_stem("page"), None);
    assert_eq!(prepared_image_label(Some(3)), "page-3");
    assert_eq!(prepared_image_label(None), "image");
    let ordered = order_pages(vec![(3, "c".to_owned()), (1, "a".to_owned()), (2, "b".to_owned())]);
    let numbers: Vec<usize> = ordered.iter().map(|p| p.0).collect();
    assert_eq!(numbers, vec![1, 2, 3]);
    assert_eq!(ordered[0].1, "a");
}

#[test]
fn orientation_handling() {
    assert_eq!(exif_orientation(Some(6)), 6);
    assert_eq!(exif_orientation(Some(9)), 1);
    assert_eq!(exif_orientation(None), 1);
    assert!(orientation_ops(6) == vec![ImageOp::Rotate90]);
    assert!(orientation_ops(5) == vec![ImageOp::FlipHorizontal, ImageOp::Rotate90]);
    assert!(orientation_ops(1).is_empty());
    assert!(needs_resize(4000, 100, 2048));
    assert!(!needs_resize(2048, 2048, 2048));
}

#[test]
fn renderer_error_is_truncated() {
    let long = "e".repeat(900);
    assert_eq!(renderer_error_text(&long).chars().count(), 800);
    assert_eq!(renderer_error_text("bad"), "bad");
}

#[test]
fn comparison_step_outcomes() {
    let s = comparison_step(ComparisonInput::Compared {
        matched: 3,
        total: 6,
        score: "50".to_owned(),
        details: "a".to_owned(),
    });
    assert!(s.passed);
    assert_eq!(s.name, "结果对比");
    assert_eq!(s.message, "匹配 3/6 字段，得分 50%");
    assert_eq!(s.details, Some("a".to_owned()));
    let s = comparison_step(ComparisonInput::Compared { matched: 2, total: 6, score: "33".to_owned(), details: String::new() });
    assert!(!s.passed);
    let s = comparison_step(ComparisonInput::NoGroundTruth);
    assert!(s.passed);
    assert_eq!(s.message, "未配置 ground truth，跳过对比");
    let s = comparison_step(ComparisonInput::NoRecognition);
    assert!(!s.passed);
    assert_eq!(s.message, "上一步未获得识别结果，跳过对比");
}
