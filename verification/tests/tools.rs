use invoicevault::embedding::{
    embedding_model_presence, embedding_test_result, local_embedding_status, token_inputs, EmbeddingError,
};
use invoicevault::tools::{
    agent_upload_check, agent_upload_mime, ask_user_answer, ask_user_question, export_file_name, export_question,
    merge_question, save_location_options, AskUserAnswer, attachment_access, date_context, date_text, days_in_month, desktop_export_name, export_destination,
    inspection_rows, missing_argument, template_export_question, validate_agent_path, ExportDestination,
};

#[test]
fn agent_path_inside_allowed_dirs() {
    assert_eq!(validate_agent_path("/data/app/exports/a.xlsx", "/data/app", "/tmp", None), Ok(()));
    assert_eq!(validate_agent_path("/tmp/x.csv", "/data/app", "/tmp", None), Ok(()));
    assert_eq!(validate_agent_path("/home/u/Desktop/x.xlsx", "/data/app", "/tmp", Some("/home/u/Desktop")), Ok(()));
}

#[test]
fn agent_path_rejects_parent_components() {
    assert_eq!(
        validate_agent_path("/data/app/../etc/passwd", "/data/app", "/tmp", None),
        Err("路径不允许包含 ..".to_owned())
    );
}

#[test]
fn agent_path_rejects_other_dirs() {
    assert_eq!(
        validate_agent_path("/etc/passwd", "/data/app", "/tmp", None),
        Err("路径不在允许的目录中: /etc/passwd".to_owned())
    );
    // a sibling directory sharing a prefix is not inside
    assert!(validate_agent_path("/data/application/x", "/data/app", "/tmp", None).is_err());
}

#[test]
fn month_lengths() {
    assert_eq!(days_in_month(2024, 2), 29);
    assert_eq!(days_in_month(2023, 2), 28);
    assert_eq!(days_in_month(1900, 2), 28);
    assert_eq!(days_in_month(2000, 2), 29);
    assert_eq!(days_in_month(2024, 4), 30);
    assert_eq!(days_in_month(2024, 12), 31);
}

#[test]
fn date_context_of_a_day() {
    assert_eq!(date_text(2024, 3, 5), "2024-03-05");
    let c = date_context(2024, 2, 10);
    assert_eq!(c.today, "2024-02-10");
    assert_eq!(c.month_from, "2024-02-01");
    assert_eq!(c.month_to, "2024-02-29");
    assert_eq!((c.year, c.month), (2024, 2));
}

#[test]
fn inspection_row_limits() {
    assert_eq!(inspection_rows(None), 5);
    assert_eq!(inspection_rows(Some(0)), 1);
    assert_eq!(inspection_rows(Some(50)), 20);
    assert_eq!(inspection_rows(Some(7)), 7);
}

#[test]
fn tool_messages() {
    assert_eq!(missing_argument("invoice_id"), "缺少 invoice_id 参数");
    assert_eq!(attachment_access(1, 1), Ok(()));
    assert_eq!(attachment_access(1, 2), Err("附件不属于当前会话".to_owned()));
    assert_eq!(desktop_export_name("20240101_120000"), "发票导出_20240101_120000.xlsx");
}

#[test]
fn export_destinations() {
    assert!(matches!(export_destination(Some("cancel"), Some("/x")), ExportDestination::Cancelled));
    assert!(matches!(export_destination(Some("desktop"), None), ExportDestination::Desktop));
    match export_destination(None, Some("/tmp/a.xlsx")) {
        ExportDestination::Path { path } => assert_eq!(path, "/tmp/a.xlsx"),
        _ => panic!("expected a path"),
    }
    assert!(matches!(export_destination(Some("other"), None), ExportDestination::Missing));
}

#[test]
fn template_question_lists_warnings() {
    assert_eq!(
        template_export_question("月报", 3, 5, &vec![]),
        "将按模板「月报」导出 3 张发票（已映射 5 列）"
    );
    assert_eq!(
        template_export_question("月报", 3, 5, &vec!["a".to_owned(), "b".to_owned()]),
        "将按模板「月报」导出 3 张发票（已映射 5 列）\n注意: a; b"
    );
}

#[test]
fn embedding_messages_and_status() {
    assert_eq!(EmbeddingError::NotLoaded.message(), "embedding engine not loaded");
    assert_eq!(EmbeddingError::Download("net".to_owned()).message(), "model download failed: net");
    let r = embedding_test_result(512, 9);
    assert_eq!(r.model, "bge-small-zh-v1.5");
    assert_eq!((r.dimensions, r.duration_ms), (512, 9));
    assert_eq!(embedding_model_presence(true, true, "/m".to_owned()), (true, Some("/m".to_owned())));
    assert_eq!(embedding_model_presence(true, false, "/m".to_owned()), (false, None));
    let s = local_embedding_status(true, false, None, None, (true, Some("/m".to_owned())));
    assert_eq!(s.model_dir, Some("/m".to_owned()));
    assert!(s.model_present && !s.model_loaded);
}

#[test]
fn token_inputs_are_truncated_and_typed() {
    let (ids, mask, types) = token_inputs(&[101, 7, 102], &[1, 1, 1]);
    assert_eq!(ids, vec![101, 7, 102]);
    assert_eq!(mask, vec![1, 1, 1]);
    assert_eq!(types, vec![0, 0, 0]);
    let long: Vec<u32> = (0..600).collect();
    let (ids, _, _) = token_inputs(&long, &long);
    assert_eq!(ids.len(), 512);
}

#[test]
fn uploads_must_be_spreadsheets() {
    assert_eq!(agent_upload_check("/home/u/list.XLSX"), Ok("list.XLSX".to_owned()));
    assert_eq!(agent_upload_check("data.csv"), Ok("data.csv".to_owned()));
    assert_eq!(agent_upload_check("/home/u/scan.pdf"), Err("目前 Agent 仅支持上传 xlsx/csv 表格".to_owned()));
    assert_eq!(agent_upload_check("/home/u/noext"), Err("目前 Agent 仅支持上传 xlsx/csv 表格".to_owned()));
}

#[test]
fn upload_mime_follows_the_extension() {
    assert_eq!(agent_upload_mime("/s/1-a.csv"), Some("text/csv".to_owned()));
    assert_eq!(
        agent_upload_mime("/s/1-a.xlsx"),
        Some("application/vnd.openxmlformats-officedocument.spreadsheetml.sheet".to_owned())
    );
    assert_eq!(agent_upload_mime("/s/noext"), None);
}

#[test]
fn export_questions_describe_the_export() {
    assert_eq!(
        export_question(Some("xlsx"), 3, Some(&vec!["seller_name".to_owned(), "total_amount".to_owned()]), Some("2024-01-01"), Some("2024-03-31")),
        "将导出3 张发票为 xlsx 格式，列: seller_name, total_amount，日期 2024-01-01 至 2024-03-31。请选择保存位置。"
    );
    assert_eq!(
        export_question(None, 0, None, None, Some("2024-03-31")),
        "将导出匹配条件的发票为 csv 格式，全部默认列，日期截至 2024-03-31。请选择保存位置。"
    );
    assert_eq!(
        export_question(Some("csv"), 0, Some(&vec![]), Some("2024-01-01"), None),
        "将导出匹配条件的发票为 csv 格式，全部默认列，日期从 2024-01-01 起。请选择保存位置。"
    );
    assert_eq!(export_file_name("20240101_120000", Some("xlsx")), "发票导出_20240101_120000.xlsx");
    assert_eq!(export_file_name("20240101_120000", Some("pdf")), "发票导出_20240101_120000.csv");
    assert_eq!(export_file_name("20240101_120000", None), "发票导出_20240101_120000.csv");
}

#[test]
fn save_location_choices() {
    assert!(save_location_options(true).is_none());
    let options = save_location_options(false).expect("options");
    let values: Vec<(&str, &str, Option<&str>)> =
        options.iter().map(|o| (o.label.as_str(), o.value.as_str(), o.style.as_deref())).collect();
    assert_eq!(
        values,
        vec![
            ("保存到桌面", "desktop", Some("primary")),
            ("选择位置...", "pick_path", Some("secondary")),
            ("取消", "cancel", Some("danger")),
        ]
    );
}

#[test]
fn merge_and_ask_user() {
    assert_eq!(merge_question(&vec![3, 4], 7), "将发票 [3, 4] 合并到发票 #7，是否确认？");
    assert_eq!(merge_question(&vec![], 0), "将发票 [] 合并到发票 #0，是否确认？");
    assert_eq!(ask_user_question(None), "请确认");
    assert_eq!(ask_user_question(Some("继续吗？")), "继续吗？");
    assert!(matches!(ask_user_answer(Some("desktop"), None), AskUserAnswer::Desktop));
    assert!(matches!(ask_user_answer(Some("__other__"), Some("写在这里")), AskUserAnswer::Other { text } if text == "写在这里"));
    assert!(matches!(ask_user_answer(Some("__other__"), Some("")), AskUserAnswer::Selected { choice } if choice == "__other__"));
    assert!(matches!(ask_user_answer(Some("yes"), None), AskUserAnswer::Selected { choice } if choice == "yes"));
    assert!(matches!(ask_user_answer(None, Some("x")), AskUserAnswer::NoChoice));
}
