use invoicevault::llm::{audit_candidate, AuditCandidate};
use invoicevault::llm::{
    assistant_content, audit_pick, audit_prompt, clamp_selected_index, vlm_step, AuditReply, VlmAction,
    VlmVerdict, MAX_VLM_ATTEMPTS, extract_json_object, image_data_url, invoice_recognition_prompt,
    is_retryable_status, next_recognition_step, provider_endpoint, AttemptOutcome, LlmError, LlmProviderConfig,
    RetryStep, MAX_RETRIES,
};

fn config(base: &str, key: &str, model: &str, timeout: Option<u64>) -> LlmProviderConfig {
    LlmProviderConfig {
        base_url: base.to_owned(),
        api_key: key.to_owned(),
        model: model.to_owned(),
        timeout_seconds: timeout,
        scnet_ocr_api_key: None,
    }
}

#[test]
fn endpoint_is_trimmed_and_completed() {
    match provider_endpoint(&config(" https://api.example.com/v1/ ", " k ", " m ", Some(999)), 30) {
        Ok(p) => {
            assert_eq!(p.endpoint, "https://api.example.com/v1/chat/completions");
            assert_eq!(p.api_key, "k");
            assert_eq!(p.model, "m");
            assert_eq!(p.timeout_seconds, 300);
        },
        Err(_) => panic!("valid configuration"),
    }
    match provider_endpoint(&config("http://x", "k", "m", None), 0) {
        Ok(p) => assert_eq!(p.timeout_seconds, 1),
        Err(_) => panic!("valid configuration"),
    }
}

#[test]
fn endpoint_errors_in_order() {
    assert!(matches!(provider_endpoint(&config("u", " ", "m", None), 30), Err(LlmError::MissingApiKey)));
    assert!(matches!(provider_endpoint(&config("u", "k", "", None), 30), Err(LlmError::MissingModel)));
    assert!(matches!(provider_endpoint(&config("/", "", "", None), 30), Err(LlmError::MissingBaseUrl)));
}

#[test]
fn retryable_statuses() {
    assert!(is_retryable_status(429));
    assert!(is_retryable_status(503));
    assert!(!is_retryable_status(400));
}

#[test]
fn retries_back_off_and_stop() {
    assert!(
        next_recognition_step(1, &AttemptOutcome::NetworkError)
            == RetryStep::Retry { next_attempt: 2, sleep_secs: 4 }
    );
    assert!(next_recognition_step(MAX_RETRIES, &AttemptOutcome::NetworkError) == RetryStep::Fail);
    assert!(next_recognition_step(1, &AttemptOutcome::HttpStatus { status: 401 }) == RetryStep::Fail);
    assert!(next_recognition_step(2, &AttemptOutcome::Recognized) == RetryStep::Succeed);
}

#[test]
fn assistant_content_is_trimmed() {
    assert_eq!(assistant_content(Some("  {\"a\":1} \n")), Ok("{\"a\":1}".to_owned()));
    assert_eq!(assistant_content(Some("   ")), Err(LlmError::MissingAssistantContent));
    assert_eq!(assistant_content(None), Err(LlmError::MissingAssistantContent));
}

#[test]
fn json_object_skips_prose() {
    assert_eq!(
        extract_json_object("Result: {\"a\": {\"b\": \"}\"}} trailing"),
        Ok("{\"a\": {\"b\": \"}\"}}".to_owned())
    );
}

#[test]
fn image_data_url_encodes_bytes() {
    assert_eq!(image_data_url("image/png", b"hi"), Ok("data:image/png;base64,aGk=".to_owned()));
    assert_eq!(image_data_url("image/jpeg", &[0xff, 0xd8, 0xff]), Ok("data:image/jpeg;base64,/9j/".to_owned()));
    assert_eq!(image_data_url("image/gif", b"x"), Err(LlmError::UnsupportedImageMimeType));
}

#[test]
fn selected_index_is_clamped() {
    assert_eq!(clamp_selected_index(0, 3), 0);
    assert_eq!(clamp_selected_index(7, 3), 2);
}

#[test]
fn prompt_asks_for_json() {
    let prompt = invoice_recognition_prompt();
    assert!(prompt.contains("is_invoice"));
}

#[test]
fn weak_answers_are_retried_then_audited() {
    assert!(vlm_step(1, VlmVerdict::LowConfidence) == VlmAction::Retry { next_attempt: 2, backoff_secs: 2 });
    assert!(vlm_step(2, VlmVerdict::LowConfidence) == VlmAction::Retry { next_attempt: 3, backoff_secs: 3 });
    assert!(vlm_step(MAX_VLM_ATTEMPTS, VlmVerdict::LowConfidence) == VlmAction::Audit);
    assert!(vlm_step(1, VlmVerdict::NotInvoice) == VlmAction::Accept);
    assert!(vlm_step(3, VlmVerdict::Confident) == VlmAction::Accept);
}

#[test]
fn audit_falls_back_to_the_first_candidate() {
    assert_eq!(audit_pick(&AuditReply::HttpFailed, 3), (0, false));
    assert_eq!(audit_pick(&AuditReply::BadJson, 3), (0, false));
    assert_eq!(audit_pick(&AuditReply::Parsed { selected_index: Some(1) }, 3), (1, true));
    assert_eq!(audit_pick(&AuditReply::Parsed { selected_index: Some(9) }, 3), (2, true));
    assert_eq!(audit_pick(&AuditReply::Parsed { selected_index: None }, 3), (0, true));
}

#[test]
fn audit_prompt_names_the_candidate_count() {
    let p = audit_prompt(3, "[]");
    assert!(p.starts_with("你是发票识别结果审计引擎。"));
    assert!(p.contains("{\"selected_index\": 0, \"confidence\": 0.85, \"reason\": \"简要原因\"}"));
    assert!(p.ends_with("候选结果（共 3 个）：\n[]"));
}

#[test]
fn audit_candidates_leave_out_items_and_extra_fields() {
    match audit_candidate(0, r#"{"invoice_number": "1", "items": [], "extra_fields": {}, "total_amount": 5}"#) {
        AuditCandidate::Fields(fields) => {
            let keys: Vec<&str> = fields.iter().map(|(k, _)| k.as_str()).collect();
            assert_eq!(keys.len(), 2);
            assert!(keys.contains(&"invoice_number"));
            assert!(keys.contains(&"total_amount"));
            assert!(fields.iter().any(|(k, v)| k == "invoice_number" && v == "\"1\""));
        },
        _ => panic!("expected fields"),
    }
    assert!(matches!(audit_candidate(2, "[1]"), AuditCandidate::Index(2)));
    assert!(matches!(audit_candidate(1, "not json"), AuditCandidate::Unparsed));
}
