use invoicevault::config::ChromaConfig;
use invoicevault::constants::{
    EMBEDDING_DIMENSIONS, EMBEDDING_MAX_TOKENS, EMBEDDING_ONNX_PATH, EMBEDDING_TOKENIZER_FILE,
};
use invoicevault::document::page_number_from_stem;
use invoicevault::extraction::{
    normalize_extraction, ExtractorError, InvoiceExtraction, PartyExtraction,
};
use invoicevault::llm::{extract_json_object, provider_endpoint, truncate, LlmError, LlmProviderConfig};

fn empty_party() -> PartyExtraction {
    PartyExtraction { name: None, tax_id: None }
}

fn extraction(is_invoice: bool, issue_date: Option<&str>) -> InvoiceExtraction {
    InvoiceExtraction {
        is_invoice,
        invoice_type: None,
        invoice_code: None,
        invoice_number: None,
        issue_date: issue_date.map(|d| d.to_owned()),
        seller: empty_party(),
        buyer: empty_party(),
        currency: None,
        amount_without_tax: None,
        tax_amount: None,
        total_amount: None,
        category: None,
        items: Vec::new(),
        remarks: None,
        confidence: None,
        needs_review: None,
    }
}

#[test]
fn default_config_is_enabled() {
    let config = ChromaConfig::default();
    assert!(config.enabled);
}

#[test]
fn parses_pdftoppm_page_number_from_stem() {
    assert_eq!(page_number_from_stem("page-1"), Some(1));
    assert_eq!(page_number_from_stem("page-000012"), Some(12));
    assert_eq!(page_number_from_stem("page"), None);
}

#[test]
fn ensure_model_dir_constants_are_valid() {
    assert!(!EMBEDDING_ONNX_PATH.is_empty());
    assert!(!EMBEDDING_TOKENIZER_FILE.is_empty());
    assert!(EMBEDDING_DIMENSIONS > 0);
    assert!(EMBEDDING_MAX_TOKENS > 0);
}

#[test]
fn truncates_by_char_boundary() {
    assert_eq!(truncate("发票识别", 2), "发票");
}

#[test]
fn extracts_json_from_fenced_response() {
    let json = extract_json_object(
        "```json\n{\"is_invoice\": true, \"remarks\": \"brace in string } ok\"}\n```",
    );
    match json {
        Ok(j) => assert_eq!(j, "{\"is_invoice\": true, \"remarks\": \"brace in string } ok\"}"),
        Err(_) => panic!("json object"),
    }
}

#[test]
fn rejects_response_without_json() {
    let err = extract_json_object("not json");
    assert!(matches!(err, Err(LlmError::MissingJsonObject)));
}

#[test]
fn rejects_missing_provider_fields() {
    let config = LlmProviderConfig {
        base_url: String::new(),
        api_key: "key".to_owned(),
        model: "model".to_owned(),
        timeout_seconds: Some(1),
        scnet_ocr_api_key: None,
    };
    let err = provider_endpoint(&config, 30);
    assert!(matches!(err, Err(LlmError::MissingBaseUrl)));
}

#[test]
fn rejects_non_invoice_extraction() {
    let mut e = extraction(false, None);
    let err = normalize_extraction(&mut e);
    assert!(matches!(err, Err(ExtractorError::NonInvoice)));
}

#[test]
fn rejects_invalid_issue_date() {
    let mut e = extraction(true, Some("04/30/2026"));
    let err = normalize_extraction(&mut e);
    assert!(matches!(err, Err(ExtractorError::InvalidIssueDate(_))));
}
