use invoicevault::dedupe::{
    duplicate_status, exact_rule_applies, field_match_score, field_rule_query, has_comparable_field,
    has_exact_duplicate, match_count, max_score, resolve_action, resolve_result, resolve_steps,
    DedupeStep, MatchFields, ResolveAction, EXACT_MATCH_SCORE,
};
use invoicevault::sql::SqlValue;

fn fields(number: Option<&str>, date: Option<&str>, amount: Option<&str>, seller: Option<&str>) -> MatchFields {
    MatchFields {
        invoice_number: number.map(|s| s.to_owned()),
        issue_date: date.map(|s| s.to_owned()),
        total_amount: amount.map(|s| s.to_owned()),
        seller_name: seller.map(|s| s.to_owned()),
    }
}

#[test]
fn match_count_counts_equal_present_fields() {
    let mine = fields(Some("001"), Some("2024-01-02"), Some("100.00"), Some("ACME"));
    let theirs = fields(Some("001"), Some("2024-01-02"), Some("99.00"), Some("ACME"));
    assert_eq!(match_count(&mine, &theirs), 3);
}

#[test]
fn empty_field_never_matches() {
    let mine = fields(Some(""), None, Some("1"), None);
    let theirs = fields(Some(""), None, Some("1"), None);
    assert_eq!(match_count(&mine, &theirs), 1);
}

#[test]
fn field_score_thresholds() {
    assert_eq!(field_match_score(4), Some(80));
    assert_eq!(field_match_score(3), Some(80));
    assert_eq!(field_match_score(2), Some(60));
    assert_eq!(field_match_score(1), None);
    assert_eq!(field_match_score(0), None);
}

#[test]
fn comparable_field_needs_a_present_value() {
    assert!(!has_comparable_field(&fields(Some(""), None, None, None)));
    assert!(has_comparable_field(&fields(None, None, None, Some("ACME"))));
}

#[test]
fn exact_rule_needs_code_and_number() {
    assert!(exact_rule_applies(&Some("C".to_owned()), &Some("N".to_owned())));
    assert!(!exact_rule_applies(&Some("C".to_owned()), &Some(String::new())));
    assert!(!exact_rule_applies(&None, &Some("N".to_owned())));
}

#[test]
fn field_rule_query_excludes_exact_matches() {
    let q = field_rule_query(7, &[3, 5]);
    assert_eq!(
        q.sql,
        "SELECT id, invoice_number, issue_date, total_amount, seller_name FROM invoices WHERE id != ?1 AND id != ?2 AND id != ?3"
    );
    assert_eq!(q.params, vec![SqlValue::Integer(7), SqlValue::Integer(3), SqlValue::Integer(5)]);
}

#[test]
fn status_follows_highest_open_score() {
    assert_eq!(duplicate_status(None), "unique");
    assert_eq!(duplicate_status(Some(60)), "possible_duplicate");
    assert_eq!(duplicate_status(Some(EXACT_MATCH_SCORE)), "probable_duplicate");
}

#[test]
fn max_score_of_scores() {
    assert_eq!(max_score(&[]), None);
    assert_eq!(max_score(&[60, 95, 80]), Some(95));
    assert_eq!(duplicate_status(max_score(&[60, 80])), "possible_duplicate");
}

#[test]
fn exact_duplicate_detected_by_score() {
    assert!(has_exact_duplicate(&[60, 95]));
    assert!(!has_exact_duplicate(&[60, 80]));
}

#[test]
fn resolve_action_names() {
    assert!(resolve_action("confirm") == Some(ResolveAction::Confirm));
    assert!(resolve_action("keep_both") == Some(ResolveAction::KeepBoth));
    assert!(resolve_action("delete") == None);
}

#[test]
fn keep_current_deletes_the_other_invoice() {
    let steps = resolve_steps(&ResolveAction::KeepCurrent, 1, 2);
    assert!(steps == vec![DedupeStep::DeleteInvoice { invoice_id: 2 }, DedupeStep::Recalculate { invoice_id: 1 }]);
    let result = resolve_result("keep_current".to_owned(), 1, 2);
    assert_eq!(result.action, "keep_current");
    assert_eq!(result.deleted_invoice_id, Some(2));
}

#[test]
fn keep_both_deletes_nothing() {
    let steps = resolve_steps(&ResolveAction::KeepBoth, 1, 2);
    let deletes = steps.iter().filter(|s| matches!(s, DedupeStep::DeleteInvoice { .. })).count();
    assert_eq!(deletes, 0);
    assert_eq!(resolve_result("keep_both".to_owned(), 1, 2).deleted_invoice_id, None);
    assert_eq!(resolve_result("keep_other".to_owned(), 1, 2).deleted_invoice_id, Some(1));
}
