//! Duplicate detection between invoices: the scores of field matches, the
//! duplicate status that the open candidates give an invoice, and what
//! resolving a candidate pair does.  Scores are whole percentages.
use vstd::prelude::*;

use crate::exporter::SqlQuery;
use crate::search::ostr;
use crate::sql::{values_view, SqlValue, SqlValueView};
use crate::text::{chars_eq, chars_eq_str, chars_of, dec, push_str, push_usize, string_from_chars};

verus! {

pub struct ResolveDuplicateRequest {
    pub dedupe_id: i64,
    pub action: String,
}

pub struct ResolveDuplicateResult {
    pub action: String,
    pub deleted_invoice_id: Option<i64>,
}

/// Score of a candidate with the same invoice code and number.
pub const EXACT_MATCH_SCORE: u32 = 95;

/// The fields compared between two invoices.
pub struct MatchFields {
    pub invoice_number: Option<String>,
    pub issue_date: Option<String>,
    pub total_amount: Option<String>,
    pub seller_name: Option<String>,
}

/// A present, non-empty field.
pub open spec fn present(o: Option<Seq<char>>) -> Option<Seq<char>> {
    match o {
        Some(s) => if s.len() > 0 {
            Some(s)
        } else {
            None
        },
        None => None,
    }
}

/// One field matches when this invoice has it (not empty) and the other
/// holds the same text.
pub open spec fn field_matches(mine: Option<Seq<char>>, theirs: Option<Seq<char>>) -> bool {
    match (present(mine), theirs) {
        (Some(a), Some(b)) => a == b,
        _ => false,
    }
}

pub open spec fn match_count_spec(mine: MatchFields, theirs: MatchFields) -> nat {
    (if field_matches(ostr(mine.invoice_number), ostr(theirs.invoice_number)) {
        1nat
    } else {
        0nat
    }) + (if field_matches(ostr(mine.issue_date), ostr(theirs.issue_date)) {
        1nat
    } else {
        0nat
    }) + (if field_matches(ostr(mine.total_amount), ostr(theirs.total_amount)) {
        1nat
    } else {
        0nat
    }) + (if field_matches(ostr(mine.seller_name), ostr(theirs.seller_name)) {
        1nat
    } else {
        0nat
    })
}

fn field_match(mine: &Option<String>, theirs: &Option<String>) -> (b: bool)
    ensures
        b == field_matches(ostr(*mine), ostr(*theirs)),
{
    match (mine, theirs) {
        (Some(a), Some(b)) => {
            let ac = chars_of(a.as_str());
            let bc = chars_of(b.as_str());
            ac.len() > 0 && chars_eq(&ac, &bc)
        },
        _ => false,
    }
}

/// How many of the number, date, amount and seller of this invoice the
/// other one shares.
pub fn match_count(mine: &MatchFields, theirs: &MatchFields) -> (r: u32)
    ensures
        r == match_count_spec(*mine, *theirs),
        r <= 4,
{
    let mut n: u32 = 0;
    if field_match(&mine.invoice_number, &theirs.invoice_number) {
        n += 1;
    }
    if field_match(&mine.issue_date, &theirs.issue_date) {
        n += 1;
    }
    if field_match(&mine.total_amount, &theirs.total_amount) {
        n += 1;
    }
    if field_match(&mine.seller_name, &theirs.seller_name) {
        n += 1;
    }
    n
}

/// The score of a field match: 80 for three or four shared fields, 60 for
/// two, no candidate otherwise.
pub open spec fn field_score_spec(count: nat) -> Option<u32> {
    if count >= 3 {
        Some(80)
    } else if count >= 2 {
        Some(60)
    } else {
        None
    }
}

pub fn field_match_score(count: u32) -> (r: Option<u32>)
    ensures
        r == field_score_spec(count as nat),
{
    if count >= 3 {
        Some(80)
    } else if count >= 2 {
        Some(60)
    } else {
        None
    }
}

/// The field rule compares only when this invoice has one of the fields.
pub fn has_comparable_field(mine: &MatchFields) -> (b: bool)
    ensures
        b == (present(ostr(mine.invoice_number)) is Some || present(ostr(mine.issue_date)) is Some
            || present(ostr(mine.total_amount)) is Some || present(ostr(mine.seller_name)) is Some),
{
    let nonempty = |o: &Option<String>| -> (b: bool)
        ensures
            b == (present(ostr(*o)) is Some),
        {
            match o {
                Some(s) => chars_of(s.as_str()).len() > 0,
                None => false,
            }
        };
    nonempty(&mine.invoice_number) || nonempty(&mine.issue_date) || nonempty(&mine.total_amount)
        || nonempty(&mine.seller_name)
}

/// The exact rule applies when this invoice has a non-empty code and
/// number.
pub fn exact_rule_applies(invoice_code: &Option<String>, invoice_number: &Option<String>) -> (b: bool)
    ensures
        b == (present(ostr(*invoice_code)) is Some && present(ostr(*invoice_number)) is Some),
{
    match (invoice_code, invoice_number) {
        (Some(c), Some(n)) => chars_of(c.as_str()).len() > 0 && chars_of(n.as_str()).len() > 0,
        _ => false,
    }
}

/// The fields the duplicate check reads of the invoice itself: code,
/// number, date, amount and seller.
pub fn match_fields_query(invoice_id: i64) -> (r: SqlQuery)
    ensures
        r.sql@ == "SELECT invoice_code, invoice_number, issue_date, total_amount, seller_name FROM invoices WHERE id = ?1"@,
        values_view(r.params@) == seq![SqlValueView::Integer(invoice_id as int)],
{
    let mut params: Vec<SqlValue> = Vec::new();
    params.push(SqlValue::Integer(invoice_id));
    assert(values_view(params@) =~= seq![SqlValueView::Integer(invoice_id as int)]);
    SqlQuery {
        sql: "SELECT invoice_code, invoice_number, issue_date, total_amount, seller_name FROM invoices WHERE id = ?1".to_owned(),
        params,
    }
}

/// The query of the exact rule: the other invoices with the same code and
/// number.
pub fn exact_rule_query(invoice_id: i64, invoice_code: &str, invoice_number: &str) -> (r: SqlQuery)
    ensures
        r.sql@ == "SELECT id FROM invoices WHERE id != ?1 AND invoice_code = ?2 AND invoice_number = ?3"@,
        values_view(r.params@) == seq![
            SqlValueView::Integer(invoice_id as int),
            SqlValueView::Text(invoice_code@),
            SqlValueView::Text(invoice_number@),
        ],
{
    let mut params: Vec<SqlValue> = Vec::new();
    params.push(SqlValue::Integer(invoice_id));
    params.push(SqlValue::Text(string_from_chars(chars_of(invoice_code).as_slice())));
    params.push(SqlValue::Text(string_from_chars(chars_of(invoice_number).as_slice())));
    assert(values_view(params@) =~= seq![
        SqlValueView::Integer(invoice_id as int),
        SqlValueView::Text(invoice_code@),
        SqlValueView::Text(invoice_number@),
    ]);
    SqlQuery {
        sql: "SELECT id FROM invoices WHERE id != ?1 AND invoice_code = ?2 AND invoice_number = ?3".to_owned(),
        params,
    }
}

/// Stores a field-match candidate as open, keeping a verdict the user
/// already gave on the pair.
pub fn candidate_upsert(invoice_id: i64, candidate_id: i64, score: u32) -> (r: SqlQuery)
    ensures
        r.sql@ == "INSERT INTO dedupe_candidates (invoice_id, candidate_invoice_id, score, reason, status) VALUES (?1, ?2, ?3, 'field_match', 'open') ON CONFLICT(invoice_id, candidate_invoice_id) DO UPDATE SET score = excluded.score, reason = excluded.reason, status = CASE WHEN dedupe_candidates.status IN ('confirm', 'ignore') THEN dedupe_candidates.status ELSE 'open' END"@,
        values_view(r.params@) == seq![
            SqlValueView::Integer(invoice_id as int),
            SqlValueView::Integer(candidate_id as int),
            SqlValueView::Integer(score as int),
        ],
{
    let mut params: Vec<SqlValue> = Vec::new();
    params.push(SqlValue::Integer(invoice_id));
    params.push(SqlValue::Integer(candidate_id));
    params.push(SqlValue::Integer(score as i64));
    assert(values_view(params@) =~= seq![
        SqlValueView::Integer(invoice_id as int),
        SqlValueView::Integer(candidate_id as int),
        SqlValueView::Integer(score as int),
    ]);
    SqlQuery {
        sql: "INSERT INTO dedupe_candidates (invoice_id, candidate_invoice_id, score, reason, status) VALUES (?1, ?2, ?3, 'field_match', 'open') ON CONFLICT(invoice_id, candidate_invoice_id) DO UPDATE SET score = excluded.score, reason = excluded.reason, status = CASE WHEN dedupe_candidates.status IN ('confirm', 'ignore') THEN dedupe_candidates.status ELSE 'open' END".to_owned(),
        params,
    }
}

/// The best score among an invoice's open candidates.
pub fn open_max_score_query(invoice_id: i64) -> (r: SqlQuery)
    ensures
        r.sql@ == "SELECT MAX(score) FROM dedupe_candidates WHERE invoice_id = ?1 AND status = 'open'"@,
        values_view(r.params@) == seq![SqlValueView::Integer(invoice_id as int)],
{
    let mut params: Vec<SqlValue> = Vec::new();
    params.push(SqlValue::Integer(invoice_id));
    assert(values_view(params@) =~= seq![SqlValueView::Integer(invoice_id as int)]);
    SqlQuery {
        sql: "SELECT MAX(score) FROM dedupe_candidates WHERE invoice_id = ?1 AND status = 'open'".to_owned(),
        params,
    }
}

/// Stores the duplicate status that an invoice's best open candidate gives
/// it.
pub fn status_update(invoice_id: i64, max_open_score: Option<u32>) -> (r: SqlQuery)
    ensures
        r.sql@ == "UPDATE invoices SET duplicate_status = ?2, updated_at = CURRENT_TIMESTAMP WHERE id = ?1"@,
        values_view(r.params@) == seq![
            SqlValueView::Integer(invoice_id as int),
            SqlValueView::Text(duplicate_status_spec(max_open_score)),
        ],
{
    let status = duplicate_status(max_open_score);
    let mut params: Vec<SqlValue> = Vec::new();
    params.push(SqlValue::Integer(invoice_id));
    params.push(SqlValue::Text(string_from_chars(chars_of(status).as_slice())));
    assert(values_view(params@) =~= seq![
        SqlValueView::Integer(invoice_id as int),
        SqlValueView::Text(duplicate_status_spec(max_open_score)),
    ]);
    SqlQuery {
        sql: "UPDATE invoices SET duplicate_status = ?2, updated_at = CURRENT_TIMESTAMP WHERE id = ?1".to_owned(),
        params,
    }
}

/// The query of the field rule: every other invoice, except those already
/// found by the exact rule.
pub fn field_rule_query(invoice_id: i64, exact_ids: &[i64]) -> (r: SqlQuery)
    requires
        exact_ids.len() + 2 <= usize::MAX,
    ensures
        values_view(r.params@) == seq![SqlValueView::Integer(invoice_id as int)] + exact_ids@.map_values(
            |i: i64| SqlValueView::Integer(i as int),
        ),
        r.sql@ == "SELECT id, invoice_number, issue_date, total_amount, seller_name FROM invoices WHERE id != ?1"@
            + excluded_ids_spec(exact_ids@.len()),
{
    let mut sql: Vec<char> = Vec::new();
    push_str(
        &mut sql,
        "SELECT id, invoice_number, issue_date, total_amount, seller_name FROM invoices WHERE id != ?1",
    );
    let ghost head = sql@;
    let mut params: Vec<SqlValue> = Vec::new();
    params.push(SqlValue::Integer(invoice_id));
    let mut i: usize = 0;
    while i < exact_ids.len()
        invariant
            i <= exact_ids.len(),
            exact_ids.len() + 2 <= usize::MAX,
            params.len() == i + 1,
            values_view(params@) =~= seq![SqlValueView::Integer(invoice_id as int)] + exact_ids@.take(
                i as int,
            ).map_values(|x: i64| SqlValueView::Integer(x as int)),
            sql@ == head + excluded_ids_spec(i as nat),
        decreases exact_ids.len() - i,
    {
        push_str(&mut sql, " AND id != ?");
        push_usize(&mut sql, params.len() + 1);
        let ghost before = params@;
        params.push(SqlValue::Integer(exact_ids[i]));
        assert(values_view(params@) =~= values_view(before).push(
            SqlValueView::Integer(exact_ids@[i as int] as int),
        ));
        assert(exact_ids@.take(i as int + 1) =~= exact_ids@.take(i as int).push(exact_ids@[i as int]));
        i += 1;
    }
    assert(exact_ids@.take(exact_ids.len() as int) =~= exact_ids@);
    SqlQuery { sql: string_from_chars(sql.as_slice()), params }
}

/// ` AND id != ?2 AND id != ?3 ...` for `n` excluded ids.
pub open spec fn excluded_ids_spec(n: nat) -> Seq<char>
    decreases n,
{
    if n == 0 {
        Seq::empty()
    } else {
        excluded_ids_spec((n - 1) as nat) + " AND id != ?"@ + dec(n + 1)
    }
}

// ---------------------------------------------------------------------------
// Duplicate status
// ---------------------------------------------------------------------------

/// The duplicate status of an invoice from its best open candidate: an
/// exact match makes it a probable duplicate, any other candidate a possible
/// one, no candidate unique.
pub open spec fn duplicate_status_spec(max_open_score: Option<u32>) -> Seq<char> {
    match max_open_score {
        Some(s) => if s >= 95 {
            "probable_duplicate"@
        } else {
            "possible_duplicate"@
        },
        None => "unique"@,
    }
}

pub fn duplicate_status(max_open_score: Option<u32>) -> (r: &'static str)
    ensures
        r@ == duplicate_status_spec(max_open_score),
{
    match max_open_score {
        Some(s) => if s >= 95 {
            "probable_duplicate"
        } else {
            "possible_duplicate"
        },
        None => "unique",
    }
}

/// The best of the open candidates' scores.
pub open spec fn max_score_spec(scores: Seq<u32>) -> Option<u32>
    decreases scores.len(),
{
    if scores.len() == 0 {
        None
    } else {
        match max_score_spec(scores.drop_last()) {
            Some(m) => if scores.last() > m {
                Some(scores.last())
            } else {
                Some(m)
            },
            None => Some(scores.last()),
        }
    }
}

pub fn max_score(scores: &[u32]) -> (r: Option<u32>)
    ensures
        r == max_score_spec(scores@),
{
    let mut m: Option<u32> = None;
    let mut i: usize = 0;
    while i < scores.len()
        invariant
            i <= scores.len(),
            m == max_score_spec(scores@.take(i as int)),
        decreases scores.len() - i,
    {
        let ghost t = scores@.take(i as int + 1);
        assert(t.drop_last() =~= scores@.take(i as int));
        let s = scores[i];
        m = match m {
            Some(x) => if s > x {
                Some(s)
            } else {
                Some(x)
            },
            None => Some(s),
        };
        i += 1;
    }
    assert(scores@.take(scores.len() as int) =~= scores@);
    m
}

/// A check reports an exact duplicate when a candidate scores 95 or more.
pub fn has_exact_duplicate(scores: &[u32]) -> (b: bool)
    ensures
        b == exists|k: int| 0 <= k < scores@.len() && scores@[k] >= 95,
{
    let mut i: usize = 0;
    while i < scores.len()
        invariant
            i <= scores.len(),
            forall|k: int| 0 <= k < i ==> scores@[k] < 95,
        decreases scores.len() - i,
    {
        if scores[i] >= 95 {
            return true;
        }
        i += 1;
    }
    false
}

proof fn lemma_max_is_bound(scores: Seq<u32>)
    ensures
        max_score_spec(scores) matches Some(m) ==> (exists|k: int| 0 <= k < scores.len() && scores[k]
            == m) && forall|k: int| 0 <= k < scores.len() ==> scores[k] <= m,
        scores.len() > 0 ==> max_score_spec(scores) is Some,
    decreases scores.len(),
{
    if scores.len() > 0 {
        lemma_max_is_bound(scores.drop_last());
        let init = scores.drop_last();
        match max_score_spec(init) {
            Some(m) => {
                let k0 = choose|k: int| 0 <= k < init.len() && init[k] == m;
                assert(scores[k0] == m);
                assert forall|k: int| 0 <= k < scores.len() implies scores[k] <= max_score_spec(
                    scores,
                )->0 by {
                    if k < init.len() {
                        assert(scores[k] == init[k]);
                    }
                }
            },
            None => {},
        }
    }
}

/// The duplicate status agrees with the check: an invoice is a probable
/// duplicate exactly when one of its open candidates is an exact match, and
/// unique exactly when it has no open candidate.
pub proof fn law_status_matches_candidates(scores: Seq<u32>)
    ensures
        (duplicate_status_spec(max_score_spec(scores)) == "probable_duplicate"@) <==> exists|k: int|
            0 <= k < scores.len() && scores[k] >= 95,
        (duplicate_status_spec(max_score_spec(scores)) == "unique"@) <==> scores.len() == 0,
{
    lemma_max_is_bound(scores);
    reveal_strlit("probable_duplicate");
    reveal_strlit("possible_duplicate");
    reveal_strlit("unique");
    assert("probable_duplicate"@ != "possible_duplicate"@) by {
        assert("probable_duplicate"@[1] != "possible_duplicate"@[1]);
    }
    assert("unique"@.len() != "possible_duplicate"@.len());
    assert("unique"@.len() != "probable_duplicate"@.len());
}

// ---------------------------------------------------------------------------
// Resolving a candidate pair
// ---------------------------------------------------------------------------

/// The actions a user can take on a candidate pair.
#[derive(PartialEq, Eq, Structural)]
pub enum ResolveAction {
    Confirm,
    Ignore,
    KeepCurrent,
    KeepOther,
    KeepBoth,
}

pub open spec fn resolve_action_spec(a: Seq<char>) -> Option<ResolveAction> {
    if a == "confirm"@ {
        Some(ResolveAction::Confirm)
    } else if a == "ignore"@ {
        Some(ResolveAction::Ignore)
    } else if a == "keep_current"@ {
        Some(ResolveAction::KeepCurrent)
    } else if a == "keep_other"@ {
        Some(ResolveAction::KeepOther)
    } else if a == "keep_both"@ {
        Some(ResolveAction::KeepBoth)
    } else {
        None
    }
}

pub fn resolve_action(action: &str) -> (r: Option<ResolveAction>)
    ensures
        r == resolve_action_spec(action@),
{
    let a = chars_of(action);
    if chars_eq_str(&a, "confirm") {
        Some(ResolveAction::Confirm)
    } else if chars_eq_str(&a, "ignore") {
        Some(ResolveAction::Ignore)
    } else if chars_eq_str(&a, "keep_current") {
        Some(ResolveAction::KeepCurrent)
    } else if chars_eq_str(&a, "keep_other") {
        Some(ResolveAction::KeepOther)
    } else if chars_eq_str(&a, "keep_both") {
        Some(ResolveAction::KeepBoth)
    } else {
        None
    }
}

/// One change to the stored data made while resolving a pair.
#[derive(PartialEq, Eq, Structural)]
pub enum DedupeStep {
    /// Record the user's verdict (`confirm` or `ignore`) on the candidate.
    SetCandidateVerdict { confirm: bool },
    /// Mark the invoice a probable duplicate.
    MarkProbableDuplicate { invoice_id: i64 },
    /// Recompute the duplicate status of the invoice.
    Recalculate { invoice_id: i64 },
    /// Delete the invoice, and every candidate that names it.
    DeleteInvoice { invoice_id: i64 },
    /// Mark the pair, both ways, as not duplicates.
    MarkPairDistinct { a: i64, b: i64 },
}

/// The changes of an action on the pair (`invoice_id`, `candidate_id`), in
/// order.
pub open spec fn resolve_steps_spec(action: ResolveAction, invoice_id: i64, candidate_id: i64) -> Seq<
    DedupeStep,
> {
    match action {
        ResolveAction::Confirm => seq![
            DedupeStep::SetCandidateVerdict { confirm: true },
            DedupeStep::MarkProbableDuplicate { invoice_id },
        ],
        ResolveAction::Ignore => seq![
            DedupeStep::SetCandidateVerdict { confirm: false },
            DedupeStep::Recalculate { invoice_id },
        ],
        ResolveAction::KeepCurrent => seq![
            DedupeStep::DeleteInvoice { invoice_id: candidate_id },
            DedupeStep::Recalculate { invoice_id },
        ],
        ResolveAction::KeepOther => seq![
            DedupeStep::DeleteInvoice { invoice_id },
            DedupeStep::Recalculate { invoice_id: candidate_id },
        ],
        ResolveAction::KeepBoth => seq![
            DedupeStep::MarkPairDistinct { a: invoice_id, b: candidate_id },
            DedupeStep::Recalculate { invoice_id },
            DedupeStep::Recalculate { invoice_id: candidate_id },
        ],
    }
}

pub fn resolve_steps(action: &ResolveAction, invoice_id: i64, candidate_id: i64) -> (r: Vec<
    DedupeStep,
>)
    ensures
        r@ == resolve_steps_spec(*action, invoice_id, candidate_id),
{
    let mut r: Vec<DedupeStep> = Vec::new();
    match action {
        ResolveAction::Confirm => {
            r.push(DedupeStep::SetCandidateVerdict { confirm: true });
            r.push(DedupeStep::MarkProbableDuplicate { invoice_id });
        },
        ResolveAction::Ignore => {
            r.push(DedupeStep::SetCandidateVerdict { confirm: false });
            r.push(DedupeStep::Recalculate { invoice_id });
        },
        ResolveAction::KeepCurrent => {
            r.push(DedupeStep::DeleteInvoice { invoice_id: candidate_id });
            r.push(DedupeStep::Recalculate { invoice_id });
        },
        ResolveAction::KeepOther => {
            r.push(DedupeStep::DeleteInvoice { invoice_id });
            r.push(DedupeStep::Recalculate { invoice_id: candidate_id });
        },
        ResolveAction::KeepBoth => {
            r.push(DedupeStep::MarkPairDistinct { a: invoice_id, b: candidate_id });
            r.push(DedupeStep::Recalculate { invoice_id });
            r.push(DedupeStep::Recalculate { invoice_id: candidate_id });
        },
    }
    assert(r@ =~= resolve_steps_spec(*action, invoice_id, candidate_id));
    r
}

/// The answer of a resolution: the action as given (an unknown one changes
/// nothing), and the invoice deleted, if any.
pub fn resolve_result(action: String, invoice_id: i64, candidate_id: i64) -> (r:
    ResolveDuplicateResult)
    ensures
        r.action@ == action@,
        r.deleted_invoice_id == match resolve_action_spec(action@) {
            Some(ResolveAction::KeepCurrent) => Some(candidate_id),
            Some(ResolveAction::KeepOther) => Some(invoice_id),
            _ => None,
        },
{
    let deleted = match resolve_action(action.as_str()) {
        Some(ResolveAction::KeepCurrent) => Some(candidate_id),
        Some(ResolveAction::KeepOther) => Some(invoice_id),
        _ => None,
    };
    ResolveDuplicateResult { action, deleted_invoice_id: deleted }
}

/// The verdict recorded on the candidate is the one the user gave: confirming
/// records `confirm`, ignoring records `ignore`, and the other actions
/// record no verdict; confirming and ignoring record it first, exactly
/// once.
pub proof fn law_verdict_is_the_action(action: ResolveAction, invoice_id: i64, candidate_id: i64)
    ensures
        ({
            let steps = resolve_steps_spec(action, invoice_id, candidate_id);
            &&& forall|k: int|
                0 <= k < steps.len() ==> (#[trigger] steps[k] matches DedupeStep::SetCandidateVerdict {
                    confirm,
                } ==> k == 0 && (action == ResolveAction::Confirm || action == ResolveAction::Ignore)
                    && confirm == (action == ResolveAction::Confirm))
            &&& (action == ResolveAction::Confirm || action == ResolveAction::Ignore) ==> steps.len() > 0
                && steps[0] == (DedupeStep::SetCandidateVerdict { confirm: action == ResolveAction::Confirm })
        }),
{
}

/// A resolution recalculates only invoices of the pair that it keeps, and
/// every invoice of the pair that it keeps and does not confirm: ignoring
/// recalculates the current invoice, keeping one recalculates that one,
/// keeping both recalculates both. Only confirming marks a probable
/// duplicate, and it marks the current invoice.
pub proof fn law_recalculates_what_it_keeps(action: ResolveAction, invoice_id: i64, candidate_id: i64)
    requires
        invoice_id != candidate_id,
    ensures
        ({
            let steps = resolve_steps_spec(action, invoice_id, candidate_id);
            let recalculates = |i: i64|
                exists|k: int| 0 <= k < steps.len() && #[trigger] steps[k] == (DedupeStep::Recalculate { invoice_id: i });
            &&& forall|k: int|
                0 <= k < steps.len() ==> (#[trigger] steps[k] matches DedupeStep::Recalculate { invoice_id: r }
                    ==> (r == invoice_id || r == candidate_id) && forall|j: int|
                    0 <= j < steps.len() ==> steps[j] != (DedupeStep::DeleteInvoice { invoice_id: r }))
            &&& forall|k: int|
                0 <= k < steps.len() ==> (#[trigger] steps[k] matches DedupeStep::MarkProbableDuplicate {
                    invoice_id: m,
                } ==> m == invoice_id && action == ResolveAction::Confirm)
            &&& action == ResolveAction::Ignore ==> recalculates(invoice_id)
            &&& action == ResolveAction::KeepCurrent ==> recalculates(invoice_id)
            &&& action == ResolveAction::KeepOther ==> recalculates(candidate_id)
            &&& action == ResolveAction::KeepBoth ==> recalculates(invoice_id) && recalculates(candidate_id)
            &&& action == ResolveAction::Confirm ==> exists|k: int|
                0 <= k < steps.len() && #[trigger] steps[k] == (DedupeStep::MarkProbableDuplicate { invoice_id })
        }),
{
    let steps = resolve_steps_spec(action, invoice_id, candidate_id);
    match action {
        ResolveAction::Confirm => {
            assert(steps[1] == (DedupeStep::MarkProbableDuplicate { invoice_id }));
        },
        ResolveAction::Ignore => {
            assert(steps[1] == (DedupeStep::Recalculate { invoice_id }));
        },
        ResolveAction::KeepCurrent => {
            assert(steps[1] == (DedupeStep::Recalculate { invoice_id }));
        },
        ResolveAction::KeepOther => {
            assert(steps[1] == (DedupeStep::Recalculate { invoice_id: candidate_id }));
        },
        ResolveAction::KeepBoth => {
            assert(steps[1] == (DedupeStep::Recalculate { invoice_id }));
            assert(steps[2] == (DedupeStep::Recalculate { invoice_id: candidate_id }));
        },
    }
}

/// Resolving a pair deletes at most one of its invoices, and keeps the
/// other: keeping the current invoice deletes only the candidate, keeping
/// the other deletes only the current one, every other action deletes
/// nothing.
pub proof fn law_resolve_deletes_at_most_one(action: ResolveAction, invoice_id: i64, candidate_id: i64)
    ensures
        ({
            let steps = resolve_steps_spec(action, invoice_id, candidate_id);
            &&& forall|k: int, j: int|
                0 <= k < steps.len() && 0 <= j < steps.len() && k != j ==> !(steps[k] is DeleteInvoice
                    && steps[j] is DeleteInvoice)
            &&& action == ResolveAction::KeepCurrent ==> steps[0] == (DedupeStep::DeleteInvoice {
                invoice_id: candidate_id,
            })
            &&& action == ResolveAction::KeepOther ==> steps[0] == (DedupeStep::DeleteInvoice {
                invoice_id,
            })
            &&& (action != ResolveAction::KeepCurrent && action != ResolveAction::KeepOther)
                ==> forall|k: int| 0 <= k < steps.len() ==> !(steps[k] is DeleteInvoice)
        }),
{
}


fn query1(sql: &'static str, a: i64) -> (r: SqlQuery)
    ensures
        r.sql@ == sql@,
        values_view(r.params@) == seq![SqlValueView::Integer(a as int)],
{
    let mut params: Vec<SqlValue> = Vec::new();
    params.push(SqlValue::Integer(a));
    assert(values_view(params@) =~= seq![SqlValueView::Integer(a as int)]);
    SqlQuery { sql: sql.to_owned(), params }
}

/// The statement of a step that is one statement: recording a verdict on
/// candidate `dedupe_id`, marking a probable duplicate, or marking a pair
/// distinct both ways. Recalculating and deleting read first, and have
/// their own statements.
pub fn step_statement(step: &DedupeStep, dedupe_id: i64) -> (r: Option<SqlQuery>)
    ensures
        match *step {
            DedupeStep::SetCandidateVerdict { confirm } => r matches Some(q) && q.sql@
                == "UPDATE dedupe_candidates SET status = ?2, resolved_at = CURRENT_TIMESTAMP WHERE id = ?1"@
                && values_view(q.params@) == seq![
                SqlValueView::Integer(dedupe_id as int),
                SqlValueView::Text(if confirm { "confirm"@ } else { "ignore"@ }),
            ],
            DedupeStep::MarkProbableDuplicate { invoice_id } => r matches Some(q) && q.sql@
                == "UPDATE invoices SET duplicate_status = 'probable_duplicate', updated_at = CURRENT_TIMESTAMP WHERE id = ?1"@
                && values_view(q.params@) == seq![SqlValueView::Integer(invoice_id as int)],
            DedupeStep::MarkPairDistinct { a, b } => r matches Some(q) && q.sql@
                == "UPDATE dedupe_candidates SET status = 'not_duplicate', resolved_at = CURRENT_TIMESTAMP WHERE (invoice_id = ?1 AND candidate_invoice_id = ?2) OR (invoice_id = ?2 AND candidate_invoice_id = ?1)"@
                && values_view(q.params@) == seq![SqlValueView::Integer(a as int), SqlValueView::Integer(b as int)],
            DedupeStep::Recalculate { .. } => r is None,
            DedupeStep::DeleteInvoice { .. } => r is None,
        },
{
    match step {
        DedupeStep::SetCandidateVerdict { confirm } => {
            let verdict = if *confirm { "confirm" } else { "ignore" };
            let mut params: Vec<SqlValue> = Vec::new();
            params.push(SqlValue::Integer(dedupe_id));
            params.push(SqlValue::Text(string_from_chars(chars_of(verdict).as_slice())));
            proof {
                reveal_strlit("confirm");
                reveal_strlit("ignore");
            }
            assert(values_view(params@) =~= seq![
                SqlValueView::Integer(dedupe_id as int),
                SqlValueView::Text(if *confirm { "confirm"@ } else { "ignore"@ }),
            ]);
            Some(SqlQuery {
                sql: "UPDATE dedupe_candidates SET status = ?2, resolved_at = CURRENT_TIMESTAMP WHERE id = ?1".to_owned(),
                params,
            })
        },
        DedupeStep::MarkProbableDuplicate { invoice_id } => Some(query1(
            "UPDATE invoices SET duplicate_status = 'probable_duplicate', updated_at = CURRENT_TIMESTAMP WHERE id = ?1",
            *invoice_id,
        )),
        DedupeStep::MarkPairDistinct { a, b } => {
            let mut params: Vec<SqlValue> = Vec::new();
            params.push(SqlValue::Integer(*a));
            params.push(SqlValue::Integer(*b));
            assert(values_view(params@) =~= seq![SqlValueView::Integer(*a as int), SqlValueView::Integer(*b as int)]);
            Some(SqlQuery {
                sql: "UPDATE dedupe_candidates SET status = 'not_duplicate', resolved_at = CURRENT_TIMESTAMP WHERE (invoice_id = ?1 AND candidate_invoice_id = ?2) OR (invoice_id = ?2 AND candidate_invoice_id = ?1)".to_owned(),
                params,
            })
        },
        DedupeStep::Recalculate { .. } => None,
        DedupeStep::DeleteInvoice { .. } => None,
    }
}

/// The statements that delete an invoice, in order: its recognition runs,
/// its events, every candidate that names it, the invoice itself.
pub fn invoice_delete_statements(invoice_id: i64) -> (r: Vec<SqlQuery>)
    ensures
        r@.len() == 4,
        r@[0].sql@ == "DELETE FROM extraction_runs WHERE invoice_id = ?1"@,
        r@[1].sql@ == "DELETE FROM events WHERE reference_type = 'invoice' AND reference_id = ?1"@,
        r@[2].sql@ == "DELETE FROM dedupe_candidates WHERE invoice_id = ?1 OR candidate_invoice_id = ?1"@,
        r@[3].sql@ == "DELETE FROM invoices WHERE id = ?1"@,
        forall|k: int| 0 <= k < 4 ==> values_view(#[trigger] r@[k].params@) == seq![SqlValueView::Integer(invoice_id as int)],
{
    let mut r: Vec<SqlQuery> = Vec::new();
    r.push(query1("DELETE FROM extraction_runs WHERE invoice_id = ?1", invoice_id));
    r.push(query1("DELETE FROM events WHERE reference_type = 'invoice' AND reference_id = ?1", invoice_id));
    r.push(query1("DELETE FROM dedupe_candidates WHERE invoice_id = ?1 OR candidate_invoice_id = ?1", invoice_id));
    r.push(query1("DELETE FROM invoices WHERE id = ?1", invoice_id));
    r
}

/// After a deletion, a raw file that no invoice uses any more (`remaining`
/// invoices still do) goes with its recognition runs and import jobs;
/// otherwise nothing is deleted.
pub fn raw_file_cleanup(raw_file_id: i64, remaining: i64) -> (r: Vec<SqlQuery>)
    ensures
        remaining != 0 ==> r@.len() == 0,
        remaining == 0 ==> r@.len() == 3 && r@[0].sql@ == "DELETE FROM extraction_runs WHERE raw_file_id = ?1"@
            && r@[1].sql@ == "DELETE FROM import_jobs WHERE raw_file_id = ?1"@ && r@[2].sql@
            == "DELETE FROM raw_files WHERE id = ?1"@ && forall|k: int|
            0 <= k < 3 ==> values_view(#[trigger] r@[k].params@) == seq![SqlValueView::Integer(raw_file_id as int)],
{
    let mut r: Vec<SqlQuery> = Vec::new();
    if remaining == 0 {
        r.push(query1("DELETE FROM extraction_runs WHERE raw_file_id = ?1", raw_file_id));
        r.push(query1("DELETE FROM import_jobs WHERE raw_file_id = ?1", raw_file_id));
        r.push(query1("DELETE FROM raw_files WHERE id = ?1", raw_file_id));
    }
    r
}

/// The candidates of an invoice with the fields of the other invoice, best
/// score first.
pub fn candidates_query(invoice_id: i64) -> (r: SqlQuery)
    ensures
        r.sql@ == "SELECT dc.id, dc.candidate_invoice_id, dc.score, dc.reason, dc.status, inv.seller_name, inv.invoice_number, inv.issue_date, inv.total_amount FROM dedupe_candidates dc JOIN invoices inv ON inv.id = dc.candidate_invoice_id WHERE dc.invoice_id = ?1 ORDER BY dc.score DESC"@,
        values_view(r.params@) == seq![SqlValueView::Integer(invoice_id as int)],
{
    query1(
        "SELECT dc.id, dc.candidate_invoice_id, dc.score, dc.reason, dc.status, inv.seller_name, inv.invoice_number, inv.issue_date, inv.total_amount FROM dedupe_candidates dc JOIN invoices inv ON inv.id = dc.candidate_invoice_id WHERE dc.invoice_id = ?1 ORDER BY dc.score DESC",
        invoice_id,
    )
}

/// The candidate pair a verdict is given on.
pub fn candidate_pair_query(dedupe_id: i64) -> (r: SqlQuery)
    ensures
        r.sql@ == "SELECT invoice_id, candidate_invoice_id FROM dedupe_candidates WHERE id = ?1"@,
        values_view(r.params@) == seq![SqlValueView::Integer(dedupe_id as int)],
{
    query1("SELECT invoice_id, candidate_invoice_id FROM dedupe_candidates WHERE id = ?1", dedupe_id)
}
} // verus!
