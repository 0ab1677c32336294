//! The self-test of the recognition setup: the steps of a diagnostic run
//! and their verdicts, the comparison of a recognized invoice with the
//! expected answer field by field, and the media type of the test image.
use vstd::prelude::*;

use crate::mail::lowercase;
use crate::text::{
    chars_of, contains_chars, contains_seq, dec, ends_with, ends_with_str, push_chars, push_str,
    push_u64, push_usize, string_from_chars, trim, trim_str,
};

verus! {

/// One step of a diagnostic run.
pub struct DiagnosticStep {
    pub name: String,
    pub passed: bool,
    pub duration_ms: u128,
    pub message: String,
    pub details: Option<String>,
}

/// The media type of the test image, from its path's lowercased ending.
pub open spec fn infer_mime_spec(path: Seq<char>) -> Seq<char> {
    let l = lowercase(path);
    if ends_with(l, ".png"@) {
        "image/png"@
    } else if ends_with(l, ".jpg"@) || ends_with(l, ".jpeg"@) {
        "image/jpeg"@
    } else {
        "application/octet-stream"@
    }
}

pub fn infer_mime(path: &str) -> (r: String)
    ensures
        r@ == infer_mime_spec(path@),
{
    let l = crate::mail::lowercase_text(path);
    let lc = chars_of(l.as_str());
    if ends_with_str(&lc, ".png") {
        "image/png".to_owned()
    } else if ends_with_str(&lc, ".jpg") || ends_with_str(&lc, ".jpeg") {
        "image/jpeg".to_owned()
    } else {
        "application/octet-stream".to_owned()
    }
}

/// The recognized value of a text field: the first candidate (top-level
/// keys first, then the keys of the nested party) that is non-blank after
/// trimming, trimmed.
pub open spec fn found_value(candidates: Seq<Option<Seq<char>>>) -> Option<Seq<char>>
    decreases candidates.len(),
{
    if candidates.len() == 0 {
        None
    } else {
        match candidates[0] {
            Some(v) => if trim(v).len() > 0 {
                Some(trim(v))
            } else {
                found_value(candidates.drop_first())
            },
            None => found_value(candidates.drop_first()),
        }
    }
}

/// A text field matches when one of the expected and the recognized text
/// contains the other.
pub open spec fn text_matches(expected: Seq<char>, found: Option<Seq<char>>) -> bool {
    match found {
        Some(v) => contains_seq(v, expected) || contains_seq(expected, v),
        None => false,
    }
}

pub open spec fn shown(found: Option<Seq<char>>) -> Seq<char> {
    match found {
        Some(v) => v,
        None => "(空)"@,
    }
}

/// The report line of a text field.
pub open spec fn text_line(name: Seq<char>, expected: Seq<char>, found: Option<Seq<char>>) -> Seq<
    char,
> {
    if text_matches(expected, found) {
        name + ": ✓ ("@ + shown(found) + ")"@
    } else {
        name + ": ✗ (期望: "@ + expected + ", 实际: "@ + shown(found) + ")"@
    }
}

pub open spec fn candidates_view(c: Seq<Option<String>>) -> Seq<Option<Seq<char>>> {
    c.map_values(|o: Option<String>| crate::search::ostr(o))
}

fn find_value(candidates: &Vec<Option<String>>) -> (r: Option<Vec<char>>)
    ensures
        match r {
            Some(v) => found_value(candidates_view(candidates@)) == Some(v@),
            None => found_value(candidates_view(candidates@)) is None,
        },
{
    let mut i: usize = 0;
    assert(candidates_view(candidates@).skip(0) =~= candidates_view(candidates@));
    while i < candidates.len()
        invariant
            i <= candidates.len(),
            found_value(candidates_view(candidates@)) == found_value(
                candidates_view(candidates@).skip(i as int),
            ),
        decreases candidates.len() - i,
    {
        let ghost rest = candidates_view(candidates@).skip(i as int);
        assert(rest[0] == crate::search::ostr(candidates@[i as int]));
        assert(rest.drop_first() =~= candidates_view(candidates@).skip(i as int + 1));
        match &candidates[i] {
            Some(v) => {
                let t = trim_str(v.as_str());
                if t.len() > 0 {
                    return Some(t);
                }
            },
            None => {},
        }
        i += 1;
    }
    assert(candidates_view(candidates@).skip(candidates.len() as int) =~= Seq::<
        Option<Seq<char>>,
    >::empty());
    None
}

/// Compares an expected text field with the recognized candidates: whether
/// it matches, and its report line.
pub fn check_text_field(name: &str, expected: &str, candidates: &Vec<Option<String>>) -> (r: (
    bool,
    String,
))
    ensures
        r.0 == text_matches(expected@, found_value(candidates_view(candidates@))),
        r.1@ == text_line(name@, expected@, found_value(candidates_view(candidates@))),
{
    let found = find_value(candidates);
    let e = chars_of(expected);
    let matched = match &found {
        Some(v) => contains_chars(v, &e) || contains_chars(&e, v),
        None => false,
    };
    let mut line: Vec<char> = Vec::new();
    push_str(&mut line, name);
    if matched {
        push_str(&mut line, ": ✓ (");
    } else {
        push_str(&mut line, ": ✗ (期望: ");
        push_str(&mut line, expected);
        push_str(&mut line, ", 实际: ");
    }
    match &found {
        Some(v) => push_chars(&mut line, v),
        None => push_str(&mut line, "(空)"),
    }
    push_str(&mut line, ")");
    (matched, string_from_chars(line.as_slice()))
}

/// Compares the expected number of line items with the recognized one.
pub fn check_items_count(expected: usize, actual: Option<usize>) -> (r: (bool, String))
    ensures
        r.0 == (actual == Some(expected)),
        r.1@ == match actual {
            Some(got) => if got == expected {
                "items_count: ✓ ("@ + dec(got as nat) + ")"@
            } else {
                "items_count: ✗ (期望: "@ + dec(expected as nat) + ", 实际: "@ + dec(got as nat)
                    + ")"@
            },
            None => "items_count: ✗ (期望: "@ + dec(expected as nat) + ", 实际: (空))"@,
        },
{
    let mut line: Vec<char> = Vec::new();
    match actual {
        Some(got) => {
            if got == expected {
                push_str(&mut line, "items_count: ✓ (");
                push_usize(&mut line, got);
                push_str(&mut line, ")");
                (true, string_from_chars(line.as_slice()))
            } else {
                push_str(&mut line, "items_count: ✗ (期望: ");
                push_usize(&mut line, expected);
                push_str(&mut line, ", 实际: ");
                push_usize(&mut line, got);
                push_str(&mut line, ")");
                (false, string_from_chars(line.as_slice()))
            }
        },
        None => {
            push_str(&mut line, "items_count: ✗ (期望: ");
            push_usize(&mut line, expected);
            push_str(&mut line, ", 实际: (空))");
            (false, string_from_chars(line.as_slice()))
        },
    }
}

/// The comparison step passes when at least half of the compared fields
/// match (a score of 50% or more).
pub fn comparison_passed(matched: usize, total: usize) -> (b: bool)
    requires
        matched <= total,
    ensures
        b == (total > 0 && 2 * matched >= total),
{
    total > 0 && matched >= total - matched
}

/// What the comparison with the expected answer had to work with.
pub enum ComparisonInput {
    /// The recognition step gave no result.
    NoRecognition,
    /// No expected field is configured.
    NoGroundTruth,
    /// `matched` of `total` fields agreed; `score` is the share of matched
    /// fields as a whole percentage, as the caller rounds it; `details` holds
    /// one line per field.
    Compared { matched: usize, total: usize, score: String, details: String },
}

/// The step that compares a recognition with the expected answer: it passes
/// when at least half of the compared fields agree, is skipped (and passes)
/// without an expected answer, and fails without a recognition.
pub fn comparison_step(input: ComparisonInput) -> (r: DiagnosticStep)
    ensures
        r.name@ == "结果对比"@,
        r.duration_ms == 0,
        match input {
            ComparisonInput::NoRecognition => !r.passed && r.message@ == "上一步未获得识别结果，跳过对比"@
                && r.details is None,
            ComparisonInput::NoGroundTruth => r.passed && r.message@ == "未配置 ground truth，跳过对比"@
                && r.details is None,
            ComparisonInput::Compared { matched, total, score, details } => r.passed == (total > 0 && 2
                * matched >= total) && r.message@ == "匹配 "@ + dec(matched as nat) + "/"@ + dec(total as nat)
                + " 字段，得分 "@ + score@ + "%"@ && r.details == Some(details),
        },
{
    match input {
        ComparisonInput::NoRecognition => DiagnosticStep {
            name: "结果对比".to_owned(),
            passed: false,
            duration_ms: 0,
            message: "上一步未获得识别结果，跳过对比".to_owned(),
            details: None,
        },
        ComparisonInput::NoGroundTruth => DiagnosticStep {
            name: "结果对比".to_owned(),
            passed: true,
            duration_ms: 0,
            message: "未配置 ground truth，跳过对比".to_owned(),
            details: None,
        },
        ComparisonInput::Compared { matched, total, score, details } => {
            let mut m: Vec<char> = Vec::new();
            push_str(&mut m, "匹配 ");
            push_usize(&mut m, matched);
            push_str(&mut m, "/");
            push_usize(&mut m, total);
            push_str(&mut m, " 字段，得分 ");
            push_str(&mut m, score.as_str());
            push_str(&mut m, "%");
            DiagnosticStep {
                name: "结果对比".to_owned(),
                passed: total > 0 && (matched as u128) * 2 >= total as u128,
                duration_ms: 0,
                message: string_from_chars(m.as_slice()),
                details: Some(details),
            }
        },
    }
}

/// The step of the text-generation test.
pub fn text_generation_step(duration_ms: u128, outcome: Result<&str, &str>) -> (r: DiagnosticStep)
    ensures
        r.name@ == "文本生成"@,
        r.duration_ms == duration_ms,
        r.details is None,
        match outcome {
            Ok(preview) => r.passed && r.message@ == "成功，响应: "@ + preview@,
            Err(e) => !r.passed && r.message@ == "失败: "@ + e@,
        },
{
    let mut m: Vec<char> = Vec::new();
    let passed = match outcome {
        Ok(preview) => {
            push_str(&mut m, "成功，响应: ");
            push_str(&mut m, preview);
            true
        },
        Err(e) => {
            push_str(&mut m, "失败: ");
            push_str(&mut m, e);
            false
        },
    };
    DiagnosticStep {
        name: "文本生成".to_owned(),
        passed,
        duration_ms,
        message: string_from_chars(m.as_slice()),
        details: None,
    }
}

/// What the image-recognition test gave.
pub enum RecognitionCheck {
    /// No test image is configured.
    NotConfigured,
    /// The configured test image does not exist.
    Missing { path: String },
    /// Recognition failed.
    Failed { error: String },
    /// The answer is no JSON.
    BadJson { error: String, preview: String },
    /// The answer was read; `is_invoice` as the model said.
    Read { is_invoice: bool, preview: String },
}

/// The step of the image-recognition test.
pub fn recognition_step(duration_ms: u128, check: RecognitionCheck) -> (r: DiagnosticStep)
    ensures
        r.name@ == "图片识别"@,
        r.passed == (check matches RecognitionCheck::Read { is_invoice, .. } && is_invoice),
        match check {
            RecognitionCheck::NotConfigured => r.duration_ms == 0 && r.message@
                == "测试图片路径未配置。请在 diagnostic_config.json 中设置 test_image_path。"@
                && r.details is None,
            RecognitionCheck::Missing { path } => r.duration_ms == 0 && r.message@ == "测试图片不存在: "@
                + path@ && r.details is None,
            RecognitionCheck::Failed { error } => r.duration_ms == duration_ms && r.message@
                == "识别失败: "@ + error@ && r.details is None,
            RecognitionCheck::BadJson { error, preview } => r.duration_ms == duration_ms
                && r.message@ == "识别结果 JSON 解析失败: "@ + error@ && r.details == Some(preview),
            RecognitionCheck::Read { is_invoice, preview } => r.duration_ms == duration_ms && (
            is_invoice ==> r.message@ == "识别为有效发票"@) && (!is_invoice ==> r.message@
                == "未识别为发票"@) && r.details == Some(preview),
        },
{
    let mut m: Vec<char> = Vec::new();
    match check {
        RecognitionCheck::NotConfigured => {
            push_str(
                &mut m,
                "测试图片路径未配置。请在 diagnostic_config.json 中设置 test_image_path。",
            );
            DiagnosticStep {
                name: "图片识别".to_owned(),
                passed: false,
                duration_ms: 0,
                message: string_from_chars(m.as_slice()),
                details: None,
            }
        },
        RecognitionCheck::Missing { path } => {
            push_str(&mut m, "测试图片不存在: ");
            push_str(&mut m, path.as_str());
            DiagnosticStep {
                name: "图片识别".to_owned(),
                passed: false,
                duration_ms: 0,
                message: string_from_chars(m.as_slice()),
                details: None,
            }
        },
        RecognitionCheck::Failed { error } => {
            push_str(&mut m, "识别失败: ");
            push_str(&mut m, error.as_str());
            DiagnosticStep {
                name: "图片识别".to_owned(),
                passed: false,
                duration_ms,
                message: string_from_chars(m.as_slice()),
                details: None,
            }
        },
        RecognitionCheck::BadJson { error, preview } => {
            push_str(&mut m, "识别结果 JSON 解析失败: ");
            push_str(&mut m, error.as_str());
            DiagnosticStep {
                name: "图片识别".to_owned(),
                passed: false,
                duration_ms,
                message: string_from_chars(m.as_slice()),
                details: Some(preview),
            }
        },
        RecognitionCheck::Read { is_invoice, preview } => {
            if is_invoice {
                push_str(&mut m, "识别为有效发票");
            } else {
                push_str(&mut m, "未识别为发票");
            }
            DiagnosticStep {
                name: "图片识别".to_owned(),
                passed: is_invoice,
                duration_ms,
                message: string_from_chars(m.as_slice()),
                details: Some(preview),
            }
        },
    }
}

/// The step of the embedding test: what the local engine reported, or a
/// skip when it is not loaded; this step never fails.
pub fn embedding_step(result: Option<(&str, usize, u64)>) -> (r: DiagnosticStep)
    ensures
        r.name@ == "Embedding"@,
        r.passed,
        r.details is None,
        match result {
            Some((model, dims, ms)) => r.duration_ms == ms && r.message@ == "模型: "@ + model@
                + "，维度: "@ + dec(dims as nat) + "，耗时: "@ + dec(ms as nat) + "ms"@,
            None => r.duration_ms == 0 && r.message@ == "本地 Embedding 未加载，跳过"@,
        },
{
    let mut m: Vec<char> = Vec::new();
    match result {
        Some((model, dims, ms)) => {
            push_str(&mut m, "模型: ");
            push_str(&mut m, model);
            push_str(&mut m, "，维度: ");
            push_usize(&mut m, dims);
            push_str(&mut m, "，耗时: ");
            push_u64(&mut m, ms);
            push_str(&mut m, "ms");
            DiagnosticStep {
                name: "Embedding".to_owned(),
                passed: true,
                duration_ms: ms as u128,
                message: string_from_chars(m.as_slice()),
                details: None,
            }
        },
        None => {
            push_str(&mut m, "本地 Embedding 未加载，跳过");
            DiagnosticStep {
                name: "Embedding".to_owned(),
                passed: true,
                duration_ms: 0,
                message: string_from_chars(m.as_slice()),
                details: None,
            }
        },
    }
}

/// A run passes when every step passed.
pub fn all_passed(steps: &Vec<DiagnosticStep>) -> (b: bool)
    ensures
        b == forall|k: int| 0 <= k < steps.len() ==> (#[trigger] steps@[k]).passed,
{
    let mut i: usize = 0;
    while i < steps.len()
        invariant
            i <= steps.len(),
            forall|k: int| 0 <= k < i ==> (#[trigger] steps@[k]).passed,
        decreases steps.len() - i,
    {
        if !steps[i].passed {
            return false;
        }
        i += 1;
    }
    true
}


/// Whether a program the application runs is installed.
pub struct ExternalDependencyStatus {
    pub name: String,
    pub command: String,
    pub available: bool,
    pub version: Option<String>,
    pub error: Option<String>,
}

/// The first non-blank line of a program's output, trimmed and cut to 160
/// characters.
pub open spec fn first_line_spec(lines: Seq<Seq<char>>) -> Option<Seq<char>>
    decreases lines.len(),
{
    if lines.len() == 0 {
        None
    } else if trim(lines[0]).len() > 0 {
        Some(crate::llm::truncate_spec(trim(lines[0]), 160))
    } else {
        first_line_spec(lines.drop_first())
    }
}

/// The output checked for a version: standard output, a newline, standard
/// error, each decoded with invalid UTF-8 replaced.
pub open spec fn combined_output(stdout: Seq<u8>, stderr: Seq<u8>) -> Seq<char> {
    crate::importer::utf8_lossy(stdout) + "\n"@ + crate::importer::utf8_lossy(stderr)
}

/// The status of a program that ran: available when it succeeded or printed
/// a version line; its exit status is the error when it failed.
pub fn dependency_status(
    name: &str,
    command: &str,
    stdout: &[u8],
    stderr: &[u8],
    success: bool,
    exit_status: String,
) -> (r: ExternalDependencyStatus)
    ensures
        r.name@ == name@,
        r.command@ == command@,
        crate::search::ostr(r.version) == first_line_spec(
            crate::agent::lines_spec(combined_output(stdout@, stderr@)),
        ),
        r.available == (success || r.version is Some),
        success ==> r.error is None,
        !success ==> r.error == Some(exit_status),
{
    let out = crate::importer::from_utf8_lossy(stdout);
    let err = crate::importer::from_utf8_lossy(stderr);
    let mut all: Vec<char> = Vec::new();
    push_str(&mut all, out.as_str());
    push_str(&mut all, "\n");
    push_str(&mut all, err.as_str());
    let combined = string_from_chars(all.as_slice());
    let lines = crate::agent::text_lines(combined.as_str());
    let mut version: Option<String> = None;
    let mut i: usize = 0;
    assert(crate::text::views(lines@).skip(0) =~= crate::text::views(lines@));
    while i < lines.len() && version.is_none()
        invariant
            i <= lines.len(),
            crate::text::views(lines@) == crate::agent::lines_spec(combined@),
            version is None ==> first_line_spec(crate::text::views(lines@)) == first_line_spec(
                crate::text::views(lines@).skip(i as int),
            ),
            version matches Some(v) ==> first_line_spec(crate::text::views(lines@)) == Some(v@),
        decreases lines.len() - i,
    {
        let ghost rest = crate::text::views(lines@).skip(i as int);
        assert(rest[0] == lines@[i as int]@);
        assert(rest.drop_first() =~= crate::text::views(lines@).skip(i as int + 1));
        let t = crate::text::trim_chars(&lines[i]);
        if t.len() > 0 {
            let ts = string_from_chars(t.as_slice());
            version = Some(crate::llm::truncate(ts.as_str(), 160));
        }
        i += 1;
    }
    proof {
        if version is None {
            assert(crate::text::views(lines@).skip(i as int) =~= Seq::<Seq<char>>::empty());
        }
    }
    let available = success || version.is_some();
    ExternalDependencyStatus {
        name: name.to_owned(),
        command: command.to_owned(),
        available,
        version,
        error: if success {
            None
        } else {
            Some(exit_status)
        },
    }
}

/// The status of a program that could not be run (or timed out).
pub fn dependency_unavailable(name: &str, command: &str, error: String) -> (r: ExternalDependencyStatus)
    ensures
        r.name@ == name@,
        r.command@ == command@,
        !r.available,
        r.version is None,
        r.error == Some(error),
{
    ExternalDependencyStatus {
        name: name.to_owned(),
        command: command.to_owned(),
        available: false,
        version: None,
        error: Some(error),
    }
}

/// The error of a version check that took too long.
pub fn dependency_timeout_message() -> (r: &'static str)
    ensures
        r@ == "检测超时（10s）"@,
{
    "检测超时（10s）"
}

} // verus!
