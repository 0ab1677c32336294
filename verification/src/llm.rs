//! The decisions around the OpenAI-compatible chat endpoint: provider
//! configuration checks, the retry policy of invoice recognition, locating the
//! JSON object in a model answer, previews and the image data URL.
use vstd::prelude::*;

use base64::Engine;

use crate::text::{
    chars_of, find_chars, find_from, lemma_find_from, push_str, slice_chars, str_eq,
    string_from_chars, trim, trim_chars, trim_str,
};

verus! {

/// Connection settings of an OpenAI-compatible provider.
pub struct LlmProviderConfig {
    pub base_url: String,
    pub api_key: String,
    pub model: String,
    pub timeout_seconds: Option<u64>,
    pub scnet_ocr_api_key: Option<String>,
}

/// Where audit records of provider calls are written.
pub struct LlmAuditConfig {
    pub dir: String,
}

/// Outcome of a connection test.
pub struct LlmConnectionTestResult {
    pub model: String,
    pub duration_ms: u128,
    pub response_preview: String,
}

/// Outcome of an invoice recognition call.
pub struct InvoiceRecognitionResult {
    pub model: String,
    pub duration_ms: u128,
    pub response_json: String,
    pub response_preview: String,
    pub prompt_tokens: i64,
    pub completion_tokens: i64,
    pub total_tokens: i64,
}

/// The failures that the library itself decides.
#[derive(Debug, PartialEq, Eq, Structural)]
pub enum LlmError {
    MissingBaseUrl,
    MissingApiKey,
    MissingModel,
    MissingAssistantContent,
    MissingJsonObject,
    UnsupportedImageMimeType,
}

/// Checked and normalised provider settings.
pub struct ProviderEndpoint {
    /// `base_url` trimmed, without trailing slashes, followed by `/chat/completions`.
    pub endpoint: String,
    pub api_key: String,
    pub model: String,
    pub timeout_seconds: u64,
}

// ---------------------------------------------------------------------------
// Previews
// ---------------------------------------------------------------------------

pub open spec fn truncate_spec(s: Seq<char>, max_chars: nat) -> Seq<char> {
    if s.len() <= max_chars {
        s
    } else {
        s.take(max_chars as int)
    }
}

/// The first `max_chars` characters of `value` (never splits a character).
pub fn truncate(value: &str, max_chars: usize) -> (r: String)
    ensures
        r@ == truncate_spec(value@, max_chars as nat),
{
    let c = chars_of(value);
    let n = if c.len() <= max_chars {
        c.len()
    } else {
        max_chars
    };
    let t = slice_chars(&c, 0, n);
    assert(t@ =~= truncate_spec(value@, max_chars as nat));
    string_from_chars(t.as_slice())
}

// ---------------------------------------------------------------------------
// Provider configuration
// ---------------------------------------------------------------------------

/// `str::trim_end_matches` with a single character.
pub open spec fn trim_end_char(s: Seq<char>, c: char) -> Seq<char>
    decreases s.len(),
{
    if s.len() > 0 && s.last() == c {
        trim_end_char(s.drop_last(), c)
    } else {
        s
    }
}

proof fn lemma_trim_end_char_take(s: Seq<char>, c: char, j: int)
    requires
        0 <= j <= s.len(),
        forall|k: int| j <= k < s.len() ==> #[trigger] s[k] == c,
    ensures
        trim_end_char(s, c) == trim_end_char(s.take(j), c),
    decreases s.len() - j,
{
    if j < s.len() {
        assert(s.drop_last().take(j) =~= s.take(j));
        assert forall|k: int| j <= k < s.len() - 1 implies #[trigger] s.drop_last()[k] == c by {
            assert(s.drop_last()[k] == s[k]);
        }
        lemma_trim_end_char_take(s.drop_last(), c, j);
    } else {
        assert(s.take(j) =~= s);
    }
}

fn trim_end_slashes(s: &Vec<char>) -> (r: Vec<char>)
    ensures
        r@ == trim_end_char(s@, '/'),
{
    let mut b: usize = s.len();
    while b > 0 && s[b - 1] == '/'
        invariant
            b <= s.len(),
            forall|k: int| b <= k < s.len() ==> #[trigger] s@[k] == '/',
        decreases b,
    {
        b -= 1;
    }
    proof {
        lemma_trim_end_char_take(s@, '/', b as int);
        assert(trim_end_char(s@.take(b as int), '/') == s@.take(b as int));
    }
    slice_chars(s, 0, b)
}

pub open spec fn clamp_timeout(t: Option<u64>, default: u64) -> u64 {
    let v = match t {
        Some(v) => v,
        None => default,
    };
    if v < 1 {
        1
    } else if v > 300 {
        300
    } else {
        v
    }
}

/// What a provider configuration is checked and normalised to before a call.
pub open spec fn provider_endpoint_spec(
    base_url: Seq<char>,
    api_key: Seq<char>,
    model: Seq<char>,
) -> Result<(Seq<char>, Seq<char>, Seq<char>), LlmError> {
    let base = trim_end_char(trim(base_url), '/');
    let key = trim(api_key);
    let m = trim(model);
    if base.len() == 0 {
        Err(LlmError::MissingBaseUrl)
    } else if key.len() == 0 {
        Err(LlmError::MissingApiKey)
    } else if m.len() == 0 {
        Err(LlmError::MissingModel)
    } else {
        Ok((base + "/chat/completions"@, key, m))
    }
}

/// Checks a provider configuration the way every call does before it is sent:
/// base URL, API key and model must be non-empty once trimmed; the endpoint
/// is the base URL without trailing slashes followed by `/chat/completions`;
/// the timeout is `timeout_seconds` (or `default_timeout`) clamped to 1..=300.
pub fn provider_endpoint(config: &LlmProviderConfig, default_timeout: u64) -> (r: Result<
    ProviderEndpoint,
    LlmError,
>)
    ensures
        match provider_endpoint_spec(config.base_url@, config.api_key@, config.model@) {
            Ok((e, k, m)) => r matches Ok(p) && p.endpoint@ == e && p.api_key@ == k && p.model@
                == m && p.timeout_seconds == clamp_timeout(config.timeout_seconds, default_timeout),
            Err(err) => r == Err::<ProviderEndpoint, LlmError>(err),
        },
{
    let base_trimmed = trim_str(config.base_url.as_str());
    let base = trim_end_slashes(&base_trimmed);
    let key = trim_str(config.api_key.as_str());
    let model = trim_str(config.model.as_str());
    if base.len() == 0 {
        return Err(LlmError::MissingBaseUrl);
    }
    if key.len() == 0 {
        return Err(LlmError::MissingApiKey);
    }
    if model.len() == 0 {
        return Err(LlmError::MissingModel);
    }
    let mut endpoint = base;
    push_str(&mut endpoint, "/chat/completions");
    let t = match config.timeout_seconds {
        Some(v) => v,
        None => default_timeout,
    };
    let timeout_seconds = if t < 1 {
        1
    } else if t > 300 {
        300
    } else {
        t
    };
    Ok(
        ProviderEndpoint {
            endpoint: string_from_chars(endpoint.as_slice()),
            api_key: string_from_chars(key.as_slice()),
            model: string_from_chars(model.as_slice()),
            timeout_seconds,
        },
    )
}

// ---------------------------------------------------------------------------
// Recognition retries
// ---------------------------------------------------------------------------

/// Number of attempts of one recognition request.
pub const MAX_RETRIES: u32 = 3;

/// An HTTP status that recognition retries (rate limit or server error).
pub open spec fn retryable_status_spec(status: u16) -> bool {
    status == 429 || status >= 500
}

pub fn is_retryable_status(status: u16) -> (b: bool)
    ensures
        b == retryable_status_spec(status),
{
    status == 429 || status >= 500
}

/// What one recognition attempt ended with.
pub enum AttemptOutcome {
    /// The request could not be sent or its body not read.
    NetworkError,
    /// The provider answered with a non-success HTTP status.
    HttpStatus { status: u16 },
    /// The body was not a chat completion.
    InvalidResponse,
    /// The completion had no non-blank assistant content.
    EmptyContent,
    /// The content held no JSON object.
    NoJsonObject,
    /// A JSON object was found.
    Recognized,
}

/// What recognition does after an attempt.
#[derive(PartialEq, Eq, Structural)]
pub enum RetryStep {
    /// Wait `sleep_secs` seconds, then make attempt number `next_attempt`.
    Retry { next_attempt: u32, sleep_secs: u64 },
    /// Give up with the error of this attempt.
    Fail,
    /// Stop with the recognised answer.
    Succeed,
}

pub open spec fn retryable_outcome(o: AttemptOutcome) -> bool {
    match o {
        AttemptOutcome::NetworkError => true,
        AttemptOutcome::HttpStatus { status } => retryable_status_spec(status),
        AttemptOutcome::InvalidResponse => true,
        AttemptOutcome::EmptyContent => true,
        AttemptOutcome::NoJsonObject => true,
        AttemptOutcome::Recognized => false,
    }
}

pub open spec fn next_step_spec(attempt: u32, outcome: AttemptOutcome) -> RetryStep {
    match outcome {
        AttemptOutcome::Recognized => RetryStep::Succeed,
        _ => if retryable_outcome(outcome) && attempt < MAX_RETRIES {
            RetryStep::Retry { next_attempt: (attempt + 1) as u32, sleep_secs: ((attempt + 1) * 2) as u64 }
        } else {
            RetryStep::Fail
        },
    }
}

/// Decides what follows attempt number `attempt` (counted from 1) of a
/// recognition request: network errors, 429 and 5xx answers, malformed
/// bodies, empty content and answers without a JSON object are retried up to
/// `MAX_RETRIES` attempts in all, waiting `2 × n` seconds before attempt `n`;
/// any other HTTP status fails at once.
pub fn next_recognition_step(attempt: u32, outcome: &AttemptOutcome) -> (r: RetryStep)
    requires
        1 <= attempt <= MAX_RETRIES,
    ensures
        r == next_step_spec(attempt, *outcome),
{
    let retryable = match outcome {
        AttemptOutcome::Recognized => {
            return RetryStep::Succeed;
        },
        AttemptOutcome::HttpStatus { status } => is_retryable_status(*status),
        _ => true,
    };
    if retryable && attempt < MAX_RETRIES {
        RetryStep::Retry { next_attempt: attempt + 1, sleep_secs: ((attempt + 1) * 2) as u64 }
    } else {
        RetryStep::Fail
    }
}

/// A recognition request makes at most `MAX_RETRIES` attempts: from any
/// attempt number the policy either stops or moves to the next number, and it
/// never retries after the last attempt.
pub proof fn law_recognition_attempts_bounded(attempt: u32, outcome: AttemptOutcome)
    requires
        1 <= attempt <= MAX_RETRIES,
    ensures
        next_step_spec(attempt, outcome) matches RetryStep::Retry { next_attempt, .. } ==> next_attempt
            == attempt + 1 && next_attempt <= MAX_RETRIES,
        attempt == MAX_RETRIES ==> !(next_step_spec(attempt, outcome) is Retry),
{
}

// ---------------------------------------------------------------------------
// The assistant's answer
// ---------------------------------------------------------------------------

/// The assistant content of the first choice, trimmed, if it is non-empty.
pub open spec fn assistant_content_spec(first: Option<Seq<char>>) -> Result<Seq<char>, LlmError> {
    match first {
        Some(c) => if trim(c).len() > 0 {
            Ok(trim(c))
        } else {
            Err(LlmError::MissingAssistantContent)
        },
        None => Err(LlmError::MissingAssistantContent),
    }
}

/// Takes the content of the first choice of a chat completion.
pub fn assistant_content(first: Option<&str>) -> (r: Result<String, LlmError>)
    ensures
        match assistant_content_spec(
            match first {
                Some(s) => Some(s@),
                None => None,
            },
        ) {
            Ok(c) => r matches Ok(s) && s@ == c,
            Err(e) => r == Err::<String, LlmError>(e),
        },
{
    match first {
        Some(s) => {
            let t = trim_str(s);
            if t.len() > 0 {
                Ok(string_from_chars(t.as_slice()))
            } else {
                Err(LlmError::MissingAssistantContent)
            }
        },
        None => Err(LlmError::MissingAssistantContent),
    }
}

/// Scanner state while looking for the end of a JSON object.
pub struct JsonScan {
    pub depth: int,
    pub in_string: bool,
    pub escaped: bool,
}

/// Index of the `}` that closes the object, scanning from `k` in state `st`:
/// braces inside string literals (with `\` escapes) do not count.
pub open spec fn json_close(s: Seq<char>, k: int, st: JsonScan) -> Option<int>
    decreases s.len() - k,
{
    if k < 0 || k >= s.len() {
        None
    } else {
        let c = s[k];
        if st.in_string {
            if st.escaped {
                json_close(s, k + 1, JsonScan { escaped: false, ..st })
            } else if c == '\\' {
                json_close(s, k + 1, JsonScan { escaped: true, ..st })
            } else if c == '"' {
                json_close(s, k + 1, JsonScan { in_string: false, ..st })
            } else {
                json_close(s, k + 1, st)
            }
        } else if c == '"' {
            json_close(s, k + 1, JsonScan { in_string: true, ..st })
        } else if c == '{' {
            json_close(s, k + 1, JsonScan { depth: st.depth + 1, ..st })
        } else if c == '}' {
            if st.depth - 1 == 0 {
                Some(k)
            } else {
                json_close(s, k + 1, JsonScan { depth: st.depth - 1, ..st })
            }
        } else {
            json_close(s, k + 1, st)
        }
    }
}

/// The first balanced `{ ... }` object of a model answer, trimmed.
pub open spec fn extract_json_spec(s: Seq<char>) -> Result<Seq<char>, LlmError> {
    match find_from(s, seq!['{'], 0) {
        Some(a) => match json_close(s, a, JsonScan { depth: 0, in_string: false, escaped: false }) {
            Some(e) => Ok(trim(s.subrange(a, e + 1))),
            None => Err(LlmError::MissingJsonObject),
        },
        None => Err(LlmError::MissingJsonObject),
    }
}

/// Finds the JSON object in a model answer that may wrap it in prose or a
/// Markdown fence: from the first `{` to the `}` that balances it, ignoring
/// braces inside string literals.
pub fn extract_json_object(value: &str) -> (r: Result<String, LlmError>)
    ensures
        match extract_json_spec(value@) {
            Ok(j) => r matches Ok(s) && s@ == j,
            Err(e) => r == Err::<String, LlmError>(e),
        },
{
    let s = chars_of(value);
    let mut brace: Vec<char> = Vec::new();
    brace.push('{');
    assert(brace@ =~= seq!['{']);
    let a = match find_chars(&s, &brace, 0) {
        Some(a) => a,
        None => {
            return Err(LlmError::MissingJsonObject);
        },
    };
    proof {
        lemma_find_from(s@, seq!['{'], 0);
        assert(s@.subrange(a as int, a + 1)[0] == '{');
    }
    assert(s@[a as int] == '{');
    let ghost init = JsonScan { depth: 0, in_string: false, escaped: false };
    let mut depth: usize = 0;
    let mut in_string = false;
    let mut escaped = false;
    let mut k: usize = a;
    while k < s.len()
        invariant
            a <= k <= s.len(),
            depth <= k - a,
            s@[a as int] == '{',
            k == a ==> depth == 0 && !in_string && !escaped,
            k > a ==> depth >= 1,
            find_from(s@, seq!['{'], 0) == Some(a as int),
            s@ == value@,
            init == (JsonScan { depth: 0, in_string: false, escaped: false }),
            json_close(s@, a as int, init) == json_close(
                s@,
                k as int,
                JsonScan { depth: depth as int, in_string, escaped },
            ),
        decreases s.len() - k,
    {
        let c = s[k];
        if in_string {
            if escaped {
                escaped = false;
            } else if c == '\\' {
                escaped = true;
            } else if c == '"' {
                in_string = false;
            }
        } else if c == '"' {
            in_string = true;
        } else if c == '{' {
            depth = depth + 1;
        } else if c == '}' {
            if depth - 1 == 0 {
                assert(json_close(
                    s@,
                    k as int,
                    JsonScan { depth: depth as int, in_string, escaped },
                ) == Some(k as int));
                let obj = slice_chars(&s, a, k + 1);
                let t = trim_chars(&obj);
                assert(json_close(s@, a as int, init) == Some(k as int));
                assert(extract_json_spec(value@) == Ok::<Seq<char>, LlmError>(t@));
                return Ok(string_from_chars(t.as_slice()));
            }
            depth = depth - 1;
        }
        k += 1;
    }
    Err(LlmError::MissingJsonObject)
}

// ---------------------------------------------------------------------------
// Image payload
// ---------------------------------------------------------------------------

/// The character of the standard base64 alphabet for a six-bit value.
pub open spec fn base64_digit(v: int) -> char {
    if v < 26 {
        (65 + v) as char
    } else if v < 52 {
        (97 + (v - 26)) as char
    } else if v < 62 {
        (48 + (v - 52)) as char
    } else if v == 62 {
        '+'
    } else {
        '/'
    }
}

/// Standard base64 with padding: each group of three bytes gives four
/// characters of six bits each; a last group of one or two bytes is padded
/// with `=` to four characters.
pub open spec fn base64_standard(bytes: Seq<u8>) -> Seq<char>
    decreases bytes.len(),
{
    if bytes.len() == 0 {
        Seq::empty()
    } else if bytes.len() == 1 {
        let a = bytes[0] as int;
        seq![base64_digit(a / 4), base64_digit((a % 4) * 16), '=', '=']
    } else if bytes.len() == 2 {
        let a = bytes[0] as int;
        let b = bytes[1] as int;
        seq![base64_digit(a / 4), base64_digit((a % 4) * 16 + b / 16), base64_digit((b % 16) * 4), '=']
    } else {
        let a = bytes[0] as int;
        let b = bytes[1] as int;
        let c = bytes[2] as int;
        seq![
            base64_digit(a / 4),
            base64_digit((a % 4) * 16 + b / 16),
            base64_digit((b % 16) * 4 + c / 64),
            base64_digit(c % 64),
        ] + base64_standard(bytes.subrange(3, bytes.len() as int))
    }
}

/// `base64::engine::general_purpose::STANDARD.encode`: the standard base64
/// text of `bytes`, with padding (RFC 4648, section 4).
#[verifier::external_body]
fn base64_encode(bytes: &[u8]) -> (r: String)
    requires
        bytes@.len() <= usize::MAX / 2,
    ensures
        r@ == base64_standard(bytes@),
{
    base64::engine::general_purpose::STANDARD.encode(bytes)
}

pub open spec fn image_data_url_spec(mime: Seq<char>, bytes: Seq<u8>) -> Result<Seq<char>, LlmError> {
    if mime == "image/png"@ || mime == "image/jpeg"@ {
        Ok("data:"@ + mime + ";base64,"@ + base64_standard(bytes))
    } else {
        Err(LlmError::UnsupportedImageMimeType)
    }
}

/// The `data:` URL that carries an invoice image to a vision model; only PNG
/// and JPEG images are sent.
pub fn image_data_url(mime_type: &str, bytes: &[u8]) -> (r: Result<String, LlmError>)
    requires
        bytes@.len() <= usize::MAX / 2,
    ensures
        match image_data_url_spec(mime_type@, bytes@) {
            Ok(u) => r matches Ok(s) && s@ == u,
            Err(e) => r == Err::<String, LlmError>(e),
        },
{
    if !(str_eq(mime_type, "image/png") || str_eq(mime_type, "image/jpeg")) {
        return Err(LlmError::UnsupportedImageMimeType);
    }
    let mut out: Vec<char> = Vec::new();
    push_str(&mut out, "data:");
    push_str(&mut out, mime_type);
    push_str(&mut out, ";base64,");
    let encoded = base64_encode(bytes);
    push_str(&mut out, encoded.as_str());
    Ok(string_from_chars(out.as_slice()))
}

/// Index of the candidate that an audit answer selects, kept within range.
pub fn clamp_selected_index(selected: usize, candidate_count: usize) -> (r: usize)
    requires
        candidate_count > 0,
    ensures
        r == if selected < candidate_count {
            selected
        } else {
            (candidate_count - 1) as usize
        },
{
    if selected < candidate_count - 1 {
        selected
    } else {
        candidate_count - 1
    }
}


/// The instructions sent with an invoice image: the JSON object the model
/// must answer with, its fields and the invoice kinds it tells apart.
pub open spec fn recognition_prompt_spec() -> Seq<char> {
    r#"你是发票识别引擎。请只输出一个 JSON 对象，不要输出 Markdown、解释或代码块。

如果图片完全不是发票或票据（如风景照、人物照等），输出 {"is_invoice": false, "confidence": 0, "needs_review": true, "warnings": ["not an invoice"]}。
注意：即使图片带有"测试""样例""模拟""fake"等水印或标注，只要票据格式正确、字段可读，就应视为有效发票进行识别，不要因为水印而判定为非发票。

如果图片是发票、票据或测试票据，按下面字段输出。无法识别的字段用 null，金额用数字，日期必须使用 YYYY-MM-DD。
支持并尽量准确区分这些类型：
- 增值税电子普通发票、增值税电子专用发票、全电发票、增值税普通发票、增值税专用发票
- 通行费发票、出租车发票、火车票/铁路电子客票、机票行程单
- 定额发票、卷式发票、机动车销售统一发票、二手车销售统一发票
- 海关进口增值税专用缴款书、财政电子票据、非税收入票据、普通收据

特殊票据没有标准购销方时，尽量把承运方/收款方放入 seller，把乘客/付款方放入 buyer。特殊字段放入 extra_fields，不要塞进 remarks。
{
  "is_invoice": true,
  "invoice_type": "string|null",
  "invoice_code": "string|null",
  "invoice_number": "string|null",
  "issue_date": "YYYY-MM-DD|null",
  "seller": {"name": "string|null", "tax_id": "string|null"},
  "buyer": {"name": "string|null", "tax_id": "string|null"},
  "currency": "CNY",
  "amount_without_tax": "number|null",
  "tax_amount": "number|null",
  "total_amount": "number|null",
  "category": "string|null",
  "items": [
    {
      "name": "string|null",
      "spec": "string|null",
      "unit": "string|null",
      "quantity": "number|null",
      "unit_price": "number|null",
      "amount": "number|null",
      "tax_rate": "number|null",
      "tax_amount": "number|null"
    }
  ],
  "remarks": "string|null",
  "extra_fields": {
    "passenger_name": "string|null",
    "train_number": "string|null",
    "flight_number": "string|null",
    "departure": "string|null",
    "arrival": "string|null",
    "departure_time": "string|null",
    "arrival_time": "string|null",
    "toll_entry": "string|null",
    "toll_exit": "string|null",
    "license_plate": "string|null",
    "vehicle_type": "string|null",
    "vehicle_model": "string|null",
    "vin": "string|null",
    "engine_number": "string|null",
    "tax_payment_certificate_number": "string|null",
    "receipt_code": "string|null",
    "receipt_number": "string|null"
  },
  "confidence": 0.0,
  "needs_review": true,
  "warnings": ["string"]
}"#@
}

pub fn invoice_recognition_prompt() -> (r: &'static str)
    ensures
        r@ == recognition_prompt_spec(),
{
    r#"你是发票识别引擎。请只输出一个 JSON 对象，不要输出 Markdown、解释或代码块。

如果图片完全不是发票或票据（如风景照、人物照等），输出 {"is_invoice": false, "confidence": 0, "needs_review": true, "warnings": ["not an invoice"]}。
注意：即使图片带有"测试""样例""模拟""fake"等水印或标注，只要票据格式正确、字段可读，就应视为有效发票进行识别，不要因为水印而判定为非发票。

如果图片是发票、票据或测试票据，按下面字段输出。无法识别的字段用 null，金额用数字，日期必须使用 YYYY-MM-DD。
支持并尽量准确区分这些类型：
- 增值税电子普通发票、增值税电子专用发票、全电发票、增值税普通发票、增值税专用发票
- 通行费发票、出租车发票、火车票/铁路电子客票、机票行程单
- 定额发票、卷式发票、机动车销售统一发票、二手车销售统一发票
- 海关进口增值税专用缴款书、财政电子票据、非税收入票据、普通收据

特殊票据没有标准购销方时，尽量把承运方/收款方放入 seller，把乘客/付款方放入 buyer。特殊字段放入 extra_fields，不要塞进 remarks。
{
  "is_invoice": true,
  "invoice_type": "string|null",
  "invoice_code": "string|null",
  "invoice_number": "string|null",
  "issue_date": "YYYY-MM-DD|null",
  "seller": {"name": "string|null", "tax_id": "string|null"},
  "buyer": {"name": "string|null", "tax_id": "string|null"},
  "currency": "CNY",
  "amount_without_tax": "number|null",
  "tax_amount": "number|null",
  "total_amount": "number|null",
  "category": "string|null",
  "items": [
    {
      "name": "string|null",
      "spec": "string|null",
      "unit": "string|null",
      "quantity": "number|null",
      "unit_price": "number|null",
      "amount": "number|null",
      "tax_rate": "number|null",
      "tax_amount": "number|null"
    }
  ],
  "remarks": "string|null",
  "extra_fields": {
    "passenger_name": "string|null",
    "train_number": "string|null",
    "flight_number": "string|null",
    "departure": "string|null",
    "arrival": "string|null",
    "departure_time": "string|null",
    "arrival_time": "string|null",
    "toll_entry": "string|null",
    "toll_exit": "string|null",
    "license_plate": "string|null",
    "vehicle_type": "string|null",
    "vehicle_model": "string|null",
    "vin": "string|null",
    "engine_number": "string|null",
    "tax_payment_certificate_number": "string|null",
    "receipt_code": "string|null",
    "receipt_number": "string|null"
  },
  "confidence": 0.0,
  "needs_review": true,
  "warnings": ["string"]
}"#
}

// ---------------------------------------------------------------------------
// Repeated recognition and the audit of its candidates
// ---------------------------------------------------------------------------

/// How many times an image is recognized before the candidates are audited.
pub const MAX_VLM_ATTEMPTS: u32 = 3;

/// What one recognition attempt answered, as judged by the caller from the
/// answer's JSON: not an invoice, an invoice with sufficient confidence, or
/// anything else (low or missing confidence, unreadable JSON).
#[derive(PartialEq, Eq, Structural, Clone, Copy)]
pub enum VlmVerdict {
    NotInvoice,
    Confident,
    LowConfidence,
}

/// What follows an attempt.
#[derive(PartialEq, Eq, Structural, Clone, Copy)]
pub enum VlmAction {
    /// The attempt's answer is the result.
    Accept,
    /// Keep the answer as a candidate, wait `backoff_secs` and try again.
    Retry { next_attempt: u32, backoff_secs: u64 },
    /// Keep the answer as a candidate and let the model pick among all.
    Audit,
}

pub open spec fn vlm_step_spec(attempt: u32, verdict: VlmVerdict) -> VlmAction {
    match verdict {
        VlmVerdict::LowConfidence => if attempt < MAX_VLM_ATTEMPTS {
            VlmAction::Retry { next_attempt: (attempt + 1) as u32, backoff_secs: (attempt + 1) as u64 }
        } else {
            VlmAction::Audit
        },
        _ => VlmAction::Accept,
    }
}

/// The decision after attempt `attempt`: an answer that is no invoice or is
/// confident enough ends the loop; a weak one leads to the next attempt,
/// whose wait in seconds is its number, and after the last attempt to the
/// audit of all the weak answers.
pub fn vlm_step(attempt: u32, verdict: VlmVerdict) -> (r: VlmAction)
    requires
        1 <= attempt <= MAX_VLM_ATTEMPTS,
    ensures
        r == vlm_step_spec(attempt, verdict),
        r matches VlmAction::Retry { next_attempt, .. } ==> next_attempt == attempt + 1 && next_attempt
            <= MAX_VLM_ATTEMPTS,
        r is Audit ==> attempt == MAX_VLM_ATTEMPTS,
{
    match verdict {
        VlmVerdict::LowConfidence => if attempt < MAX_VLM_ATTEMPTS {
            VlmAction::Retry { next_attempt: attempt + 1, backoff_secs: (attempt + 1) as u64 }
        } else {
            VlmAction::Audit
        },
        _ => VlmAction::Accept,
    }
}

/// The actions of a run of attempts that all answer weakly, from attempt
/// `from` on.
pub open spec fn weak_run(from: u32) -> Seq<VlmAction>
    decreases MAX_VLM_ATTEMPTS - from,
{
    if from < 1 || from > MAX_VLM_ATTEMPTS {
        Seq::empty()
    } else {
        let a = vlm_step_spec(from, VlmVerdict::LowConfidence);
        match a {
            VlmAction::Retry { next_attempt, .. } => seq![a] + weak_run(next_attempt),
            _ => seq![a],
        }
    }
}

/// When no attempt is confident, the image is recognized exactly
/// `MAX_VLM_ATTEMPTS` times and the audit comes after the last, with one
/// candidate per attempt.
pub proof fn law_weak_answers_end_in_audit()
    ensures
        weak_run(1).len() == MAX_VLM_ATTEMPTS,
        weak_run(1).last() == VlmAction::Audit,
        forall|k: int| 0 <= k < weak_run(1).len() - 1 ==> (#[trigger] weak_run(1)[k]) is Retry,
{
    assert(weak_run(3) =~= seq![VlmAction::Audit]);
    assert(weak_run(2) =~= seq![VlmAction::Retry { next_attempt: 3, backoff_secs: 3 }, VlmAction::Audit]);
    assert(weak_run(1) =~= seq![
        VlmAction::Retry { next_attempt: 2, backoff_secs: 2 },
        VlmAction::Retry { next_attempt: 3, backoff_secs: 3 },
        VlmAction::Audit,
    ]);
}

/// How the audit request went.
pub enum AuditReply {
    /// The provider answered with an error status.
    HttpFailed,
    /// The answer had no text.
    NoContent,
    /// The text held no JSON object.
    NoJsonObject,
    /// The JSON object could not be read.
    BadJson,
    /// The audit's choice, when it gave a non-negative integer.
    Parsed { selected_index: Option<u64> },
}

/// The candidate the audit settles on, and whether the audit's own
/// confidence is written into it: any failure of the audit falls back to the
/// first candidate as it is; a readable answer picks its index (0 when it
/// gives none), kept within the candidates.
pub fn audit_pick(reply: &AuditReply, candidate_count: usize) -> (r: (usize, bool))
    requires
        candidate_count > 0,
    ensures
        match reply {
            AuditReply::Parsed { selected_index } => r.1 && r.0 == ({
                let s = match selected_index {
                    Some(v) => *v as usize,
                    None => 0usize,
                };
                if s < candidate_count {
                    s
                } else {
                    (candidate_count - 1) as usize
                }
            }),
            _ => r.0 == 0 && !r.1,
        },
{
    match reply {
        AuditReply::Parsed { selected_index } => {
            let s: usize = match selected_index {
                Some(v) => *v as usize,
                None => 0,
            };
            (clamp_selected_index(s, candidate_count), true)
        },
        _ => (0, false),
    }
}

pub open spec fn audit_prompt_spec(count: nat, candidates_json: Seq<char>) -> Seq<char> {
    "你是发票识别结果审计引擎。以下是一张发票图片被 VLM（视觉大模型）多次识别的结果。\n请比较这些结果，选择最准确的一个，并评估可信度。\n\n审计要点：\n1. 比对关键字段一致性：发票号码、金额、购销方名称、日期\n2. 如果多数结果一致但个别不同，以多数为准\n3. 选择字段最完整、数值最合理的结果\n4. 如果所有结果都有严重问题（如金额异常大、日期不合理），仍选择最接近的并给低分\n\n只输出一个 JSON 对象，不要输出其他内容：\n{\"selected_index\": 0, \"confidence\": 0.85, \"reason\": \"简要原因\"}\n\n候选结果（共 "@
        + crate::text::dec(count) + " 个）：\n"@ + candidates_json
}

/// The request that asks the model to pick the best of `count` candidates,
/// given as pretty-printed JSON.
pub fn audit_prompt(count: usize, candidates_json: &str) -> (r: String)
    ensures
        r@ == audit_prompt_spec(count as nat, candidates_json@),
{
    let mut out: Vec<char> = Vec::new();
    push_str(
        &mut out,
        "你是发票识别结果审计引擎。以下是一张发票图片被 VLM（视觉大模型）多次识别的结果。\n请比较这些结果，选择最准确的一个，并评估可信度。\n\n审计要点：\n1. 比对关键字段一致性：发票号码、金额、购销方名称、日期\n2. 如果多数结果一致但个别不同，以多数为准\n3. 选择字段最完整、数值最合理的结果\n4. 如果所有结果都有严重问题（如金额异常大、日期不合理），仍选择最接近的并给低分\n\n只输出一个 JSON 对象，不要输出其他内容：\n{\"selected_index\": 0, \"confidence\": 0.85, \"reason\": \"简要原因\"}\n\n候选结果（共 ",
    );
    crate::text::push_usize(&mut out, count);
    push_str(&mut out, " 个）：\n");
    push_str(&mut out, candidates_json);
    string_from_chars(out.as_slice())
}


/// How one recognition answer is shown to the audit.
pub enum AuditCandidate {
    /// The answer's fields (values as JSON text) without `items` and
    /// `extra_fields`.
    Fields(Vec<(String, String)>),
    /// The answer is not JSON: shown as a parse error with the raw text.
    Unparsed,
    /// The answer is JSON but not an object: shown as its index.
    Index(usize),
}

/// The entries kept for the audit: all but `items` and `extra_fields`.
pub open spec fn audit_fields(s: Seq<(Seq<char>, Seq<char>)>) -> Seq<(Seq<char>, Seq<char>)>
    decreases s.len(),
{
    if s.len() == 0 {
        Seq::empty()
    } else {
        let prev = audit_fields(s.drop_last());
        if s.last().0 == "items"@ || s.last().0 == "extra_fields"@ {
            prev
        } else {
            prev.push(s.last())
        }
    }
}

/// The form in which answer `index` is shown to the audit.
pub fn audit_candidate(index: usize, response_json: &str) -> (r: AuditCandidate)
    ensures
        match crate::agent::json_arguments(response_json@) {
            None => r is Unparsed,
            Some(crate::agent::JsonArgsView::Other(_)) => r == AuditCandidate::Index(index),
            Some(crate::agent::JsonArgsView::Object(es)) => r matches AuditCandidate::Fields(v)
                && crate::agent::entry_views(v@) == audit_fields(es),
        },
{
    match crate::agent::parse_json_arguments(response_json) {
        None => AuditCandidate::Unparsed,
        Some(crate::agent::JsonArgs::Other(_)) => AuditCandidate::Index(index),
        Some(crate::agent::JsonArgs::Object(entries)) => {
            let ghost es = crate::agent::entry_views(entries@);
            let mut entries = entries;
            let mut kept: Vec<(String, String)> = Vec::new();
            let ghost mut done: int = 0;
            while entries.len() > 0
                invariant
                    0 <= done <= es.len(),
                    crate::agent::entry_views(entries@) == es.skip(done),
                    crate::agent::entry_views(kept@) == audit_fields(es.take(done)),
                decreases entries.len(),
            {
                let ghost before = entries@;
                let e = entries.remove(0);
                proof {
                    assert(before.len() > 0);
                    assert(e == before[0]);
                    assert(crate::agent::entry_views(before)[0] == (before[0].0@, before[0].1@));
                    assert(crate::agent::entry_views(before).len() == es.len() - done);
                    assert(crate::agent::entry_views(before)[0] == es.skip(done)[0]);
                    assert(es.skip(done)[0] == es[done]);
                    assert((e.0@, e.1@) == es[done]);
                    assert(crate::agent::entry_views(entries@) =~= es.skip(done + 1)) by {
                        assert(entries@ =~= before.subrange(1, before.len() as int));
                        assert forall|j: int| 0 <= j < entries@.len() implies crate::agent::entry_views(
                            entries@,
                        )[j] == es.skip(done + 1)[j] by {
                            assert(entries@[j] == before[j + 1]);
                            assert(crate::agent::entry_views(entries@)[j] == (entries@[j].0@, entries@[j].1@));
                            assert(crate::agent::entry_views(before)[j + 1] == (before[j + 1].0@, before[j + 1].1@));
                            assert(crate::agent::entry_views(before)[j + 1] == es.skip(done)[j + 1]);
                            assert(es.skip(done)[j + 1] == es.skip(done + 1)[j]);
                        }
                    }
                    assert(es.take(done + 1).drop_last() =~= es.take(done));
                    assert(es.take(done + 1).last() == es[done]);
                }
                let k = chars_of(e.0.as_str());
                if !(crate::text::chars_eq_str(&k, "items") || crate::text::chars_eq_str(&k, "extra_fields")) {
                    let ghost prev = kept@;
                    kept.push(e);
                    proof {
                        assert(crate::agent::entry_views(kept@) =~= crate::agent::entry_views(prev).push(es[done]));
                    }
                }
                proof {
                    done = done + 1;
                }
            }
            proof {
                assert(es.take(done) =~= es);
            }
            AuditCandidate::Fields(kept)
        },
    }
}
} // verus!
