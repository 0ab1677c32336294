//! Names, limits and status values shared across the application.
use vstd::prelude::*;

verus! {

/// Log file directory name.
pub const DIR_LOGS: &'static str = "logs";

/// Embedding model storage directory name.
pub const DIR_MODELS: &'static str = "models";

/// Diagnostic configuration file name.
pub const DIAGNOSTIC_CONFIG_FILE: &'static str = "diagnostic_config.json";

/// Single-instance lock file name.
pub const SINGLE_INSTANCE_LOCK_FILE: &'static str = "invoicevault.lock";

/// Model repository of the local embedding engine.
pub const EMBEDDING_MODEL_REPO: &'static str = "Xenova/bge-small-zh-v1.5";

/// Model directory name inside `DIR_MODELS`.
pub const EMBEDDING_MODEL_DIR: &'static str = "bge-small-zh-v1.5";

/// The quantized ONNX model file, relative to the model directory.
pub const EMBEDDING_ONNX_PATH: &'static str = "onnx/model_q4.onnx";

/// Tokenizer file name in the model directory.
pub const EMBEDDING_TOKENIZER_FILE: &'static str = "tokenizer.json";

/// Embedding vector dimensions.
pub const EMBEDDING_DIMENSIONS: usize = 384;

/// Maximum token length of an embedding input.
pub const EMBEDDING_MAX_TOKENS: usize = 512;

/// Default LLM chat request timeout in seconds.
pub const LLM_DEFAULT_TIMEOUT_SECS: u64 = 30;

/// Invoice recognition timeout in seconds.
pub const LLM_RECOGNITION_TIMEOUT_SECS: u64 = 90;

/// LLM connection-test timeout in seconds.
pub const LLM_CONNECT_TEST_TIMEOUT_SECS: u64 = 30;

/// Default assistant request timeout in seconds.
pub const AGENT_DEFAULT_TIMEOUT_SECS: u64 = 60;

/// OCR request timeout in seconds.
pub const SCNET_OCR_TIMEOUT_SECS: u64 = 30;

/// Timeout of the single-instance check in milliseconds.
pub const SINGLE_INSTANCE_TCP_TIMEOUT_MS: u64 = 700;

/// Embedding model download timeout in seconds.
pub const EMBEDDING_DOWNLOAD_TIMEOUT_SECS: u64 = 120;

/// Embedding connection test timeout in seconds.
pub const EMBEDDING_TEST_TIMEOUT_SECS: u64 = 120;

/// Maximum retry attempts of invoice recognition.
pub const LLM_MAX_RETRIES: u32 = 3;

/// Maximum vision-model recognition attempts.
pub const LLM_VLM_MAX_ATTEMPTS: u32 = 3;

/// Max tokens of an invoice recognition response.
pub const LLM_RECOGNITION_MAX_TOKENS: u16 = 16384;

/// Max tokens of an assistant response.
pub const AGENT_MAX_TOKENS: u16 = 8192;

/// Number of recent messages loaded as conversation context.
pub const AGENT_HISTORY_LIMIT: usize = 20;

/// Chat requests of one assistant turn (tool-call loop iterations) before
/// the assistant gives up.
pub const AGENT_MAX_ITERATIONS: usize = 20;

/// Default session title.
pub const AGENT_DEFAULT_TITLE: &'static str = "新对话";

/// Default file stability wait time of a watched folder, in milliseconds.
pub const WATCHER_DEFAULT_STABLE_WAIT_MS: u64 = 2000;

/// Interval between file stability checks in milliseconds.
pub const WATCHER_STABILITY_CHECK_INTERVAL_MS: u64 = 100;

/// Seconds in a day.
pub const SECONDS_PER_DAY: u64 = 86400;

pub const STATUS_IMPORTED: &'static str = "imported";
pub const STATUS_FAILED: &'static str = "failed";
pub const STATUS_RECOGNIZING: &'static str = "recognizing";
pub const STATUS_COMPLETED: &'static str = "completed";
pub const STATUS_PENDING: &'static str = "pending";
pub const STATUS_CONFIRMED: &'static str = "confirmed";
pub const STATUS_ARCHIVED: &'static str = "archived";
pub const STATUS_UNIQUE: &'static str = "unique";
pub const STATUS_EXACT_DUPLICATE: &'static str = "exact_duplicate";
pub const STATUS_PROBABLE_DUPLICATE: &'static str = "probable_duplicate";
pub const STATUS_POSSIBLE_DUPLICATE: &'static str = "possible_duplicate";
pub const STATUS_NOT_DUPLICATE: &'static str = "not_duplicate";

} // verus!
