//! The local embedding engine's bookkeeping: whether its model files are
//! present, the token inputs of one text, the report of a connection test,
//! and the status shown to the user.  Running the model is the caller's
//! part.
use vstd::prelude::*;

use crate::constants::{EMBEDDING_MAX_TOKENS, EMBEDDING_MODEL_DIR};
use crate::text::{push_str, string_from_chars};

verus! {

pub enum EmbeddingError {
    NotLoaded,
    Download(String),
    Load(String),
    Inference(String),
}

impl EmbeddingError {
    /// The message of the error.
    pub fn message(&self) -> (r: String)
        ensures
            self is NotLoaded ==> r@ == "embedding engine not loaded"@,
            self matches EmbeddingError::Download(d) ==> r@ == "model download failed: "@ + d@,
            self matches EmbeddingError::Load(d) ==> r@ == "model load failed: "@ + d@,
            self matches EmbeddingError::Inference(d) ==> r@ == "inference failed: "@ + d@,
    {
        let mut out: Vec<char> = Vec::new();
        match self {
            EmbeddingError::NotLoaded => push_str(&mut out, "embedding engine not loaded"),
            EmbeddingError::Download(d) => {
                push_str(&mut out, "model download failed: ");
                push_str(&mut out, d.as_str());
            },
            EmbeddingError::Load(d) => {
                push_str(&mut out, "model load failed: ");
                push_str(&mut out, d.as_str());
            },
            EmbeddingError::Inference(d) => {
                push_str(&mut out, "inference failed: ");
                push_str(&mut out, d.as_str());
            },
        }
        string_from_chars(out.as_slice())
    }
}

/// The report of a connection test of the local engine.
pub struct EmbeddingTestResult {
    pub model: String,
    pub dimensions: usize,
    pub duration_ms: u64,
}

pub fn embedding_test_result(dimensions: usize, duration_ms: u64) -> (r: EmbeddingTestResult)
    ensures
        r.model@ == "bge-small-zh-v1.5"@,
        r.dimensions == dimensions,
        r.duration_ms == duration_ms,
{
    EmbeddingTestResult { model: EMBEDDING_MODEL_DIR.to_owned(), dimensions, duration_ms }
}

/// The status of the local engine shown to the user.
pub struct LocalEmbeddingStatus {
    pub enabled: bool,
    pub model_present: bool,
    pub model_loaded: bool,
    pub model_dir: Option<String>,
    pub dimensions: Option<usize>,
}

/// Whether the model is present (both its ONNX file and its tokenizer
/// exist), and its directory when it is.
pub fn embedding_model_presence(onnx_exists: bool, tokenizer_exists: bool, model_dir: String) -> (r: (
    bool,
    Option<String>,
))
    ensures
        r.0 == (onnx_exists && tokenizer_exists),
        r.0 ==> r.1 == Some(model_dir),
        !r.0 ==> r.1 is None,
{
    let present = onnx_exists && tokenizer_exists;
    if present {
        (true, Some(model_dir))
    } else {
        (false, None)
    }
}

/// The status of the engine: the directory of the loaded model, or else of
/// the model found on disk.
pub fn local_embedding_status(
    enabled: bool,
    model_loaded: bool,
    loaded_dir: Option<String>,
    dimensions: Option<usize>,
    presence: (bool, Option<String>),
) -> (r: LocalEmbeddingStatus)
    ensures
        r.enabled == enabled,
        r.model_loaded == model_loaded,
        r.model_present == presence.0,
        r.dimensions == dimensions,
        r.model_dir == match loaded_dir {
            Some(d) => Some(d),
            None => presence.1,
        },
{
    let (model_present, fallback) = presence;
    LocalEmbeddingStatus {
        enabled,
        model_present,
        model_loaded,
        model_dir: match loaded_dir {
            Some(d) => Some(d),
            None => fallback,
        },
        dimensions,
    }
}

/// The token inputs of a text: at most `EMBEDDING_MAX_TOKENS` ids and mask
/// values, and as many zero token types.
pub fn token_inputs(ids: &[u32], mask: &[u32]) -> (r: (Vec<i64>, Vec<i64>, Vec<i64>))
    ensures
        r.0@.len() == if ids.len() < EMBEDDING_MAX_TOKENS { ids.len() as int } else { EMBEDDING_MAX_TOKENS as int },
        forall|k: int| 0 <= k < r.0@.len() ==> r.0@[k] == ids@[k] as int,
        r.1@.len() == if mask.len() < EMBEDDING_MAX_TOKENS { mask.len() as int } else { EMBEDDING_MAX_TOKENS as int },
        forall|k: int| 0 <= k < r.1@.len() ==> r.1@[k] == mask@[k] as int,
        r.2@.len() == r.0@.len(),
        forall|k: int| 0 <= k < r.2@.len() ==> r.2@[k] == 0,
{
    let mut a: Vec<i64> = Vec::new();
    let mut i: usize = 0;
    while i < ids.len() && i < EMBEDDING_MAX_TOKENS
        invariant
            i <= ids.len(),
            i <= EMBEDDING_MAX_TOKENS,
            a@.len() == i,
            forall|k: int| 0 <= k < i ==> a@[k] == ids@[k] as int,
        decreases ids.len() - i,
    {
        a.push(ids[i] as i64);
        i += 1;
    }
    let mut b: Vec<i64> = Vec::new();
    let mut j: usize = 0;
    while j < mask.len() && j < EMBEDDING_MAX_TOKENS
        invariant
            j <= mask.len(),
            j <= EMBEDDING_MAX_TOKENS,
            b@.len() == j,
            forall|k: int| 0 <= k < j ==> b@[k] == mask@[k] as int,
        decreases mask.len() - j,
    {
        b.push(mask[j] as i64);
        j += 1;
    }
    let mut c: Vec<i64> = Vec::new();
    let mut k: usize = 0;
    while k < a.len()
        invariant
            k <= a.len(),
            c@.len() == k,
            forall|x: int| 0 <= x < k ==> c@[x] == 0,
        decreases a.len() - k,
    {
        c.push(0);
        k += 1;
    }
    (a, b, c)
}

} // verus!
