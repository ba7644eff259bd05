//! The embedding service's own logic: model selection and input checks.
//!
//! The provider call itself is a network effect and lives outside the
//! library; what is verified here is everything the service decides — which
//! inputs are rejected, and when a provider answer is acceptable.

use vstd::prelude::*;
use vstd::string::StrSliceExecFns;
use vstd::string::StringExecFns;

use crate::numfmt::dec_digits;
use crate::numfmt::u64_to_string;

verus! {

/// Errors of the embedding service. The variant that carried the
/// provider's error in the unverified shell carries its message here.
#[derive(Debug, Clone, PartialEq, Eq)]
pub enum EmbeddingError {
    ApiError(String),
    ConfigError(String),
    ValidationError(String),
}

/// The embedding service: holds the model name the provider is asked for.
#[derive(Debug, Clone)]
pub struct OpenAIEmbeddingService {
    model: String,
}

impl OpenAIEmbeddingService {
    /// The configured model name.
    pub closed spec fn model_name(self) -> Seq<char> {
        self.model@
    }

    /// A service using the default embedding model.
    pub fn new() -> (r: OpenAIEmbeddingService)
        ensures
            r.model_name() == "text-embedding-3-small"@,
    {
        OpenAIEmbeddingService { model: "text-embedding-3-small".to_owned() }
    }

    /// The service with a custom model.
    pub fn with_model(self, model: String) -> (r: OpenAIEmbeddingService)
        ensures
            r.model_name() == model@,
    {
        OpenAIEmbeddingService { model }
    }

    /// The model being used.
    pub fn model(&self) -> (r: &str)
        ensures
            r@ == self.model_name(),
    {
        self.model.as_str()
    }
}

/// True when no text of the batch is empty.
pub open spec fn all_texts_nonempty(texts: Seq<String>) -> bool {
    forall|i: int| 0 <= i < texts.len() ==> (#[trigger] texts[i])@.len() > 0
}

/// The rejection message for an empty text at position `i`.
pub open spec fn empty_text_message(i: nat) -> Seq<char> {
    "Text at index "@ + dec_digits(i) + " cannot be empty"@
}

/// Validation of a single text before an embedding request: empty input is
/// rejected.
pub fn validate_embedding_input(text: &str) -> (r: Result<(), EmbeddingError>)
    ensures
        text@.len() == 0 ==> (r matches Err(EmbeddingError::ValidationError(m)) && m@
            == "Input text cannot be empty"@),
        text@.len() > 0 ==> r is Ok,
{
    if text.is_empty() {
        Err(EmbeddingError::ValidationError("Input text cannot be empty".to_owned()))
    } else {
        Ok(())
    }
}

/// Validation of a batch of texts before an embedding request: succeeds
/// exactly when every text is non-empty, and otherwise names the first
/// empty position.
pub fn validate_embedding_inputs(texts: &Vec<String>) -> (r: Result<(), EmbeddingError>)
    ensures
        r is Ok <==> all_texts_nonempty(texts@),
        !all_texts_nonempty(texts@) ==> (r matches Err(EmbeddingError::ValidationError(m))
            && exists|i: int|
            0 <= i < texts@.len() && (#[trigger] texts@[i])@.len() == 0 && (forall|j: int|
                0 <= j < i ==> (#[trigger] texts@[j])@.len() > 0) && m@ == empty_text_message(
                i as nat,
            )),
{
    let mut i: usize = 0;
    while i < texts.len()
        invariant
            i <= texts@.len(),
            forall|j: int| 0 <= j < i ==> (#[trigger] texts@[j])@.len() > 0,
        decreases texts@.len() - i,
    {
        if texts[i].as_str().is_empty() {
            let mut m = "Text at index ".to_owned();
            m.append(u64_to_string(i as u64).as_str());
            m.append(" cannot be empty");
            return Err(EmbeddingError::ValidationError(m));
        }
        i += 1;
    }
    Ok(())
}

/// The rejection message for a provider answer of the wrong length.
pub open spec fn count_mismatch_message(expected: nat, got: nat) -> Seq<char> {
    "Expected "@ + dec_digits(expected) + " embeddings, got "@ + dec_digits(got)
}

/// A provider answer is acceptable exactly when it holds one vector per
/// requested text.
pub fn check_embedding_count(expected: usize, got: usize) -> (r: Result<(), EmbeddingError>)
    ensures
        expected == got <==> r is Ok,
        expected != got ==> (r matches Err(EmbeddingError::ValidationError(m)) && m@
            == count_mismatch_message(expected as nat, got as nat)),
{
    if expected == got {
        Ok(())
    } else {
        let mut m = "Expected ".to_owned();
        m.append(u64_to_string(expected as u64).as_str());
        m.append(" embeddings, got ");
        m.append(u64_to_string(got as u64).as_str());
        Err(EmbeddingError::ValidationError(m))
    }
}

} // verus!
