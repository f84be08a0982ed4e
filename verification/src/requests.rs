//! The structured request payloads the boundary accepts. Each arrives as a
//! UTF-8 textual record with externally fixed field names; a host decodes
//! the record into the plain form here before handing it to the library.

use vstd::prelude::*;

verus! {

/// One question-answering query: a question posed against a context text.
pub struct JSQaInput {
    pub question: String,
    pub context: String,
}

/// A text-generation request: input prompts and an optional shared prefix.
pub struct TextGenerationInit {
    pub inputs: Vec<String>,
    pub prefix: Option<String>,
}

/// A translation-model creation request: the wire codes of the source and
/// target languages the model must support.
pub struct TranslationModelInit {
    pub source_languages: Vec<u8>,
    pub target_languages: Vec<u8>,
}

/// A translation request: input texts and the wire codes of the source and
/// target languages.
pub struct TranslationInit {
    pub inputs: Vec<String>,
    pub source_language: u8,
    pub target_language: u8,
}

/// A zero-shot-classification request: input texts, candidate labels, and
/// the maximum sequence length to classify under.
pub struct ZeroShotInput {
    pub inputs: Vec<String>,
    pub labels: Vec<String>,
    pub max_length: usize,
}

} // verus!
