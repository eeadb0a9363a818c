pub mod factory;
pub mod text;
pub mod special;
pub mod vocab;

pub use factory::cl100k_base;
pub use factory::p50k_base;
pub use factory::p50k_edit;
pub use factory::r50k_base;
pub use factory::whisper_gpt2;
pub use factory::whisper_multilingual;
pub use factory::Tokenizer;
pub use vocab::VocabularyTable;

use vstd::prelude::*;

verus! {

/// A failure while assembling a tokenizer configuration.
#[derive(Clone, Copy, Debug, PartialEq, Eq, Structural)]
pub enum TokenizerError {
    /// A vocabulary resource line was malformed: bad base64, a missing
    /// field, or a rank that is not a decimal number.
    ResourceParse,
    /// A special-token identifier would collide with a vocabulary rank or
    /// with another special token, or would not fit the machine word.
    AllocationCollision,
}

} // verus!
