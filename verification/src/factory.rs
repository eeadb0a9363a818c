use vstd::prelude::*;
use vstd::string::StringExecFns;

use crate::special::cl100k_special_tokens;
use crate::special::cl100k_specials;
use crate::special::get_whisper_special_tokens;
use crate::special::gpt2_special_tokens;
use crate::special::gpt2_specials;
use crate::special::p50k_edit_special_tokens;
use crate::special::p50k_edit_specials;
use crate::special::specials_view;
use crate::special::whisper_specials;
use crate::vocab::load_vocabulary;
use crate::vocab::spec_load;
use crate::vocab::VocabularyTable;
use crate::TokenizerError;

verus! {

/// The pre-split pattern of the older families: contraction suffixes,
/// letter runs, number runs, punctuation runs, and whitespace.
pub open spec fn legacy_pattern() -> Seq<char> {
    "'s|'t|'re|'ve|'m|'ll|'d| ?\\p{L}+| ?\\p{N}+| ?[^\\s\\p{L}\\p{N}]+|\\s+(?!\\S)|\\s+"@
}

/// The chat-model family's pattern: case-insensitive contractions,
/// digit runs capped at three, and line-ending awareness.
pub open spec fn cl100k_pattern() -> Seq<char> {
    "(?i:'s|'t|'re|'ve|'m|'ll|'d)|[^\\r\\n\\p{L}\\p{N}]?\\p{L}+|\\p{N}{1,3}| ?[^\\s\\p{L}\\p{N}]+[\\r\\n]*|\\s*[\\r\\n]+|\\s+(?!\\S)|\\s+"@
}

fn legacy_pattern_exec() -> (s: String)
    ensures
        s@ == legacy_pattern(),
{
    String::from_str(
        "'s|'t|'re|'ve|'m|'ll|'d| ?\\p{L}+| ?\\p{N}+| ?[^\\s\\p{L}\\p{N}]+|\\s+(?!\\S)|\\s+",
    )
}

fn cl100k_pattern_exec() -> (s: String)
    ensures
        s@ == cl100k_pattern(),
{
    String::from_str(
        "(?i:'s|'t|'re|'ve|'m|'ll|'d)|[^\\r\\n\\p{L}\\p{N}]?\\p{L}+|\\p{N}{1,3}| ?[^\\s\\p{L}\\p{N}]+[\\r\\n]*|\\s*[\\r\\n]+|\\s+(?!\\S)|\\s+",
    )
}

/// Some special-token identifier equals some vocabulary rank.
pub open spec fn spec_collides(vocab: Seq<(Seq<u8>, nat)>, specials: Seq<(Seq<char>, nat)>) -> bool {
    exists|i: int, j: int|
        0 <= i < specials.len() && 0 <= j < vocab.len() && specials[i].1 == vocab[j].1
}

/// The mathematical content of a tokenizer configuration: the vocabulary
/// pairs in file order, the special tokens in allocation order, and the
/// pre-split pattern.
#[verifier::ext_equal]
pub ghost struct TokenizerView {
    pub vocab: Seq<(Seq<u8>, nat)>,
    pub specials: Seq<(Seq<char>, nat)>,
    pub pattern: Seq<char>,
}

impl TokenizerView {
    /// The guarantee owed to the encoding engine: no special-token
    /// identifier equals a vocabulary rank or another special identifier.
    pub open spec fn wf(self) -> bool {
        &&& !spec_collides(self.vocab, self.specials)
        &&& forall|i: int, j: int|
            0 <= i < j < self.specials.len() ==> self.specials[i].1 != self.specials[j].1
    }

    /// The vocabulary size plus the special-token count.
    pub open spec fn total_tokens(self) -> nat {
        self.vocab.len() + self.specials.len()
    }
}

/// A fully specified tokenizer configuration, ready to hand to the
/// encoding engine: a vocabulary, a set of special tokens under reserved
/// identifiers, and a pre-split pattern.
#[derive(Debug)]
pub struct Tokenizer {
    pub vocab: VocabularyTable,
    pub special_tokens: Vec<(String, usize)>,
    pub pattern: String,
}

impl View for Tokenizer {
    type V = TokenizerView;

    open spec fn view(&self) -> TokenizerView {
        TokenizerView {
            vocab: self.vocab@,
            specials: specials_view(self.special_tokens@),
            pattern: self.pattern@,
        }
    }
}

/// Whether `id` occurs among the vocabulary's ranks.
fn rank_used(vocab: &VocabularyTable, id: usize) -> (b: bool)
    ensures
        b == exists|j: int| 0 <= j < vocab@.len() && vocab@[j].1 == id as nat,
{
    let mut j: usize = 0;
    let n = vocab.len();
    while j < n
        invariant
            j <= n == vocab@.len(),
            vocab@.len() == vocab.entries@.len(),
            forall|q: int| 0 <= q < j ==> vocab@[q].1 != id as nat,
        decreases n - j,
    {
        if vocab.entries[j].1 == id {
            proof {
                assert(vocab@[j as int].1 == id as nat);
            }
            return true;
        }
        proof {
            assert(vocab@[j as int].1 == vocab.entries@[j as int].1 as nat);
        }
        j += 1;
    }
    false
}

/// Whether any special-token identifier collides with a vocabulary rank.
fn has_collision(vocab: &VocabularyTable, specials: &Vec<(String, usize)>) -> (b: bool)
    ensures
        b == spec_collides(vocab@, specials_view(specials@)),
{
    let mut i: usize = 0;
    let n = specials.len();
    while i < n
        invariant
            i <= n == specials@.len(),
            forall|q: int, j: int|
                0 <= q < i && 0 <= j < vocab@.len() ==> specials@[q].1 as nat != vocab@[j].1,
        decreases n - i,
    {
        if rank_used(vocab, specials[i].1) {
            proof {
                let ghost qi = i as int;
                let j = choose|j: int| 0 <= j < vocab@.len() && vocab@[j].1 == specials@[qi].1 as nat;
                assert(specials_view(specials@)[i as int].1 == vocab@[j].1);
            }
            return true;
        }
        i += 1;
    }
    proof {
        assert forall|q: int, j: int|
            0 <= q < specials_view(specials@).len() && 0 <= j
                < vocab@.len() implies specials_view(specials@)[q].1 != vocab@[j].1 by {
            assert(specials_view(specials@)[q].1 == specials@[q].1 as nat);
        }
    }
    false
}

/// Joins a vocabulary, a special-token table and a pre-split pattern into
/// a tokenizer configuration, first checking the guarantee the encoding
/// engine is owed: no special identifier may equal a vocabulary rank.
fn assemble(vocab: VocabularyTable, special_tokens: Vec<(String, usize)>, pattern: String) -> (r:
    Result<Tokenizer, TokenizerError>)
    requires
        forall|i: int, j: int|
            0 <= i < j < specials_view(special_tokens@).len() ==> specials_view(
                special_tokens@,
            )[i].1 != specials_view(special_tokens@)[j].1,
    ensures
        ({
            let sv = specials_view(special_tokens@);
            if spec_collides(vocab@, sv) {
                r matches Err(e) && e == TokenizerError::AllocationCollision
            } else {
                r matches Ok(t) && t@ == (TokenizerView {
                    vocab: vocab@,
                    specials: sv,
                    pattern: pattern@,
                }) && t@.wf()
            }
        }),
{
    if has_collision(&vocab, &special_tokens) {
        return Err(TokenizerError::AllocationCollision);
    }
    Ok(Tokenizer { vocab, special_tokens, pattern })
}

/// What a fixed-scheme factory yields: the loaded vocabulary with the
/// family's fixed special tokens and pattern, `ResourceParse` exactly when
/// the resource is malformed, and `AllocationCollision` exactly when a
/// fixed identifier equals some rank of the resource.
pub open spec fn spec_fixed_factory(
    text: Seq<char>,
    specials: Seq<(Seq<char>, nat)>,
    pattern: Seq<char>,
) -> Result<TokenizerView, TokenizerError> {
    match spec_load(text, false) {
        None => Err(TokenizerError::ResourceParse),
        Some(v) => if spec_collides(v, specials) {
            Err(TokenizerError::AllocationCollision)
        } else {
            Ok(TokenizerView { vocab: v, specials: specials, pattern: pattern })
        },
    }
}

pub open spec fn spec_r50k_base(text: Seq<char>) -> Result<TokenizerView, TokenizerError> {
    spec_fixed_factory(text, gpt2_specials(), legacy_pattern())
}

pub open spec fn spec_p50k_base(text: Seq<char>) -> Result<TokenizerView, TokenizerError> {
    spec_fixed_factory(text, gpt2_specials(), legacy_pattern())
}

pub open spec fn spec_p50k_edit(text: Seq<char>) -> Result<TokenizerView, TokenizerError> {
    spec_fixed_factory(text, p50k_edit_specials(), legacy_pattern())
}

pub open spec fn spec_cl100k_base(text: Seq<char>) -> Result<TokenizerView, TokenizerError> {
    spec_fixed_factory(text, cl100k_specials(), cl100k_pattern())
}

/// What a sequential-scheme factory yields. The identifier space must fit
/// the machine word; past that, a collision can only mean the resource
/// carried a rank at or above its own line count.
pub open spec fn spec_whisper(text: Seq<char>, empty_sentinel: bool) -> Result<
    TokenizerView,
    TokenizerError,
> {
    match spec_load(text, empty_sentinel) {
        None => Err(TokenizerError::ResourceParse),
        Some(v) => if v.len() + 1608 > usize::MAX {
            Err(TokenizerError::AllocationCollision)
        } else if spec_collides(v, whisper_specials(v.len())) {
            Err(TokenizerError::AllocationCollision)
        } else {
            Ok(
                TokenizerView {
                    vocab: v,
                    specials: whisper_specials(v.len()),
                    pattern: legacy_pattern(),
                },
            )
        },
    }
}

/// The mathematical content of a factory's result.
pub open spec fn factory_view(r: Result<Tokenizer, TokenizerError>) -> Result<
    TokenizerView,
    TokenizerError,
> {
    match r {
        Ok(t) => Ok(t@),
        Err(e) => Err(e),
    }
}

/// Builds the general-purpose family's tokenizer configuration from its
/// rank-table resource: end-of-text under identifier 50256 as the one
/// special token, with the older pre-split pattern.
pub fn r50k_base(resource: &str) -> (r: Result<Tokenizer, TokenizerError>)
    ensures
        factory_view(r) == spec_r50k_base(resource@),
        r matches Ok(t) ==> t@.wf(),
{
    let vocab = match load_vocabulary(resource, false) {
        Ok(v) => v,
        Err(e) => {
            return Err(e);
        },
    };
    assemble(vocab, gpt2_special_tokens(), legacy_pattern_exec())
}

/// Builds the code-model family's tokenizer configuration: the same fixed
/// scheme and pattern as the general-purpose family, over its own resource.
pub fn p50k_base(resource: &str) -> (r: Result<Tokenizer, TokenizerError>)
    ensures
        factory_view(r) == spec_p50k_base(resource@),
        r matches Ok(t) ==> t@.wf(),
{
    let vocab = match load_vocabulary(resource, false) {
        Ok(v) => v,
        Err(e) => {
            return Err(e);
        },
    };
    assemble(vocab, gpt2_special_tokens(), legacy_pattern_exec())
}

/// Builds the code-edit family's tokenizer configuration: end-of-text and
/// the three fill-in-middle markers under 50256, 50281, 50282 and 50283.
pub fn p50k_edit(resource: &str) -> (r: Result<Tokenizer, TokenizerError>)
    ensures
        factory_view(r) == spec_p50k_edit(resource@),
        r matches Ok(t) ==> t@.wf(),
{
    let vocab = match load_vocabulary(resource, false) {
        Ok(v) => v,
        Err(e) => {
            return Err(e);
        },
    };
    assemble(vocab, p50k_edit_special_tokens(), legacy_pattern_exec())
}

/// Builds the chat-model family's tokenizer configuration: five fixed
/// special tokens and the newer pre-split pattern.
pub fn cl100k_base(resource: &str) -> (r: Result<Tokenizer, TokenizerError>)
    ensures
        factory_view(r) == spec_cl100k_base(resource@),
        r matches Ok(t) ==> t@.wf(),
{
    let vocab = match load_vocabulary(resource, false) {
        Ok(v) => v,
        Err(e) => {
            return Err(e);
        },
    };
    assemble(vocab, cl100k_special_tokens(), cl100k_pattern_exec())
}

fn whisper_factory(resource: &str, empty_sentinel: bool) -> (r: Result<Tokenizer, TokenizerError>)
    ensures
        factory_view(r) == spec_whisper(resource@, empty_sentinel),
        r matches Ok(t) ==> t@.wf(),
{
    let vocab = match load_vocabulary(resource, empty_sentinel) {
        Ok(v) => v,
        Err(e) => {
            return Err(e);
        },
    };
    let n = vocab.len();
    if n > usize::MAX - 1608 {
        return Err(TokenizerError::AllocationCollision);
    }
    let special_tokens = get_whisper_special_tokens(&vocab);
    assemble(vocab, special_tokens, legacy_pattern_exec())
}

/// Builds the speech-transcription family's tokenizer configuration over
/// the general-purpose rank table: 1608 special tokens whose identifiers
/// count up from the vocabulary size.
pub fn whisper_gpt2(resource: &str) -> (r: Result<Tokenizer, TokenizerError>)
    ensures
        factory_view(r) == spec_whisper(resource@, false),
        r matches Ok(t) ==> t@.wf(),
{
    whisper_factory(resource, false)
}

/// Builds the speech-transcription family's tokenizer configuration over
/// the multilingual rank table, whose resource writes a bare `=` for the
/// empty token.
pub fn whisper_multilingual(resource: &str) -> (r: Result<Tokenizer, TokenizerError>)
    ensures
        factory_view(r) == spec_whisper(resource@, true),
        r matches Ok(t) ==> t@.wf(),
{
    whisper_factory(resource, true)
}

/// Law: for every model family, the total token count — vocabulary size
/// plus special-token count — is the vocabulary size plus the family's
/// fixed number of special tokens: 1 for the general-purpose and code
/// families, 4 for code-edit, 5 for the chat family, 1608 for speech
/// transcription.
pub proof fn lemma_total_token_count(text: Seq<char>, empty_sentinel: bool)
    ensures
        spec_r50k_base(text) matches Ok(t) ==> t.total_tokens() == t.vocab.len() + 1,
        spec_p50k_base(text) matches Ok(t) ==> t.total_tokens() == t.vocab.len() + 1,
        spec_p50k_edit(text) matches Ok(t) ==> t.total_tokens() == t.vocab.len() + 4,
        spec_cl100k_base(text) matches Ok(t) ==> t.total_tokens() == t.vocab.len() + 5,
        spec_whisper(text, empty_sentinel) matches Ok(t) ==> t.total_tokens() == t.vocab.len()
            + 1608,
{
}

/// Law: construction is deterministic and idempotent — what a factory
/// yields is a function of its resource alone, so two results of the same
/// factory on the same resource are identical, vocabulary contents,
/// special-token identifier map and pattern alike.
pub proof fn lemma_factory_idempotent(
    a: Result<TokenizerView, TokenizerError>,
    b: Result<TokenizerView, TokenizerError>,
    text: Seq<char>,
)
    ensures
        a == spec_r50k_base(text) && b == spec_r50k_base(text) ==> a == b,
        a == spec_p50k_base(text) && b == spec_p50k_base(text) ==> a == b,
        a == spec_p50k_edit(text) && b == spec_p50k_edit(text) ==> a == b,
        a == spec_cl100k_base(text) && b == spec_cl100k_base(text) ==> a == b,
        a == spec_whisper(text, false) && b == spec_whisper(text, false) ==> a == b,
        a == spec_whisper(text, true) && b == spec_whisper(text, true) ==> a == b,
{
}

} // verus!
