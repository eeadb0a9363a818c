use tiktoken_rs::cl100k_base;
use tiktoken_rs::p50k_base;
use tiktoken_rs::p50k_edit;
use tiktoken_rs::r50k_base;
use tiktoken_rs::whisper_gpt2;
use tiktoken_rs::whisper_multilingual;
use tiktoken_rs::Tokenizer;
use tiktoken_rs::TokenizerError;

const SMALL: &str = "AA== 0\nAQ== 1\nAg== 2\n";

const LEGACY_PATTERN: &str =
    "'s|'t|'re|'ve|'m|'ll|'d| ?\\p{L}+| ?\\p{N}+| ?[^\\s\\p{L}\\p{N}]+|\\s+(?!\\S)|\\s+";

const CL100K_PATTERN: &str = "(?i:'s|'t|'re|'ve|'m|'ll|'d)|[^\\r\\n\\p{L}\\p{N}]?\\p{L}+|\\p{N}{1,3}| ?[^\\s\\p{L}\\p{N}]+[\\r\\n]*|\\s*[\\r\\n]+|\\s+(?!\\S)|\\s+";

fn specials_of(t: &Tokenizer) -> Vec<(String, usize)> {
    t.special_tokens.clone()
}

#[test]
fn r50k_has_published_identifiers() {
    let t = r50k_base(SMALL).unwrap();
    assert_eq!(
        specials_of(&t),
        vec![("<|endoftext|>".to_string(), 50256usize)]
    );
    assert_eq!(t.pattern, LEGACY_PATTERN);
    assert_eq!(t.vocab.entries.len(), 3);
}

#[test]
fn p50k_base_has_published_identifiers() {
    let t = p50k_base(SMALL).unwrap();
    assert_eq!(
        specials_of(&t),
        vec![("<|endoftext|>".to_string(), 50256usize)]
    );
    assert_eq!(t.pattern, LEGACY_PATTERN);
}

#[test]
fn p50k_edit_has_published_identifiers() {
    let t = p50k_edit(SMALL).unwrap();
    assert_eq!(
        specials_of(&t),
        vec![
            ("<|endoftext|>".to_string(), 50256usize),
            ("<|fim_prefix|>".to_string(), 50281usize),
            ("<|fim_middle|>".to_string(), 50282usize),
            ("<|fim_suffix|>".to_string(), 50283usize),
        ]
    );
}

#[test]
fn cl100k_has_published_identifiers() {
    let t = cl100k_base(SMALL).unwrap();
    assert_eq!(
        specials_of(&t),
        vec![
            ("<|endoftext|>".to_string(), 100257usize),
            ("<|fim_prefix|>".to_string(), 100258usize),
            ("<|fim_middle|>".to_string(), 100259usize),
            ("<|fim_suffix|>".to_string(), 100260usize),
            ("<|endofprompt|>".to_string(), 100276usize),
        ]
    );
    assert_eq!(t.pattern, CL100K_PATTERN);
}

#[test]
fn total_token_count_adds_special_count() {
    let t = r50k_base(SMALL).unwrap();
    assert_eq!(t.vocab.entries.len() + t.special_tokens.len(), 3 + 1);
    let w = whisper_gpt2(SMALL).unwrap();
    assert_eq!(w.vocab.entries.len() + w.special_tokens.len(), 3 + 1608);
}

#[test]
fn whisper_end_of_text_equals_vocabulary_size() {
    let t = whisper_gpt2(SMALL).unwrap();
    assert_eq!(t.special_tokens[0], ("<|endoftext|>".to_string(), 3usize));
    assert_eq!(
        t.special_tokens[1],
        ("<|startoftranscript|>".to_string(), 4usize)
    );
}

#[test]
fn whisper_language_tags_follow_list_order_without_gaps() {
    let t = whisper_gpt2(SMALL).unwrap();
    // The tags start right after start-of-transcript, first "en", then "zh".
    assert_eq!(t.special_tokens[2], ("<|en|>".to_string(), 5usize));
    assert_eq!(t.special_tokens[3], ("<|zh|>".to_string(), 6usize));
    assert_eq!(t.special_tokens[4], ("<|de|>".to_string(), 7usize));
    // 99 tags; the last is "su".
    assert_eq!(t.special_tokens[100], ("<|su|>".to_string(), 103usize));
    for i in 3..=100 {
        assert_eq!(t.special_tokens[i].1, t.special_tokens[i - 1].1 + 1);
    }
}

#[test]
fn whisper_named_controls_follow_the_tags() {
    let t = whisper_gpt2(SMALL).unwrap();
    let names: Vec<&str> = t.special_tokens[101..107]
        .iter()
        .map(|p| p.0.as_str())
        .collect();
    assert_eq!(
        names,
        vec![
            "<|translate|>",
            "<|transcribe|>",
            "<|startoflm|>",
            "<|startofprev|>",
            "<|nospeech|>",
            "<|notimestamps|>",
        ]
    );
}

#[test]
fn whisper_timestamp_names_have_two_decimals() {
    let t = whisper_gpt2(SMALL).unwrap();
    assert_eq!(t.special_tokens.len(), 1608);
    assert_eq!(t.special_tokens[107].0, "<|0.00|>");
    assert_eq!(t.special_tokens[108].0, "<|0.02|>");
    assert_eq!(t.special_tokens[107 + 50].0, "<|1.00|>");
    assert_eq!(t.special_tokens[107 + 1499].0, "<|29.98|>");
    assert_eq!(t.special_tokens[1607].0, "<|30.00|>");
    assert_eq!(t.special_tokens[1607].1, 3 + 1607);
}

#[test]
fn whisper_multilingual_accepts_the_sentinel() {
    let t = whisper_multilingual("= 0\nAQ== 1\n").unwrap();
    assert_eq!(t.vocab.entries[0], (vec![], 0usize));
    assert_eq!(t.special_tokens[0], ("<|endoftext|>".to_string(), 2usize));
}

#[test]
fn whisper_gpt2_rejects_the_sentinel() {
    assert_eq!(
        whisper_gpt2("= 0\n").unwrap_err(),
        TokenizerError::ResourceParse
    );
}

#[test]
fn factories_are_idempotent() {
    let a = r50k_base(SMALL).unwrap();
    let b = r50k_base(SMALL).unwrap();
    assert_eq!(a.vocab.entries, b.vocab.entries);
    assert_eq!(a.special_tokens, b.special_tokens);
    assert_eq!(a.pattern, b.pattern);
    let c = whisper_multilingual(SMALL).unwrap();
    let d = whisper_multilingual(SMALL).unwrap();
    assert_eq!(c.vocab.entries, d.vocab.entries);
    assert_eq!(c.special_tokens, d.special_tokens);
    assert_eq!(c.pattern, d.pattern);
}

#[test]
fn malformed_resource_fails_construction() {
    assert_eq!(
        r50k_base("AA==\n").unwrap_err(),
        TokenizerError::ResourceParse
    );
    assert_eq!(
        cl100k_base("AA== notanumber\n").unwrap_err(),
        TokenizerError::ResourceParse
    );
}

#[test]
fn fixed_identifier_collision_is_reported() {
    // A rank equal to the published end-of-text identifier must be refused.
    assert_eq!(
        r50k_base("AA== 50256\n").unwrap_err(),
        TokenizerError::AllocationCollision
    );
    assert_eq!(
        cl100k_base("AA== 100257\n").unwrap_err(),
        TokenizerError::AllocationCollision
    );
}

#[test]
fn fixed_identifiers_clear_of_small_ranks() {
    // Ranks below the published identifiers do not collide.
    assert!(r50k_base("AA== 50255\n").is_ok());
}

#[test]
fn whisper_collision_with_out_of_range_rank_is_reported() {
    // One line, but its rank sits inside the sequential identifier range.
    assert_eq!(
        whisper_gpt2("AA== 7\n").unwrap_err(),
        TokenizerError::AllocationCollision
    );
}
