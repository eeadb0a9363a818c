use tiktoken_rs::vocab::load_vocabulary;
use tiktoken_rs::TokenizerError;

#[test]
fn loads_entries_in_file_order() {
    let table = load_vocabulary("AA== 0\nAQ== 1\nAg== 2\n", false).unwrap();
    assert_eq!(
        table.entries,
        vec![(vec![0u8], 0usize), (vec![1u8], 1usize), (vec![2u8], 2usize)]
    );
}

#[test]
fn decodes_base64_token_bytes() {
    // "aGk=" encodes the bytes of "hi"; an identity loader would fail here.
    let table = load_vocabulary("aGk= 7\n", false).unwrap();
    assert_eq!(table.entries, vec![(vec![b'h', b'i'], 7usize)]);
}

#[test]
fn accepts_resource_without_final_newline() {
    let table = load_vocabulary("AA== 0\nAQ== 1", false).unwrap();
    assert_eq!(table.entries.len(), 2);
}

#[test]
fn accepts_crlf_line_endings() {
    let table = load_vocabulary("AA== 0\r\nAQ== 1\r\n", false).unwrap();
    assert_eq!(table.entries, vec![(vec![0u8], 0usize), (vec![1u8], 1usize)]);
}

#[test]
fn ignores_trailing_third_field() {
    let table = load_vocabulary("AA== 0 trailing\n", false).unwrap();
    assert_eq!(table.entries, vec![(vec![0u8], 0usize)]);
}

#[test]
fn empty_resource_gives_empty_table() {
    let table = load_vocabulary("", false).unwrap();
    assert!(table.entries.is_empty());
}

#[test]
fn missing_rank_field_is_rejected() {
    assert_eq!(
        load_vocabulary("AA==\n", false).unwrap_err(),
        TokenizerError::ResourceParse
    );
}

#[test]
fn empty_rank_field_is_rejected() {
    assert_eq!(
        load_vocabulary("AA== \n", false).unwrap_err(),
        TokenizerError::ResourceParse
    );
}

#[test]
fn non_numeric_rank_is_rejected() {
    assert_eq!(
        load_vocabulary("AA== x7\n", false).unwrap_err(),
        TokenizerError::ResourceParse
    );
    assert_eq!(
        load_vocabulary("AA== 7x\n", false).unwrap_err(),
        TokenizerError::ResourceParse
    );
}

#[test]
fn signed_rank_is_rejected() {
    assert_eq!(
        load_vocabulary("AA== +7\n", false).unwrap_err(),
        TokenizerError::ResourceParse
    );
    assert_eq!(
        load_vocabulary("AA== -7\n", false).unwrap_err(),
        TokenizerError::ResourceParse
    );
}

#[test]
fn oversized_rank_is_rejected() {
    assert_eq!(
        load_vocabulary("AA== 99999999999999999999999999\n", false).unwrap_err(),
        TokenizerError::ResourceParse
    );
}

#[test]
fn malformed_base64_is_rejected() {
    assert_eq!(
        load_vocabulary("!!!! 0\n", false).unwrap_err(),
        TokenizerError::ResourceParse
    );
}

#[test]
fn empty_line_is_rejected() {
    assert_eq!(
        load_vocabulary("AA== 0\n\nAQ== 1\n", false).unwrap_err(),
        TokenizerError::ResourceParse
    );
}

#[test]
fn bad_line_fails_whole_load_not_partially() {
    // The first line alone is fine; the bad second line must fail the load.
    assert!(load_vocabulary("AA== 0\n", false).is_ok());
    assert_eq!(
        load_vocabulary("AA== 0\nbad\n", false).unwrap_err(),
        TokenizerError::ResourceParse
    );
}

#[test]
fn sentinel_decodes_to_empty_token_when_enabled() {
    let table = load_vocabulary("= 0\nAQ== 1\n", true).unwrap();
    assert_eq!(table.entries, vec![(vec![], 0usize), (vec![1u8], 1usize)]);
}

#[test]
fn sentinel_is_rejected_when_disabled() {
    assert_eq!(
        load_vocabulary("= 0\n", false).unwrap_err(),
        TokenizerError::ResourceParse
    );
}

#[test]
fn sentinel_must_stand_alone() {
    // "a=" is not the sentinel and is not valid base64 either.
    assert_eq!(
        load_vocabulary("a= 0\n", true).unwrap_err(),
        TokenizerError::ResourceParse
    );
}

#[test]
fn rank_zero_and_large_ranks_parse() {
    let table = load_vocabulary("AA== 0\nAQ== 4294967296\n", false).unwrap();
    assert_eq!(table.entries[1].1, 4294967296usize);
}
