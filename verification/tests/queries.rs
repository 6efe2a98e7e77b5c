use gemma_tokenizer::Session;
use gemma_tokenizer::TokenizerError;

fn word_level_definition() -> String {
    let mut json = String::new();
    json.push_str("{\"version\":\"1.0\",\"model\":{\"type\":\"WordLevel\",");
    json.push_str("\"vocab\":{\"[UNK]\":0,\"hello\":1,\"world\":2},");
    json.push_str("\"unk_token\":\"[UNK]\"},");
    json.push_str("\"pre_tokenizer\":{\"type\":\"Whitespace\"}}");
    json
}

fn other_word_level_definition() -> String {
    let mut json = String::new();
    json.push_str("{\"version\":\"1.0\",\"model\":{\"type\":\"WordLevel\",");
    json.push_str("\"vocab\":{\"[UNK]\":0,\"goodbye\":1},");
    json.push_str("\"unk_token\":\"[UNK]\"},");
    json.push_str("\"pre_tokenizer\":{\"type\":\"Whitespace\"}}");
    json
}

#[test]
fn encode_before_init_is_not_initialized() {
    let session = Session::new();
    let err = session.encode("hello").unwrap_err();
    assert!(matches!(err, TokenizerError::NotInitialized));
    assert_eq!(err.message(), "Tokenizer is not initialized. Call init(path) first.");
}

#[test]
fn count_internal_before_init_propagates_the_error() {
    let session = Session::new();
    let err = session.count_internal("hello").unwrap_err();
    assert!(matches!(err, TokenizerError::NotInitialized));
}

#[test]
fn boundary_count_before_init_returns_zero() {
    let session = Session::new();
    assert_eq!(session.count("hello world"), 0);
}

#[test]
fn init_from_definition_then_encode_and_count() {
    let mut session = Session::new();
    session.init_from_json(&word_level_definition()).unwrap();
    let ids = session.encode("hello world").unwrap();
    assert_eq!(ids, vec![1, 2]);
    assert_eq!(session.count_internal("hello world").unwrap(), 2);
    assert_eq!(session.count("hello world"), 2);
    assert!(session.count("hello world") > 0);
}

#[test]
fn count_equals_length_of_encoding() {
    let mut session = Session::new();
    session.init_from_json(&word_level_definition()).unwrap();
    let texts = ["hello world", "hello hello hello", "", "zzz world"];
    for text in texts {
        let ids = session.encode(text).unwrap();
        assert_eq!(session.count_internal(text).unwrap(), ids.len());
    }
}

#[test]
fn encode_twice_yields_identical_ids() {
    let mut session = Session::new();
    session.init_from_json(&word_level_definition()).unwrap();
    let first = session.encode("hello world hello").unwrap();
    let second = session.encode("hello world hello").unwrap();
    assert_eq!(first, second);
}

#[test]
fn unknown_words_map_to_the_unknown_token() {
    let mut session = Session::new();
    session.init_from_json(&word_level_definition()).unwrap();
    let ids = session.encode("hello zzz").unwrap();
    assert_eq!(ids, vec![1, 0]);
}

#[test]
fn second_init_is_rejected_and_results_are_unchanged() {
    let mut session = Session::new();
    session.init_from_json(&word_level_definition()).unwrap();
    let before = session.encode("hello world").unwrap();
    let err = session.init_from_json(&other_word_level_definition()).unwrap_err();
    assert!(matches!(err, TokenizerError::AlreadyInitialized));
    assert_eq!(err.message(), "Tokenizer already initialized");
    let after = session.encode("hello world").unwrap();
    assert_eq!(before, after);
    assert_eq!(session.count("hello world"), 2);
}

#[test]
fn init_from_path_after_success_fails_without_change() {
    let mut session = Session::new();
    session.init_from_json(&word_level_definition()).unwrap();
    let err = session.init("./not-exists").unwrap_err();
    assert!(matches!(err, TokenizerError::NotFound { .. }));
    assert_eq!(session.encode("hello world").unwrap(), vec![1, 2]);
}

#[test]
fn invalid_definition_fails_and_leaves_session_retryable() {
    let mut session = Session::new();
    let err = session.init_from_json("this is not a definition").unwrap_err();
    assert!(matches!(err, TokenizerError::LoadFailed { .. }));
    assert_eq!(session.count("hello"), 0);
    session.init_from_json(&word_level_definition()).unwrap();
    assert_eq!(session.count("hello"), 1);
}

#[test]
fn failed_path_init_leaves_session_uninitialized() {
    let mut session = Session::new();
    assert!(session.init("/no/such/path").is_err());
    let err = session.encode("hello").unwrap_err();
    assert!(matches!(err, TokenizerError::NotInitialized));
}
