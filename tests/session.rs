use lc::completion::{extract_reply, CompletionError};
use lc::message::Message;
use lc::session::{
    build_request, compose_input, compose_query, compose_user_turn, history_after_reply,
};

fn contents(ms: &[Message]) -> Vec<String> {
    ms.iter().map(|m| m.content.clone()).collect()
}

fn roles(ms: &[Message]) -> Vec<String> {
    ms.iter().map(|m| m.role.clone()).collect()
}

fn stored_pairs(n_pairs: usize) -> Vec<Message> {
    let mut v = Vec::new();
    for i in 0..n_pairs {
        v.push(Message::new("user", &format!("q{}", i)));
        v.push(Message::new("assistant", &format!("a{}", i)));
    }
    v
}

#[test]
fn query_prefers_explicit_query() {
    let q = compose_query(&Some("  list files ".to_string()), &vec!["x".to_string()], false);
    assert_eq!(q, Some("Query: list files".to_string()));
}

#[test]
fn query_joins_words_with_spaces() {
    let words = vec!["how".to_string(), "do".to_string(), "I".to_string()];
    assert_eq!(compose_query(&None, &words, false), Some("Query: how do I".to_string()));
}

#[test]
fn query_empty_in_memory_mode() {
    assert_eq!(compose_query(&None, &vec![], true), Some(String::new()));
}

#[test]
fn query_missing_without_memory_means_usage() {
    assert_eq!(compose_query(&None, &vec![], false), None);
}

#[test]
fn input_is_trimmed_and_labelled() {
    assert_eq!(compose_input(&Some("\n  a.txt\nb.txt \n".to_string())), "Input: a.txt\nb.txt");
    assert_eq!(compose_input(&None), "");
}

#[test]
fn blank_pipe_is_no_input() {
    assert_eq!(compose_input(&Some(String::new())), "");
    assert_eq!(compose_input(&Some(" \n\t\n".to_string())), "");
    let input = compose_input(&Some("\n".to_string()));
    assert_eq!(compose_user_turn("", &input), None);
    assert_eq!(
        compose_user_turn("Query: x", &input),
        Some("Query: x".to_string())
    );
}

#[test]
fn user_turn_joins_query_and_input() {
    assert_eq!(
        compose_user_turn("Query: why", "Input: log"),
        Some("Query: why\n\nInput: log".to_string())
    );
    assert_eq!(compose_user_turn("", "Input: log"), Some("Input: log".to_string()));
    assert_eq!(compose_user_turn("Query: x", ""), Some("Query: x".to_string()));
    assert_eq!(compose_user_turn("", ""), None);
    assert_eq!(compose_user_turn("  ", "\n"), None);
}

#[test]
fn single_query_without_memory() {
    let query = compose_query(&Some("list files".to_string()), &vec![], false).unwrap();
    let input = compose_input(&None);
    let request = build_request("be helpful", None, &query, &input);
    assert_eq!(roles(&request), vec!["system", "user"]);
    assert_eq!(contents(&request), vec!["be helpful", "Query: list files"]);

    let body = r#"{"choices":[{"message":{"role":"assistant","content":"Use ls."}}]}"#;
    let reply = extract_reply(body);
    assert_eq!(reply.as_ref().unwrap(), "Use ls.");
    assert!(history_after_reply(false, request, &reply, 10).is_none());
}

#[test]
fn memory_only_request_has_no_user_turn() {
    let request = build_request("p", Some(stored_pairs(1)), "", "");
    assert_eq!(roles(&request), vec!["system", "user", "assistant"]);
}

#[test]
fn history_grows_below_the_bound() {
    let request = build_request("p", Some(stored_pairs(3)), "Query: next", "");
    assert_eq!(request.len(), 8);
    let reply: Result<String, CompletionError> = Ok("answer".to_string());
    let stored = history_after_reply(true, request, &reply, 10).unwrap();
    assert_eq!(stored.len(), 8);
    assert_eq!(
        contents(&stored),
        vec!["q0", "a0", "q1", "a1", "q2", "a2", "Query: next", "answer"]
    );
    assert!(stored.iter().all(|m| m.role != "system"));
}

#[test]
fn history_at_the_bound_drops_two_oldest() {
    let prior = stored_pairs(5);
    let request = build_request("p", Some(prior), "Query: next", "");
    let reply: Result<String, CompletionError> = Ok("answer".to_string());
    let stored = history_after_reply(true, request, &reply, 10).unwrap();
    assert_eq!(stored.len(), 10);
    assert_eq!(
        contents(&stored),
        vec!["q1", "a1", "q2", "a2", "q3", "a3", "q4", "a4", "Query: next", "answer"]
    );
}

#[test]
fn failed_completion_stores_nothing() {
    let request = build_request("p", Some(stored_pairs(2)), "Query: next", "");
    let reply = extract_reply(r#"{"object":"error"}"#);
    assert!(matches!(reply, Err(CompletionError::Extraction)));
    assert!(history_after_reply(true, request, &reply, 10).is_none());
}

#[test]
fn zero_bound_stores_empty_history() {
    let request = build_request("p", Some(stored_pairs(4)), "Query: next", "");
    let reply: Result<String, CompletionError> = Ok("answer".to_string());
    let stored = history_after_reply(true, request, &reply, 0).unwrap();
    assert!(stored.is_empty());
}
