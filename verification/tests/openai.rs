use brocode::config::Temperature;
use brocode::openai::{
    generate_commit_message, read_completion, status_is_success, CompletionError,
    CompletionResponse,
};

fn reply(status: u16, body: &str, choices: Option<Vec<&str>>) -> CompletionResponse {
    CompletionResponse {
        status,
        body: body.to_string(),
        choices: choices.map(|c| c.into_iter().map(|s| s.to_string()).collect()),
    }
}

#[test]
fn request_has_system_then_user_message() {
    let t = Temperature { bits: 0.5f32.to_bits() };
    let call = generate_commit_message("sk-test", "gpt-4", t, 120, "Be brief.", "+added line");
    assert_eq!(call.url, "https://api.openai.com/v1/chat/completions");
    assert_eq!(call.authorization, "Bearer sk-test");
    assert_eq!(call.body.model, "gpt-4");
    assert_eq!(call.body.temperature, t);
    assert_eq!(call.body.max_tokens, 120);
    assert_eq!(call.body.messages.len(), 2);
    assert_eq!(call.body.messages[0].role, "system");
    assert_eq!(call.body.messages[0].content, "Be brief.");
    assert_eq!(call.body.messages[1].role, "user");
}

#[test]
fn user_message_holds_the_diff_in_a_fenced_block() {
    let diff = "diff --git a/x b/x\n-old\n+new\n";
    let t = Temperature { bits: 0 };
    let call = generate_commit_message("k", "m", t, 1, "s", diff);
    let expected = format!(
        "Here are the changes that need to be committed:\n```diff\n{}\n```\n\nPlease write a concise and descriptive commit message explaining what these changes do.",
        diff
    );
    assert_eq!(call.body.messages[1].content, expected);
    let fenced = format!("```diff\n{}\n```", diff);
    assert!(call.body.messages[1].content.contains(&fenced));
}

#[test]
fn request_for_any_credential_has_two_messages() {
    let t = Temperature { bits: 0 };
    for key in ["", "a", "sk-\u{e9}"] {
        for diff in ["x", "```\nnested\n```", "\u{1f600}"] {
            let call = generate_commit_message(key, "m", t, 1, "s", diff);
            assert_eq!(call.body.messages.len(), 2);
            assert_eq!(call.authorization, format!("Bearer {}", key));
            assert!(call.body.messages[1].content.contains(diff));
        }
    }
}

#[test]
fn success_is_the_2xx_range() {
    assert!(!status_is_success(0));
    assert!(!status_is_success(199));
    assert!(status_is_success(200));
    assert!(status_is_success(204));
    assert!(status_is_success(299));
    assert!(!status_is_success(300));
    assert!(!status_is_success(401));
    assert!(!status_is_success(500));
    assert!(!status_is_success(u16::MAX));
}

#[test]
fn refused_request_carries_the_body() {
    let r = read_completion(&reply(401, "{\"error\":\"bad key\"}", None));
    assert_eq!(r, Err(CompletionError::Provider("{\"error\":\"bad key\"}".to_string())));
    let r = read_completion(&reply(500, "", Some(vec!["ignored"])));
    assert_eq!(r, Err(CompletionError::Provider("".to_string())));
}

#[test]
fn empty_candidate_list_is_no_completion() {
    assert_eq!(read_completion(&reply(200, "{}", Some(vec![]))), Err(CompletionError::NoCompletion));
}

#[test]
fn unparsed_body_is_malformed() {
    assert_eq!(read_completion(&reply(200, "<html>", None)), Err(CompletionError::Malformed));
}

#[test]
fn first_candidate_is_returned_verbatim() {
    let r = read_completion(&reply(200, "", Some(vec!["  Add x\n\nBody \n", "second"])));
    assert_eq!(r, Ok("  Add x\n\nBody \n".to_string()));
    let r = read_completion(&reply(201, "", Some(vec![""])));
    assert_eq!(r, Ok("".to_string()));
}
