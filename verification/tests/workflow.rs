use brocode::commands::commit::{
    resolve_credential, split, Action, CommitCommand, Event, Outcome, State, WorkflowError,
};
use brocode::commands::Command;
use brocode::config::{Config, OpenAIConfig, Temperature};
use brocode::git::GitOutput;
use brocode::openai::{generate_commit_message, CompletionResponse};

fn config(api_key: Option<&str>) -> Config {
    Config {
        openai: OpenAIConfig {
            api_key: api_key.map(|k| k.to_string()),
            model: "gpt-4".to_string(),
            temperature: Temperature { bits: 0.2f32.to_bits() },
            max_tokens: 50,
            system_prompt: "Write commit messages.".to_string(),
        },
    }
}

fn exited(success: bool, stdout: &str) -> Event {
    Event::Exited(GitOutput { success, stdout: stdout.as_bytes().to_vec() })
}

fn reply(status: u16, body: &str, choices: Option<Vec<&str>>) -> Event {
    Event::Reply(CompletionResponse {
        status,
        body: body.to_string(),
        choices: choices.map(|c| c.into_iter().map(|s| s.to_string()).collect()),
    })
}

fn run(cmd: &CommitCommand, manual: Option<&str>, events: Vec<Event>) -> Vec<Action> {
    let (mut state, first) = cmd.execute(manual.map(|m| m.to_string()));
    let mut actions = vec![first];
    for event in events {
        let (after, action) = cmd.resume(state, event);
        state = after;
        actions.push(action);
    }
    actions
}

fn calls_completion(actions: &[Action]) -> bool {
    actions.iter().any(|a| matches!(a, Action::RequestCompletion(_)))
}

fn calls_commit(actions: &[Action]) -> bool {
    actions.iter().any(|a| matches!(a, Action::Commit { .. }))
}

fn failed(error: WorkflowError) -> Action {
    Action::Finish(Outcome::Failed(error))
}

#[test]
fn split_summary_and_description() {
    assert_eq!(
        split("Add feature\n\nDetails here"),
        ("Add feature".to_string(), Some("Details here".to_string()))
    );
}

#[test]
fn split_single_line_has_no_description() {
    assert_eq!(split("Add feature"), ("Add feature".to_string(), None));
}

#[test]
fn split_blank_remainder_has_no_description() {
    assert_eq!(split("Add feature\n"), ("Add feature".to_string(), None));
    assert_eq!(split("Add feature\n\n  \n\t"), ("Add feature".to_string(), None));
}

#[test]
fn split_keeps_inner_lines_of_the_description() {
    assert_eq!(
        split("Fix bug\n\n- one\n\n- two\n\n"),
        ("Fix bug".to_string(), Some("- one\n\n- two".to_string()))
    );
    assert_eq!(split(" padded \nbody"), (" padded ".to_string(), Some("body".to_string())));
    assert_eq!(split("\nbody"), ("".to_string(), Some("body".to_string())));
    assert_eq!(split(""), ("".to_string(), None));
}

#[test]
fn credential_of_the_settings_wins() {
    assert_eq!(resolve_credential(&Some("cfg".to_string()), Some("env".to_string())), Ok("cfg".to_string()));
    assert_eq!(resolve_credential(&Some("cfg".to_string()), None), Ok("cfg".to_string()));
    assert_eq!(resolve_credential(&Some("".to_string()), Some("env".to_string())), Ok("".to_string()));
}

#[test]
fn credential_of_the_environment_is_the_fallback() {
    assert_eq!(resolve_credential(&None, Some("env".to_string())), Ok("env".to_string()));
}

#[test]
fn no_credential_anywhere_is_an_error() {
    assert_eq!(resolve_credential(&None, None), Err(WorkflowError::MissingCredential));
}

#[test]
fn exit_codes() {
    assert_eq!(Outcome::Committed.exit_code(), 0);
    assert_eq!(Outcome::Cancelled.exit_code(), 0);
    assert_eq!(Outcome::Failed(WorkflowError::NoChanges).exit_code(), 1);
    assert_eq!(Outcome::Failed(WorkflowError::ProviderError("x".to_string())).exit_code(), 1);
}

#[test]
fn error_messages() {
    assert_eq!(WorkflowError::NotARepository.message(), "Not in a git repository");
    assert_eq!(WorkflowError::NoChanges.message(), "No changes to commit. Make some changes first!");
    assert_eq!(
        WorkflowError::ProviderError("{\"error\":1}".to_string()).message(),
        "OpenAI API error: {\"error\":1}"
    );
    assert_eq!(WorkflowError::NoCompletion.message(), "No completion choices returned from OpenAI");
    assert_eq!(
        WorkflowError::CommitFailed.message(),
        "Failed to commit changes. Git exited with non-zero status."
    );
    assert_eq!(
        WorkflowError::MissingCredential.message(),
        "OpenAI API key not found in config or environment. Please set OPENAI_API_KEY environment variable or add it to the config file."
    );
    assert_eq!(WorkflowError::GitUnavailable.message(), "Failed to execute git command. Is git installed?");
    assert_eq!(WorkflowError::DiffFailed.message(), "Failed to get git diff");
    assert_eq!(WorkflowError::InvalidGitOutput.message(), "Failed to parse git output");
    assert_eq!(WorkflowError::RequestFailed.message(), "Failed to send request to OpenAI API");
    assert_eq!(WorkflowError::MalformedResponse.message(), "Failed to parse OpenAI API response");
    assert!(!WorkflowError::PromptFailed.message().is_empty());
    assert!(!WorkflowError::EmptyMessage.message().is_empty());
    assert!(!WorkflowError::UnexpectedEvent.message().is_empty());
}

#[test]
fn generated_message_is_committed_after_confirmation() {
    let cmd = CommitCommand::new(config(Some("sk-cfg")));
    let actions = run(
        &cmd,
        None,
        vec![
            exited(true, "/repo\n"),
            exited(true, "+line\n"),
            reply(200, "", Some(vec!["Add line\n\nAdds a line.\n"])),
            Event::Answer(false),
            Event::Answer(true),
            exited(true, ""),
        ],
    );
    let c = config(Some("sk-cfg"));
    let call = generate_commit_message(
        "sk-cfg",
        &c.openai.model,
        c.openai.temperature,
        c.openai.max_tokens,
        &c.openai.system_prompt,
        "+line\n",
    );
    assert_eq!(
        actions,
        vec![
            Action::LocateRepository,
            Action::FetchDiff { repository: "/repo".to_string() },
            Action::RequestCompletion(call),
            Action::OfferEdit { draft: "Add line\n\nAdds a line.\n".to_string() },
            Action::ConfirmCommit { message: "Add line\n\nAdds a line.\n".to_string() },
            Action::Commit {
                summary: "Add line".to_string(),
                description: Some("Adds a line.".to_string())
            },
            Action::Finish(Outcome::Committed),
        ]
    );
}

#[test]
fn credential_is_looked_up_when_the_settings_hold_none() {
    let cmd = CommitCommand::new(config(None));
    let actions = run(
        &cmd,
        None,
        vec![exited(true, "/repo\n"), exited(true, "+x"), Event::Credential(Some("sk-env".to_string()))],
    );
    assert_eq!(actions[2], Action::LookUpCredential { variable: "OPENAI_API_KEY".to_string() });
    match &actions[3] {
        Action::RequestCompletion(call) => {
            assert_eq!(call.authorization, "Bearer sk-env");
            assert_eq!(call.body.messages.len(), 2);
            assert!(call.body.messages[1].content.contains("```diff\n+x\n```"));
        }
        other => panic!("unexpected action {:?}", other),
    }
}

#[test]
fn missing_credential_aborts() {
    let cmd = CommitCommand::new(config(None));
    for last in [Event::Credential(None), Event::Failed] {
        let actions = run(&cmd, None, vec![exited(true, "/repo\n"), exited(true, "+x"), last]);
        assert_eq!(actions[3], failed(WorkflowError::MissingCredential));
        assert!(!calls_completion(&actions));
        assert!(!calls_commit(&actions));
    }
}

#[test]
fn empty_diff_is_no_changes() {
    for manual in [None, Some("msg")] {
        for key in [None, Some("sk")] {
            let cmd = CommitCommand::new(config(key));
            let actions = run(
                &cmd,
                manual,
                vec![exited(true, "/repo\n"), exited(true, ""), Event::Answer(true), exited(true, "")],
            );
            assert_eq!(actions[2], failed(WorkflowError::NoChanges));
            assert!(!calls_completion(&actions));
            assert!(!calls_commit(&actions));
        }
    }
}

#[test]
fn manual_message_skips_generation() {
    for key in [None, Some("sk")] {
        let cmd = CommitCommand::new(config(key));
        let actions = run(
            &cmd,
            Some("Manual summary\n\nBody"),
            vec![exited(true, "/repo\n"), exited(true, "+x"), Event::Answer(true), exited(true, "")],
        );
        assert_eq!(
            actions,
            vec![
                Action::LocateRepository,
                Action::FetchDiff { repository: "/repo".to_string() },
                Action::ConfirmCommit { message: "Manual summary\n\nBody".to_string() },
                Action::Commit {
                    summary: "Manual summary".to_string(),
                    description: Some("Body".to_string())
                },
                Action::Finish(Outcome::Committed),
            ]
        );
    }
}

#[test]
fn declined_confirmation_cancels_with_success() {
    let cmd = CommitCommand::new(config(Some("sk")));
    let actions = run(
        &cmd,
        Some("msg"),
        vec![exited(true, "/repo\n"), exited(true, "+x"), Event::Answer(false), exited(true, "")],
    );
    assert_eq!(actions[3], Action::Finish(Outcome::Cancelled));
    assert!(!calls_commit(&actions));
    match &actions[3] {
        Action::Finish(outcome) => assert_eq!(outcome.exit_code(), 0),
        other => panic!("unexpected action {:?}", other),
    }
}

#[test]
fn http_401_is_a_provider_error_and_nothing_is_committed() {
    let cmd = CommitCommand::new(config(Some("sk")));
    let actions = run(
        &cmd,
        None,
        vec![
            exited(true, "/repo\n"),
            exited(true, "+x"),
            reply(401, "Incorrect API key provided", None),
            Event::Answer(true),
            exited(true, ""),
        ],
    );
    assert_eq!(
        actions[3],
        failed(WorkflowError::ProviderError("Incorrect API key provided".to_string()))
    );
    assert!(!calls_commit(&actions));
}

#[test]
fn reply_without_candidates_is_no_completion() {
    let cmd = CommitCommand::new(config(Some("sk")));
    let actions = run(
        &cmd,
        None,
        vec![exited(true, "/repo\n"), exited(true, "+x"), reply(200, "{\"choices\":[]}", Some(vec![]))],
    );
    assert_eq!(actions[3], failed(WorkflowError::NoCompletion));
}

#[test]
fn unparsed_reply_and_lost_request_abort() {
    let cmd = CommitCommand::new(config(Some("sk")));
    let head = || vec![exited(true, "/repo\n"), exited(true, "+x")];
    let mut events = head();
    events.push(reply(200, "oops", None));
    assert_eq!(run(&cmd, None, events)[3], failed(WorkflowError::MalformedResponse));
    let mut events = head();
    events.push(Event::Failed);
    assert_eq!(run(&cmd, None, events)[3], failed(WorkflowError::RequestFailed));
}

#[test]
fn edited_text_replaces_the_draft() {
    let cmd = CommitCommand::new(config(Some("sk")));
    let actions = run(
        &cmd,
        None,
        vec![
            exited(true, "/repo\n"),
            exited(true, "+x"),
            reply(200, "", Some(vec!["Draft"])),
            Event::Answer(true),
            Event::Edited(Some("Edited\n\nBy hand".to_string())),
            Event::Answer(true),
        ],
    );
    assert_eq!(actions[4], Action::EditMessage { draft: "Draft".to_string() });
    assert_eq!(actions[5], Action::ConfirmCommit { message: "Edited\n\nBy hand".to_string() });
    assert_eq!(
        actions[6],
        Action::Commit { summary: "Edited".to_string(), description: Some("By hand".to_string()) }
    );
}

#[test]
fn unchanged_edit_keeps_the_draft() {
    let cmd = CommitCommand::new(config(Some("sk")));
    let actions = run(
        &cmd,
        None,
        vec![
            exited(true, "/repo\n"),
            exited(true, "+x"),
            reply(200, "", Some(vec!["Draft"])),
            Event::Answer(true),
            Event::Edited(None),
            Event::Answer(true),
        ],
    );
    assert_eq!(actions[5], Action::ConfirmCommit { message: "Draft".to_string() });
    assert_eq!(actions[6], Action::Commit { summary: "Draft".to_string(), description: None });
}

#[test]
fn failed_commit_is_reported() {
    let cmd = CommitCommand::new(config(None));
    let actions = run(
        &cmd,
        Some("msg"),
        vec![exited(true, "/repo\n"), exited(true, "+x"), Event::Answer(true), exited(false, "")],
    );
    assert_eq!(actions[4], failed(WorkflowError::CommitFailed));
}

#[test]
fn outside_a_repository_the_run_aborts_at_once() {
    let cmd = CommitCommand::new(config(Some("sk")));
    let actions = run(&cmd, None, vec![exited(false, "")]);
    assert_eq!(actions, vec![Action::LocateRepository, failed(WorkflowError::NotARepository)]);
}

#[test]
fn git_failures_abort() {
    let cmd = CommitCommand::new(config(Some("sk")));
    assert_eq!(run(&cmd, None, vec![Event::Failed])[1], failed(WorkflowError::GitUnavailable));
    assert_eq!(
        run(&cmd, None, vec![exited(true, "/r\n"), Event::Failed])[2],
        failed(WorkflowError::GitUnavailable)
    );
    assert_eq!(
        run(&cmd, None, vec![exited(true, "/r\n"), exited(false, "")])[2],
        failed(WorkflowError::DiffFailed)
    );
    let bad = Event::Exited(GitOutput { success: true, stdout: vec![0xff, 0xfe] });
    assert_eq!(run(&cmd, None, vec![bad.clone()])[1], failed(WorkflowError::InvalidGitOutput));
    assert_eq!(
        run(&cmd, None, vec![exited(true, "/r\n"), bad])[2],
        failed(WorkflowError::InvalidGitOutput)
    );
    assert_eq!(
        run(&cmd, Some("m"), vec![exited(true, "/r\n"), exited(true, "+x"), Event::Answer(true), Event::Failed])[4],
        failed(WorkflowError::GitUnavailable)
    );
}

#[test]
fn terminal_failures_abort() {
    let cmd = CommitCommand::new(config(Some("sk")));
    let head = || vec![exited(true, "/r\n"), exited(true, "+x"), reply(200, "", Some(vec!["D"]))];
    let mut events = head();
    events.push(Event::Failed);
    assert_eq!(run(&cmd, None, events)[4], failed(WorkflowError::PromptFailed));
    let mut events = head();
    events.extend([Event::Answer(true), Event::Failed]);
    assert_eq!(run(&cmd, None, events)[5], failed(WorkflowError::PromptFailed));
    let mut events = head();
    events.extend([Event::Answer(false), Event::Failed]);
    assert_eq!(run(&cmd, None, events)[5], failed(WorkflowError::PromptFailed));
}

#[test]
fn message_without_summary_is_not_committed() {
    let cmd = CommitCommand::new(config(Some("sk")));
    for manual in ["", "\nbody only"] {
        let actions = run(
            &cmd,
            Some(manual),
            vec![exited(true, "/r\n"), exited(true, "+x"), Event::Answer(true), exited(true, "")],
        );
        assert_eq!(actions[3], failed(WorkflowError::EmptyMessage));
        assert!(!calls_commit(&actions));
    }
}

#[test]
fn events_out_of_turn_abort() {
    let cmd = CommitCommand::new(config(Some("sk")));
    assert_eq!(run(&cmd, None, vec![Event::Answer(true)])[1], failed(WorkflowError::UnexpectedEvent));
    assert_eq!(
        run(&cmd, None, vec![exited(true, "/r\n"), Event::Credential(None)])[2],
        failed(WorkflowError::UnexpectedEvent)
    );
    let (state, action) = cmd.resume(State::Finished, Event::Answer(true));
    assert_eq!(state, State::Finished);
    assert_eq!(action, failed(WorkflowError::UnexpectedEvent));
}

#[test]
fn nothing_is_tried_twice() {
    let cmd = CommitCommand::new(config(Some("sk")));
    let actions = run(
        &cmd,
        None,
        vec![
            exited(true, "/repo\n"),
            exited(true, "+x"),
            reply(200, "", Some(vec!["D"])),
            Event::Answer(false),
            Event::Answer(true),
            exited(false, ""),
            exited(true, ""),
            reply(200, "", Some(vec!["D"])),
            Event::Answer(true),
        ],
    );
    let requests = actions.iter().filter(|a| matches!(a, Action::RequestCompletion(_))).count();
    let commits = actions.iter().filter(|a| matches!(a, Action::Commit { .. })).count();
    assert_eq!(requests, 1);
    assert_eq!(commits, 1);
    assert_eq!(actions[6], failed(WorkflowError::CommitFailed));
    assert_eq!(actions[7], failed(WorkflowError::UnexpectedEvent));
}
