//! The commit workflow: locate the repository, fetch the diff, settle on a
//! message, have it confirmed, split it, commit.
//!
//! The workflow is a state machine. `CommitCommand::execute` starts it and
//! `CommitCommand::resume` advances it by one event; `next` is the machine
//! itself, over the mathematical values of states, events and actions.

use crate::commands::Command;
use crate::config::Config;
use crate::config::ConfigView;
use crate::git::diff_of;
use crate::git::get_git_repo_path;
use crate::git::get_uncommitted_diff;
use crate::git::repo_path_of;
use crate::git::GitError;
use crate::git::GitOutput;
use crate::git::GitOutputView;
use crate::openai::completion_call;
use crate::openai::completion_of;
use crate::openai::generate_commit_message;
use crate::openai::read_completion;
use crate::openai::CompletionCall;
use crate::openai::CompletionCallView;
use crate::openai::CompletionError;
use crate::openai::CompletionErrorView;
use crate::openai::CompletionResponse;
use crate::openai::CompletionResponseView;
use crate::text::after_first_line;
use crate::text::first_line;
use crate::text::split_first_line;
use crate::text::trim;
use crate::text::trimmed;
use vstd::prelude::*;
use vstd::string::StringExecFns;

verus! {

/// Why a run was given up.
#[derive(Clone, Debug, PartialEq, Eq)]
pub enum WorkflowError {
    /// The version-control tool could not be started.
    GitUnavailable,
    /// The working directory is in no repository.
    NotARepository,
    /// The version-control tool wrote something that is not UTF-8.
    InvalidGitOutput,
    /// The diff could not be produced.
    DiffFailed,
    /// The diff is empty: there is nothing to commit.
    NoChanges,
    /// A message has to be generated and no credential is to be had.
    MissingCredential,
    /// The request did not get through to the endpoint.
    RequestFailed,
    /// The endpoint refused the request; its answer is kept as it came.
    ProviderError(String),
    /// The endpoint's answer could not be parsed.
    MalformedResponse,
    /// The endpoint's answer holds no candidate.
    NoCompletion,
    /// The terminal could not be used to ask the user.
    PromptFailed,
    /// The message has an empty first line, so there is no summary to commit
    /// under.
    EmptyMessage,
    /// The commit was attempted and the tool exited with a status other than
    /// zero.
    CommitFailed,
    /// The event is not an answer to the action asked for.
    UnexpectedEvent,
}

/// The mathematical value of a `WorkflowError`.
pub enum WorkflowErrorView {
    GitUnavailable,
    NotARepository,
    InvalidGitOutput,
    DiffFailed,
    NoChanges,
    MissingCredential,
    RequestFailed,
    ProviderError(Seq<char>),
    MalformedResponse,
    NoCompletion,
    PromptFailed,
    EmptyMessage,
    CommitFailed,
    UnexpectedEvent,
}

impl View for WorkflowError {
    type V = WorkflowErrorView;

    open spec fn view(&self) -> WorkflowErrorView {
        match self {
            WorkflowError::GitUnavailable => WorkflowErrorView::GitUnavailable,
            WorkflowError::NotARepository => WorkflowErrorView::NotARepository,
            WorkflowError::InvalidGitOutput => WorkflowErrorView::InvalidGitOutput,
            WorkflowError::DiffFailed => WorkflowErrorView::DiffFailed,
            WorkflowError::NoChanges => WorkflowErrorView::NoChanges,
            WorkflowError::MissingCredential => WorkflowErrorView::MissingCredential,
            WorkflowError::RequestFailed => WorkflowErrorView::RequestFailed,
            WorkflowError::ProviderError(body) => WorkflowErrorView::ProviderError(body@),
            WorkflowError::MalformedResponse => WorkflowErrorView::MalformedResponse,
            WorkflowError::NoCompletion => WorkflowErrorView::NoCompletion,
            WorkflowError::PromptFailed => WorkflowErrorView::PromptFailed,
            WorkflowError::EmptyMessage => WorkflowErrorView::EmptyMessage,
            WorkflowError::CommitFailed => WorkflowErrorView::CommitFailed,
            WorkflowError::UnexpectedEvent => WorkflowErrorView::UnexpectedEvent,
        }
    }
}

/// How a run ended.
#[derive(Clone, Debug, PartialEq, Eq)]
pub enum Outcome {
    /// The changes were committed.
    Committed,
    /// The user declined the commit. This is no error.
    Cancelled,
    /// The run was given up.
    Failed(WorkflowError),
}

/// The mathematical value of an `Outcome`.
pub enum OutcomeView {
    Committed,
    Cancelled,
    Failed(WorkflowErrorView),
}

impl View for Outcome {
    type V = OutcomeView;

    open spec fn view(&self) -> OutcomeView {
        match self {
            Outcome::Committed => OutcomeView::Committed,
            Outcome::Cancelled => OutcomeView::Cancelled,
            Outcome::Failed(error) => OutcomeView::Failed(error@),
        }
    }
}

/// What the workflow asks its driver to do next.
#[derive(Clone, Debug, PartialEq, Eq)]
pub enum Action {
    /// Run `repo_path_command` and report how it ended.
    LocateRepository,
    /// Run `diff_command` and report how it ended. The repository was found
    /// at `repository`.
    FetchDiff { repository: String },
    /// Look `variable` up in the environment and report the credential found
    /// there, if any.
    LookUpCredential { variable: String },
    /// Post the call, once, and report the reply.
    RequestCompletion(CompletionCall),
    /// Show `draft`, ask whether the user wants to edit it, and report the
    /// answer.
    OfferEdit { draft: String },
    /// Open `draft` in the user's editor and report the text that came back.
    EditMessage { draft: String },
    /// Show `message`, ask whether to commit with it, and report the answer.
    ConfirmCommit { message: String },
    /// Run `commit_command` on the summary and the description and report
    /// how it ended.
    Commit { summary: String, description: Option<String> },
    /// Stop: the run has ended.
    Finish(Outcome),
}

/// The mathematical value of an `Action`.
pub enum ActionView {
    LocateRepository,
    FetchDiff { repository: Seq<char> },
    LookUpCredential { variable: Seq<char> },
    RequestCompletion(CompletionCallView),
    OfferEdit { draft: Seq<char> },
    EditMessage { draft: Seq<char> },
    ConfirmCommit { message: Seq<char> },
    Commit { summary: Seq<char>, description: Option<Seq<char>> },
    Finish(OutcomeView),
}

impl View for Action {
    type V = ActionView;

    open spec fn view(&self) -> ActionView {
        match self {
            Action::LocateRepository => ActionView::LocateRepository,
            Action::FetchDiff { repository } => ActionView::FetchDiff { repository: repository@ },
            Action::LookUpCredential { variable } => ActionView::LookUpCredential {
                variable: variable@,
            },
            Action::RequestCompletion(call) => ActionView::RequestCompletion(call@),
            Action::OfferEdit { draft } => ActionView::OfferEdit { draft: draft@ },
            Action::EditMessage { draft } => ActionView::EditMessage { draft: draft@ },
            Action::ConfirmCommit { message } => ActionView::ConfirmCommit { message: message@ },
            Action::Commit { summary, description } => ActionView::Commit {
                summary: summary@,
                description: description.deep_view(),
            },
            Action::Finish(outcome) => ActionView::Finish(outcome@),
        }
    }
}

/// What the driver reports back.
#[derive(Clone, Debug, PartialEq, Eq)]
pub enum Event {
    /// The action could not be carried out at all: the subprocess did not
    /// start, the request did not get through, the terminal was not there.
    Failed,
    /// The subprocess ran to its end.
    Exited(GitOutput),
    /// The credential found in the environment, if any.
    Credential(Option<String>),
    /// The reply of the endpoint.
    Reply(CompletionResponse),
    /// The user's answer to a yes/no question.
    Answer(bool),
    /// The text that came back from the editor, or `None` where the user
    /// left the draft as it was.
    Edited(Option<String>),
}

/// The mathematical value of an `Event`.
pub enum EventView {
    Failed,
    Exited(GitOutputView),
    Credential(Option<Seq<char>>),
    Reply(CompletionResponseView),
    Answer(bool),
    Edited(Option<Seq<char>>),
}

impl View for Event {
    type V = EventView;

    open spec fn view(&self) -> EventView {
        match self {
            Event::Failed => EventView::Failed,
            Event::Exited(output) => EventView::Exited(output@),
            Event::Credential(found) => EventView::Credential(found.deep_view()),
            Event::Reply(response) => EventView::Reply(response@),
            Event::Answer(yes) => EventView::Answer(*yes),
            Event::Edited(text) => EventView::Edited(text.deep_view()),
        }
    }
}

/// Where a run stands: which report it waits for, and what it has to
/// remember until then.
#[derive(Clone, Debug, PartialEq, Eq)]
pub enum State {
    /// Waiting for the repository root.
    Locating { manual: Option<String> },
    /// Waiting for the diff.
    Diffing { manual: Option<String> },
    /// Waiting for the credential of the environment.
    ResolvingCredential { diff: String },
    /// Waiting for the reply of the endpoint.
    Generating,
    /// Waiting for the answer to the offer to edit the draft.
    OfferingEdit { draft: String },
    /// Waiting for the editor.
    Editing { draft: String },
    /// Waiting for the answer to the final question.
    Confirming { message: String },
    /// Waiting for the commit to end.
    Committing,
    /// The run has ended.
    Finished,
}

/// The mathematical value of a `State`.
pub enum StateView {
    Locating { manual: Option<Seq<char>> },
    Diffing { manual: Option<Seq<char>> },
    ResolvingCredential { diff: Seq<char> },
    Generating,
    OfferingEdit { draft: Seq<char> },
    Editing { draft: Seq<char> },
    Confirming { message: Seq<char> },
    Committing,
    Finished,
}

impl View for State {
    type V = StateView;

    open spec fn view(&self) -> StateView {
        match self {
            State::Locating { manual } => StateView::Locating { manual: manual.deep_view() },
            State::Diffing { manual } => StateView::Diffing { manual: manual.deep_view() },
            State::ResolvingCredential { diff } => StateView::ResolvingCredential { diff: diff@ },
            State::Generating => StateView::Generating,
            State::OfferingEdit { draft } => StateView::OfferingEdit { draft: draft@ },
            State::Editing { draft } => StateView::Editing { draft: draft@ },
            State::Confirming { message } => StateView::Confirming { message: message@ },
            State::Committing => StateView::Committing,
            State::Finished => StateView::Finished,
        }
    }
}

/// The environment variable that may hold the credential.
pub open spec fn credential_variable() -> Seq<char> {
    "OPENAI_API_KEY"@
}

/// The credential to use: the one of the settings where they hold one, an
/// empty one too; else the one of the environment; else none.
pub open spec fn credential_of(
    configured: Option<Seq<char>>,
    environment: Option<Seq<char>>,
) -> Option<Seq<char>> {
    match configured {
        Some(key) => Some(key),
        None => environment,
    }
}

/// A message cut into its summary, the first line, and its description, the
/// remaining lines without the white space around them. A description that
/// would be empty is absent.
pub open spec fn split_message(message: Seq<char>) -> (Seq<char>, Option<Seq<char>>) {
    (
        first_line(message),
        match after_first_line(message) {
            Some(rest) => if trimmed(rest).len() == 0 {
                None
            } else {
                Some(trimmed(rest))
            },
            None => None,
        },
    )
}

/// The process exit status that goes with an outcome: zero unless the run
/// was given up.
pub open spec fn exit_status(outcome: OutcomeView) -> u8 {
    match outcome {
        OutcomeView::Failed(_) => 1,
        _ => 0,
    }
}

/// What the user is told when a run is given up. A refusal of the endpoint
/// is reported with the body of its answer, as it came.
pub open spec fn message_of(error: WorkflowErrorView) -> Seq<char> {
    match error {
        WorkflowErrorView::GitUnavailable => "Failed to execute git command. Is git installed?"@,
        WorkflowErrorView::NotARepository => "Not in a git repository"@,
        WorkflowErrorView::InvalidGitOutput => "Failed to parse git output"@,
        WorkflowErrorView::DiffFailed => "Failed to get git diff"@,
        WorkflowErrorView::NoChanges => "No changes to commit. Make some changes first!"@,
        WorkflowErrorView::MissingCredential => "OpenAI API key not found in config or environment. Please set OPENAI_API_KEY environment variable or add it to the config file."@,
        WorkflowErrorView::RequestFailed => "Failed to send request to OpenAI API"@,
        WorkflowErrorView::ProviderError(body) => "OpenAI API error: "@ + body,
        WorkflowErrorView::MalformedResponse => "Failed to parse OpenAI API response"@,
        WorkflowErrorView::NoCompletion => "No completion choices returned from OpenAI"@,
        WorkflowErrorView::PromptFailed => "Failed to read an answer from the terminal"@,
        WorkflowErrorView::EmptyMessage => "The commit message has an empty summary line"@,
        WorkflowErrorView::CommitFailed => "Failed to commit changes. Git exited with non-zero status."@,
        WorkflowErrorView::UnexpectedEvent => "The workflow was resumed with an event it did not ask for"@,
    }
}

/// The end of a run that is given up for `error`.
pub open spec fn give_up(error: WorkflowErrorView) -> (StateView, ActionView) {
    (StateView::Finished, ActionView::Finish(OutcomeView::Failed(error)))
}

/// The workflow's name for a failure of the version-control adapter.
pub open spec fn git_failure(error: GitError) -> WorkflowErrorView {
    match error {
        GitError::NotARepository => WorkflowErrorView::NotARepository,
        GitError::DiffFailed => WorkflowErrorView::DiffFailed,
        GitError::InvalidOutput => WorkflowErrorView::InvalidGitOutput,
    }
}

/// The workflow's name for a failure of the completion client.
pub open spec fn completion_failure(error: CompletionErrorView) -> WorkflowErrorView {
    match error {
        CompletionErrorView::Provider(body) => WorkflowErrorView::ProviderError(body),
        CompletionErrorView::Malformed => WorkflowErrorView::MalformedResponse,
        CompletionErrorView::NoCompletion => WorkflowErrorView::NoCompletion,
    }
}

/// The step that asks the endpoint for a message for `diff`.
pub open spec fn ask_for_draft(config: ConfigView, credential: Seq<char>, diff: Seq<char>) -> (
    StateView,
    ActionView,
) {
    (
        StateView::Generating,
        ActionView::RequestCompletion(
            completion_call(
                credential,
                config.openai.model,
                config.openai.temperature,
                config.openai.max_tokens,
                config.openai.system_prompt,
                diff,
            ),
        ),
    )
}

/// The step that puts the final question for `message`.
pub open spec fn ask_to_confirm(message: Seq<char>) -> (StateView, ActionView) {
    (StateView::Confirming { message }, ActionView::ConfirmCommit { message })
}

/// The step after the diff is known. No changes end the run. A message given
/// by the user goes straight to the final question. Otherwise a message is
/// generated, under the credential of the settings or, where they hold none,
/// under the one that the environment has yet to give.
pub open spec fn after_diff(config: ConfigView, manual: Option<Seq<char>>, diff: Seq<char>) -> (
    StateView,
    ActionView,
) {
    if diff.len() == 0 {
        give_up(WorkflowErrorView::NoChanges)
    } else {
        match manual {
            Some(message) => ask_to_confirm(message),
            None => match config.openai.api_key {
                Some(key) => ask_for_draft(config, key, diff),
                None => (
                    StateView::ResolvingCredential { diff },
                    ActionView::LookUpCredential { variable: credential_variable() },
                ),
            },
        }
    }
}

/// The step after the user agreed to commit with `message`: the commit
/// itself, unless the message has no summary.
pub open spec fn after_consent(message: Seq<char>) -> (StateView, ActionView) {
    let (summary, description) = split_message(message);
    if summary.len() == 0 {
        give_up(WorkflowErrorView::EmptyMessage)
    } else {
        (StateView::Committing, ActionView::Commit { summary, description })
    }
}

/// The workflow: from a state and the event that answers the action asked
/// for last, the next state and the next action.
pub open spec fn next(config: ConfigView, state: StateView, event: EventView) -> (
    StateView,
    ActionView,
) {
    match state {
        StateView::Locating { manual } => match event {
            EventView::Exited(output) => match repo_path_of(output) {
                Ok(repository) => (
                    StateView::Diffing { manual },
                    ActionView::FetchDiff { repository },
                ),
                Err(e) => give_up(git_failure(e)),
            },
            EventView::Failed => give_up(WorkflowErrorView::GitUnavailable),
            _ => give_up(WorkflowErrorView::UnexpectedEvent),
        },
        StateView::Diffing { manual } => match event {
            EventView::Exited(output) => match diff_of(output) {
                Ok(diff) => after_diff(config, manual, diff),
                Err(e) => give_up(git_failure(e)),
            },
            EventView::Failed => give_up(WorkflowErrorView::GitUnavailable),
            _ => give_up(WorkflowErrorView::UnexpectedEvent),
        },
        StateView::ResolvingCredential { diff } => match event {
            EventView::Credential(found) => match credential_of(config.openai.api_key, found) {
                Some(credential) => ask_for_draft(config, credential, diff),
                None => give_up(WorkflowErrorView::MissingCredential),
            },
            EventView::Failed => give_up(WorkflowErrorView::MissingCredential),
            _ => give_up(WorkflowErrorView::UnexpectedEvent),
        },
        StateView::Generating => match event {
            EventView::Reply(response) => match completion_of(response) {
                Ok(draft) => (StateView::OfferingEdit { draft }, ActionView::OfferEdit { draft }),
                Err(e) => give_up(completion_failure(e)),
            },
            EventView::Failed => give_up(WorkflowErrorView::RequestFailed),
            _ => give_up(WorkflowErrorView::UnexpectedEvent),
        },
        StateView::OfferingEdit { draft } => match event {
            EventView::Answer(yes) => if yes {
                (StateView::Editing { draft }, ActionView::EditMessage { draft })
            } else {
                ask_to_confirm(draft)
            },
            EventView::Failed => give_up(WorkflowErrorView::PromptFailed),
            _ => give_up(WorkflowErrorView::UnexpectedEvent),
        },
        StateView::Editing { draft } => match event {
            EventView::Edited(text) => match text {
                Some(edited) => ask_to_confirm(edited),
                None => ask_to_confirm(draft),
            },
            EventView::Failed => give_up(WorkflowErrorView::PromptFailed),
            _ => give_up(WorkflowErrorView::UnexpectedEvent),
        },
        StateView::Confirming { message } => match event {
            EventView::Answer(yes) => if yes {
                after_consent(message)
            } else {
                (StateView::Finished, ActionView::Finish(OutcomeView::Cancelled))
            },
            EventView::Failed => give_up(WorkflowErrorView::PromptFailed),
            _ => give_up(WorkflowErrorView::UnexpectedEvent),
        },
        StateView::Committing => match event {
            EventView::Exited(output) => if output.success {
                (StateView::Finished, ActionView::Finish(OutcomeView::Committed))
            } else {
                give_up(WorkflowErrorView::CommitFailed)
            },
            EventView::Failed => give_up(WorkflowErrorView::GitUnavailable),
            _ => give_up(WorkflowErrorView::UnexpectedEvent),
        },
        StateView::Finished => give_up(WorkflowErrorView::UnexpectedEvent),
    }
}

/// The first step of a run: nothing is known yet but the message that the
/// user may have given.
pub open spec fn start(manual: Option<Seq<char>>) -> (StateView, ActionView) {
    (StateView::Locating { manual }, ActionView::LocateRepository)
}

/// Picks the credential: the one of the settings, else the one of the
/// environment, else `MissingCredential`.
pub fn resolve_credential(configured: &Option<String>, environment: Option<String>) -> (r: Result<
    String,
    WorkflowError,
>)
    ensures
        match r {
            Ok(key) => credential_of(configured.deep_view(), environment.deep_view()) == Some(key@),
            Err(e) => credential_of(configured.deep_view(), environment.deep_view()) is None && e@
                == WorkflowErrorView::MissingCredential,
        },
{
    match configured {
        Some(key) => Ok(key.clone()),
        None => match environment {
            Some(key) => Ok(key),
            None => Err(WorkflowError::MissingCredential),
        },
    }
}

/// Cuts a message into summary and description.
pub fn split(message: &str) -> (r: (String, Option<String>))
    ensures
        (r.0@, r.1.deep_view()) == split_message(message@),
{
    let (summary, rest) = split_first_line(message);
    match rest {
        Some(text) => {
            let description = trim(text.as_str());
            if description.as_str().unicode_len() == 0 {
                (summary, None)
            } else {
                (summary, Some(description))
            }
        },
        None => (summary, None),
    }
}

impl WorkflowError {
    /// The text that tells the user of this error.
    pub fn message(&self) -> (r: String)
        ensures
            r@ == message_of(self@),
    {
        match self {
            WorkflowError::GitUnavailable => String::from_str(
                "Failed to execute git command. Is git installed?",
            ),
            WorkflowError::NotARepository => String::from_str("Not in a git repository"),
            WorkflowError::InvalidGitOutput => String::from_str("Failed to parse git output"),
            WorkflowError::DiffFailed => String::from_str("Failed to get git diff"),
            WorkflowError::NoChanges => String::from_str(
                "No changes to commit. Make some changes first!",
            ),
            WorkflowError::MissingCredential => String::from_str(
                "OpenAI API key not found in config or environment. Please set OPENAI_API_KEY environment variable or add it to the config file.",
            ),
            WorkflowError::RequestFailed => String::from_str("Failed to send request to OpenAI API"),
            WorkflowError::ProviderError(body) => String::from_str("OpenAI API error: ").concat(
                body.as_str(),
            ),
            WorkflowError::MalformedResponse => String::from_str(
                "Failed to parse OpenAI API response",
            ),
            WorkflowError::NoCompletion => String::from_str(
                "No completion choices returned from OpenAI",
            ),
            WorkflowError::PromptFailed => String::from_str(
                "Failed to read an answer from the terminal",
            ),
            WorkflowError::EmptyMessage => String::from_str(
                "The commit message has an empty summary line",
            ),
            WorkflowError::CommitFailed => String::from_str(
                "Failed to commit changes. Git exited with non-zero status.",
            ),
            WorkflowError::UnexpectedEvent => String::from_str(
                "The workflow was resumed with an event it did not ask for",
            ),
        }
    }
}

impl Outcome {
    /// The exit status of the process for this outcome: zero for a commit
    /// and for a cancellation, one for a failure.
    pub fn exit_code(&self) -> (r: u8)
        ensures
            r == exit_status(self@),
    {
        match self {
            Outcome::Failed(_) => 1,
            _ => 0,
        }
    }
}

fn failed(error: WorkflowError) -> (r: (State, Action))
    ensures
        (r.0@, r.1@) == give_up(error@),
{
    (State::Finished, Action::Finish(Outcome::Failed(error)))
}

fn git_error(error: GitError) -> (r: WorkflowError)
    ensures
        r@ == git_failure(error),
{
    match error {
        GitError::NotARepository => WorkflowError::NotARepository,
        GitError::DiffFailed => WorkflowError::DiffFailed,
        GitError::InvalidOutput => WorkflowError::InvalidGitOutput,
    }
}

fn completion_error(error: CompletionError) -> (r: WorkflowError)
    ensures
        r@ == completion_failure(error@),
{
    match error {
        CompletionError::Provider(body) => WorkflowError::ProviderError(body),
        CompletionError::Malformed => WorkflowError::MalformedResponse,
        CompletionError::NoCompletion => WorkflowError::NoCompletion,
    }
}

fn confirm(message: String) -> (r: (State, Action))
    ensures
        (r.0@, r.1@) == ask_to_confirm(message@),
{
    let shown = message.clone();
    (State::Confirming { message }, Action::ConfirmCommit { message: shown })
}

fn consented(message: &str) -> (r: (State, Action))
    ensures
        (r.0@, r.1@) == after_consent(message@),
{
    let (summary, description) = split(message);
    if summary.as_str().unicode_len() == 0 {
        failed(WorkflowError::EmptyMessage)
    } else {
        (State::Committing, Action::Commit { summary, description })
    }
}

/// The commit command: the workflow under given settings.
#[derive(Clone, Debug, PartialEq, Eq)]
pub struct CommitCommand {
    config: Config,
}

impl CommitCommand {
    /// The settings that the command runs under.
    pub closed spec fn settings(&self) -> ConfigView {
        self.config@
    }

    /// The commit command under `config`.
    pub fn new(config: Config) -> (r: Self)
        ensures
            r.settings() == config@,
    {
        Self { config }
    }

    fn draft_request(&self, credential: &str, diff: &str) -> (r: (State, Action))
        ensures
            (r.0@, r.1@) == ask_for_draft(self.settings(), credential@, diff@),
    {
        let call = generate_commit_message(
            credential,
            self.config.openai.model.as_str(),
            self.config.openai.temperature,
            self.config.openai.max_tokens,
            self.config.openai.system_prompt.as_str(),
            diff,
        );
        (State::Generating, Action::RequestCompletion(call))
    }

    fn diffed(&self, manual: Option<String>, diff: String) -> (r: (State, Action))
        ensures
            (r.0@, r.1@) == after_diff(self.settings(), manual.deep_view(), diff@),
    {
        if diff.as_str().unicode_len() == 0 {
            return failed(WorkflowError::NoChanges);
        }
        match manual {
            Some(message) => confirm(message),
            None => match &self.config.openai.api_key {
                Some(key) => self.draft_request(key.as_str(), diff.as_str()),
                None => (
                    State::ResolvingCredential { diff },
                    Action::LookUpCredential { variable: String::from_str("OPENAI_API_KEY") },
                ),
            },
        }
    }
}

impl Command for CommitCommand {
    type State = State;

    type Event = Event;

    type Action = Action;

    /// Starts a run. `arg` is the message given by the user, if any; with
    /// one, no message is generated.
    fn execute(&self, arg: Option<String>) -> (r: (State, Action))
        ensures
            (r.0@, r.1@) == start(arg.deep_view()),
    {
        (State::Locating { manual: arg }, Action::LocateRepository)
    }

    /// Advances a run by one event, as `next` says.
    fn resume(&self, state: State, event: Event) -> (r: (State, Action))
        ensures
            (r.0@, r.1@) == next(self.settings(), state@, event@),
    {
        match state {
            State::Locating { manual } => match event {
                Event::Exited(output) => match get_git_repo_path(output) {
                    Ok(repository) => (State::Diffing { manual }, Action::FetchDiff { repository }),
                    Err(e) => failed(git_error(e)),
                },
                Event::Failed => failed(WorkflowError::GitUnavailable),
                _ => failed(WorkflowError::UnexpectedEvent),
            },
            State::Diffing { manual } => match event {
                Event::Exited(output) => match get_uncommitted_diff(output) {
                    Ok(diff) => self.diffed(manual, diff),
                    Err(e) => failed(git_error(e)),
                },
                Event::Failed => failed(WorkflowError::GitUnavailable),
                _ => failed(WorkflowError::UnexpectedEvent),
            },
            State::ResolvingCredential { diff } => match event {
                Event::Credential(found) => match resolve_credential(
                    &self.config.openai.api_key,
                    found,
                ) {
                    Ok(credential) => self.draft_request(credential.as_str(), diff.as_str()),
                    Err(e) => failed(e),
                },
                Event::Failed => failed(WorkflowError::MissingCredential),
                _ => failed(WorkflowError::UnexpectedEvent),
            },
            State::Generating => match event {
                Event::Reply(response) => match read_completion(&response) {
                    Ok(draft) => {
                        let shown = draft.clone();
                        (State::OfferingEdit { draft }, Action::OfferEdit { draft: shown })
                    },
                    Err(e) => failed(completion_error(e)),
                },
                Event::Failed => failed(WorkflowError::RequestFailed),
                _ => failed(WorkflowError::UnexpectedEvent),
            },
            State::OfferingEdit { draft } => match event {
                Event::Answer(yes) => if yes {
                    let shown = draft.clone();
                    (State::Editing { draft }, Action::EditMessage { draft: shown })
                } else {
                    confirm(draft)
                },
                Event::Failed => failed(WorkflowError::PromptFailed),
                _ => failed(WorkflowError::UnexpectedEvent),
            },
            State::Editing { draft } => match event {
                Event::Edited(text) => match text {
                    Some(edited) => confirm(edited),
                    None => confirm(draft),
                },
                Event::Failed => failed(WorkflowError::PromptFailed),
                _ => failed(WorkflowError::UnexpectedEvent),
            },
            State::Confirming { message } => match event {
                Event::Answer(yes) => if yes {
                    consented(message.as_str())
                } else {
                    (State::Finished, Action::Finish(Outcome::Cancelled))
                },
                Event::Failed => failed(WorkflowError::PromptFailed),
                _ => failed(WorkflowError::UnexpectedEvent),
            },
            State::Committing => match event {
                Event::Exited(output) => if output.success {
                    (State::Finished, Action::Finish(Outcome::Committed))
                } else {
                    failed(WorkflowError::CommitFailed)
                },
                Event::Failed => failed(WorkflowError::GitUnavailable),
                _ => failed(WorkflowError::UnexpectedEvent),
            },
            State::Finished => failed(WorkflowError::UnexpectedEvent),
        }
    }
}

} // verus!
