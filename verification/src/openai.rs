//! The completion client: the request that asks for a commit message, and
//! the reading of the endpoint's reply. Sending is left to the caller.

use crate::config::Temperature;
use vstd::prelude::*;
use vstd::string::StringExecFns;

verus! {

/// One chat message.
#[derive(Clone, Debug, PartialEq, Eq)]
pub struct Message {
    pub role: String,
    pub content: String,
}

/// The mathematical value of a `Message`.
pub struct MessageView {
    pub role: Seq<char>,
    pub content: Seq<char>,
}

impl View for Message {
    type V = MessageView;

    open spec fn view(&self) -> MessageView {
        MessageView { role: self.role@, content: self.content@ }
    }
}

/// The body of a completion request.
#[derive(Clone, Debug, PartialEq, Eq)]
pub struct OpenAIRequest {
    pub model: String,
    pub messages: Vec<Message>,
    pub temperature: Temperature,
    pub max_tokens: u32,
}

/// The mathematical value of an `OpenAIRequest`.
pub struct OpenAIRequestView {
    pub model: Seq<char>,
    pub messages: Seq<MessageView>,
    pub temperature: Temperature,
    pub max_tokens: u32,
}

impl View for OpenAIRequest {
    type V = OpenAIRequestView;

    open spec fn view(&self) -> OpenAIRequestView {
        OpenAIRequestView {
            model: self.model@,
            messages: self.messages@.map_values(|m: Message| m@),
            temperature: self.temperature,
            max_tokens: self.max_tokens,
        }
    }
}

/// A request ready to be posted: where to, under which authorization, and
/// with what body.
#[derive(Clone, Debug, PartialEq, Eq)]
pub struct CompletionCall {
    pub url: String,
    pub authorization: String,
    pub body: OpenAIRequest,
}

/// The mathematical value of a `CompletionCall`.
pub struct CompletionCallView {
    pub url: Seq<char>,
    pub authorization: Seq<char>,
    pub body: OpenAIRequestView,
}

impl View for CompletionCall {
    type V = CompletionCallView;

    open spec fn view(&self) -> CompletionCallView {
        CompletionCallView { url: self.url@, authorization: self.authorization@, body: self.body@ }
    }
}

/// What came back from the endpoint: the status code, the body as text, and
/// the candidate texts found in the body where it could be parsed as a
/// completion.
#[derive(Clone, Debug, PartialEq, Eq)]
pub struct CompletionResponse {
    pub status: u16,
    pub body: String,
    pub choices: Option<Vec<String>>,
}

/// The mathematical value of a `CompletionResponse`.
pub struct CompletionResponseView {
    pub status: u16,
    pub body: Seq<char>,
    pub choices: Option<Seq<Seq<char>>>,
}

impl View for CompletionResponse {
    type V = CompletionResponseView;

    open spec fn view(&self) -> CompletionResponseView {
        CompletionResponseView {
            status: self.status,
            body: self.body@,
            choices: self.choices.deep_view(),
        }
    }
}

/// Why a reply holds no commit message.
#[derive(Clone, Debug, PartialEq, Eq)]
pub enum CompletionError {
    /// The endpoint answered with a status outside the 2xx range; the body
    /// of its answer is kept as it came.
    Provider(String),
    /// The status was a success and the body could not be parsed.
    Malformed,
    /// The status was a success and the body holds no candidate.
    NoCompletion,
}

/// The mathematical value of a `CompletionError`.
pub enum CompletionErrorView {
    Provider(Seq<char>),
    Malformed,
    NoCompletion,
}

impl View for CompletionError {
    type V = CompletionErrorView;

    open spec fn view(&self) -> CompletionErrorView {
        match self {
            CompletionError::Provider(body) => CompletionErrorView::Provider(body@),
            CompletionError::Malformed => CompletionErrorView::Malformed,
            CompletionError::NoCompletion => CompletionErrorView::NoCompletion,
        }
    }
}

/// The address of the chat-completion endpoint.
pub open spec fn endpoint() -> Seq<char> {
    "https://api.openai.com/v1/chat/completions"@
}

/// The value of the authorization header for a credential.
pub open spec fn bearer(credential: Seq<char>) -> Seq<char> {
    "Bearer "@ + credential
}

/// The role of the message that carries the instructions.
pub open spec fn system_role() -> Seq<char> {
    "system"@
}

/// The role of the message that carries the changes.
pub open spec fn user_role() -> Seq<char> {
    "user"@
}

/// What the user message says before the changes; it ends by opening a
/// fenced block.
pub open spec fn prompt_opening() -> Seq<char> {
    "Here are the changes that need to be committed:\n```diff\n"@
}

/// What the user message says after the changes; it starts by closing the
/// fenced block.
pub open spec fn prompt_closing() -> Seq<char> {
    "\n```\n\nPlease write a concise and descriptive commit message explaining what these changes do."@
}

/// The user message for a diff: the diff, as it is, inside a fenced block.
pub open spec fn user_prompt(diff: Seq<char>) -> Seq<char> {
    prompt_opening() + diff + prompt_closing()
}

/// The request body that asks for a commit message: the instructions as the
/// system message, then the changes as the user message.
pub open spec fn completion_request(
    model: Seq<char>,
    temperature: Temperature,
    max_tokens: u32,
    system_prompt: Seq<char>,
    diff: Seq<char>,
) -> OpenAIRequestView {
    OpenAIRequestView {
        model,
        messages: seq![
            MessageView { role: system_role(), content: system_prompt },
            MessageView { role: user_role(), content: user_prompt(diff) },
        ],
        temperature,
        max_tokens,
    }
}

/// The whole call that asks for a commit message.
pub open spec fn completion_call(
    api_key: Seq<char>,
    model: Seq<char>,
    temperature: Temperature,
    max_tokens: u32,
    system_prompt: Seq<char>,
    diff: Seq<char>,
) -> CompletionCallView {
    CompletionCallView {
        url: endpoint(),
        authorization: bearer(api_key),
        body: completion_request(model, temperature, max_tokens, system_prompt, diff),
    }
}

/// Whether a status code reports success: the 2xx range.
pub open spec fn is_success(status: u16) -> bool {
    200 <= status < 300
}

/// What a reply amounts to: the first candidate as it came, or the reason
/// why there is none.
pub open spec fn completion_of(response: CompletionResponseView) -> Result<
    Seq<char>,
    CompletionErrorView,
> {
    if !is_success(response.status) {
        Err(CompletionErrorView::Provider(response.body))
    } else {
        match response.choices {
            None => Err(CompletionErrorView::Malformed),
            Some(choices) => if choices.len() == 0 {
                Err(CompletionErrorView::NoCompletion)
            } else {
                Ok(choices.first())
            },
        }
    }
}

/// Whatever the credential and the settings, the request holds exactly two
/// messages, the system message and then the user message, and the user
/// message holds the diff unchanged between the line that opens a fenced
/// block and the line that closes it.
pub proof fn law_request_holds_the_diff_fenced(
    api_key: Seq<char>,
    model: Seq<char>,
    temperature: Temperature,
    max_tokens: u32,
    system_prompt: Seq<char>,
    diff: Seq<char>,
)
    ensures
        ({
            let messages = completion_call(
                api_key,
                model,
                temperature,
                max_tokens,
                system_prompt,
                diff,
            ).body.messages;
            let content = messages[1].content;
            let start = prompt_opening().len() as int;
            let end = start + diff.len();
            &&& messages.len() == 2
            &&& messages[0].role == "system"@
            &&& messages[0].content == system_prompt
            &&& messages[1].role == "user"@
            &&& content.len() == end + prompt_closing().len()
            &&& content.subrange(start, end) == diff
            &&& start >= 8
            &&& content.subrange(start - 8, start) == "```diff\n"@
            &&& content.subrange(end, end + 4) == "\n```"@
        }),
{
    reveal_strlit("Here are the changes that need to be committed:\n```diff\n");
    reveal_strlit(
        "\n```\n\nPlease write a concise and descriptive commit message explaining what these changes do.",
    );
    reveal_strlit("```diff\n");
    reveal_strlit("\n```");
    let content = user_prompt(diff);
    let start = prompt_opening().len() as int;
    let end = start + diff.len();
    assert(content.subrange(start, end) =~= diff);
    assert(content.subrange(start - 8, start) =~= "```diff\n"@);
    assert(content.subrange(end, end + 4) =~= "\n```"@);
}

/// Prepares the call that asks the endpoint for a commit message for
/// `diff`. The call is to be posted once; `read_completion` reads the reply.
pub fn generate_commit_message(
    api_key: &str,
    model: &str,
    temperature: Temperature,
    max_tokens: u32,
    system_prompt: &str,
    diff: &str,
) -> (call: CompletionCall)
    ensures
        call@ == completion_call(api_key@, model@, temperature, max_tokens, system_prompt@, diff@),
{
    let user_prompt = String::from_str("Here are the changes that need to be committed:\n```diff\n")
        .concat(diff).concat(
        "\n```\n\nPlease write a concise and descriptive commit message explaining what these changes do.",
    );
    let mut messages: Vec<Message> = Vec::new();
    messages.push(
        Message { role: String::from_str("system"), content: String::from_str(system_prompt) },
    );
    messages.push(Message { role: String::from_str("user"), content: user_prompt });
    let body = OpenAIRequest { model: String::from_str(model), messages, temperature, max_tokens };
    proof {
        assert(body@.messages =~= completion_request(
            model@,
            temperature,
            max_tokens,
            system_prompt@,
            diff@,
        ).messages);
    }
    CompletionCall {
        url: String::from_str("https://api.openai.com/v1/chat/completions"),
        authorization: String::from_str("Bearer ").concat(api_key),
        body,
    }
}

/// Decides `is_success`.
pub fn status_is_success(status: u16) -> (r: bool)
    ensures
        r == is_success(status),
{
    200 <= status && status < 300
}

/// Reads a reply: the first candidate, untouched, where the status is a
/// success and the body holds one; else the reason why not.
pub fn read_completion(response: &CompletionResponse) -> (r: Result<String, CompletionError>)
    ensures
        match r {
            Ok(text) => completion_of(response@) == Ok::<Seq<char>, CompletionErrorView>(text@),
            Err(e) => completion_of(response@) == Err::<Seq<char>, CompletionErrorView>(e@),
        },
{
    if !status_is_success(response.status) {
        return Err(CompletionError::Provider(response.body.clone()));
    }
    match &response.choices {
        None => Err(CompletionError::Malformed),
        Some(choices) => {
            if choices.len() == 0 {
                Err(CompletionError::NoCompletion)
            } else {
                Ok(choices[0].clone())
            }
        },
    }
}

} // verus!
