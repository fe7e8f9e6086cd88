//! The text replies: `ping`, `age` and `gpt`.
use vstd::prelude::*;

verus! {

/// The text of the acknowledgement sent in answer to a ping.
pub fn ping() -> (r: String)
    ensures
        r@ == "Pong!"@,
{
    String::from_str("Pong!")
}

/// The creation time that the gateway library reads out of a user id, as it
/// prints it.
pub uninterp spec fn creation_stamp(id: u64) -> Seq<char>;

/// Relies on serenity's `UserId::created_at` and the `Display` of its
/// `Timestamp`: the account's creation time, decoded from the id, in
/// RFC 3339. `UserId::new` panics on a zero id.
#[verifier::external_body]
fn account_created(id: u64) -> (r: String)
    requires
        id != 0,
    ensures
        r@ == creation_stamp(id),
{
    serenity::model::id::UserId::new(id).created_at().to_string()
}

/// A user of the chat service, as far as the commands read one.
pub struct Member {
    /// The user's snowflake id; never zero.
    pub id: u64,
    pub name: String,
}

/// The sentence that tells when the account `id`, named `name`, was created.
pub open spec fn age_text(name: Seq<char>, id: u64) -> Seq<char> {
    name + "'s account was created at "@ + creation_stamp(id)
}

/// The reply of the `age` command, invoked by `author`: the creation time of
/// `target`'s account, or of the author's own where no target is given.
pub fn age(author: &Member, target: Option<&Member>) -> (r: String)
    requires
        author.id != 0,
        target matches Some(t) ==> t.id != 0,
    ensures
        r@ == match target {
            Some(t) => age_text(t.name@, t.id),
            None => age_text(author.name@, author.id),
        },
{
    let who = match target {
        Some(t) => t,
        None => author,
    };
    let stamp = account_created(who.id);
    let mut text = who.name.clone();
    text.append("'s account was created at ");
    text.append(stamp.as_str());
    text
}

/// Relies on openai-api-rs's `GPT3_5_TURBO`, the default model's identifier.
#[verifier::external_body]
fn default_model() -> (r: String)
    ensures
        r@ == "gpt-3.5-turbo"@,
{
    openai_api_rs::v1::chat_completion::GPT3_5_TURBO.to_string()
}

/// Who speaks a turn of a chat completion.
#[derive(Debug, Clone, Copy, PartialEq, Eq, Structural)]
pub enum Role {
    System,
    User,
    Assistant,
    Function,
}

/// One message of a chat completion request.
pub struct ChatTurn {
    pub role: Role,
    pub content: String,
}

/// A chat completion request: the model asked and the conversation so far.
pub struct CompletionQuery {
    pub model: String,
    pub messages: Vec<ChatTurn>,
}

/// The request that the `gpt` command sends: the prompt as the one user
/// message, to the default model.
pub fn completion_query(prompt: &str) -> (r: CompletionQuery)
    ensures
        r.model@ == "gpt-3.5-turbo"@,
        r.messages@.len() == 1,
        r.messages@[0].role == Role::User,
        r.messages@[0].content@ == prompt@,
{
    let mut messages: Vec<ChatTurn> = Vec::new();
    messages.push(ChatTurn { role: Role::User, content: prompt.to_string() });
    CompletionQuery { model: default_model(), messages }
}

/// A failed completion request, with what the completion service said.
pub struct UpstreamError {
    pub message: String,
}

/// The reply that stands in for a completion without text.
pub open spec fn no_response() -> Seq<char> {
    "no response"@
}

/// The text of the first choice of a completion, or `no_response()` where
/// there is no choice or its text is absent or empty.
pub open spec fn first_choice_text(contents: Seq<Option<String>>) -> Seq<char> {
    if contents.len() > 0 && contents[0] is Some && contents[0]->Some_0@.len() > 0 {
        contents[0]->Some_0@
    } else {
        no_response()
    }
}

/// The reply of the `gpt` command, from what the completion service
/// answered: the text of each choice in order, or the failure, which is
/// passed on unchanged.
pub fn gpt(outcome: Result<Vec<Option<String>>, UpstreamError>) -> (r: Result<
    String,
    UpstreamError,
>)
    ensures
        match outcome {
            Ok(contents) => r matches Ok(s) && s@ == first_choice_text(contents@),
            Err(e) => r matches Err(f) && f.message@ == e.message@,
        },
{
    match outcome {
        Ok(contents) => {
            if contents.len() > 0 {
                match &contents[0] {
                    Some(s) => {
                        if !s.as_str().is_empty() {
                            return Ok(s.clone());
                        }
                    },
                    None => {},
                }
            }
            Ok(String::from_str("no response"))
        },
        Err(e) => Err(e),
    }
}

} // verus!
