use vstd::prelude::*;
use vstd::string::*;
use crate::error::{APILayerError, Error};

verus! {

/// The body of an error reply from the moderation upstream.
#[derive(Clone, Debug)]
pub struct APIResponse {
    message: String,
}

impl View for APIResponse {
    type V = Seq<char>;

    /// The message of the reply.
    closed spec fn view(&self) -> Seq<char> {
        self.message@
    }
}

impl APIResponse {
    pub fn new(message: String) -> (r: APIResponse)
        ensures
            r@ == message@,
    {
        APIResponse { message }
    }

    /// The message of the reply.
    pub fn message(&self) -> (r: &String)
        ensures
            r@ == self@,
    {
        &self.message
    }

    /// The message an error reply carries, or `Unknown error` where its body
    /// could not be read.
    pub fn message_or_unknown(reply: Option<APIResponse>) -> (r: String)
        ensures
            r@ == match reply {
                Some(a) => a@,
                None => "Unknown error"@,
            },
    {
        match reply {
            Some(a) => a.message,
            None => String::from_str("Unknown error"),
        }
    }
}

/// The system prompt that asks the model to replace every sensitive word
/// with asterisks and to return only the processed text.
pub const SYSTEM_PROMPT: &'static str = "你是一个专业的敏感词检测系统。请严格检查用户输入的内容，将所有敏感词替换为*号。只返回处理后的文本，不要添加任何解释。";

/// The user message that carries the content to check.
pub fn user_prompt(content: &str) -> (r: String)
    ensures
        r@ == "需要检查的内容如下：\n"@ + content@,
{
    String::from_str("需要检查的内容如下：\n").concat(content)
}

/// The error for an upstream reply with a non-success status: a client
/// error for a 4xx status, a server error for any other.
pub fn upstream_error(status: u16, message: String) -> (r: Error)
    ensures
        r == (if 400 <= status < 500 {
            Error::ClientError(APILayerError { status, message })
        } else {
            Error::ServerError(APILayerError { status, message })
        }),
{
    if 400 <= status && status < 500 {
        Error::ClientError(APILayerError { status, message })
    } else {
        Error::ServerError(APILayerError { status, message })
    }
}

/// A string without its leading and trailing whitespace.
pub uninterp spec fn trimmed(s: Seq<char>) -> Seq<char>;

/// Relies on str::trim: removes leading and trailing Unicode whitespace.
#[verifier::external_body]
fn trim_text(s: &str) -> (r: String)
    ensures
        r@ == trimmed(s@),
{
    s.trim().to_string()
}

/// The first choice's content of a moderation reply, trimmed; a server
/// error with status 500 when the model returned no choice.
pub fn first_choice_content(contents: &Vec<String>) -> (r: Result<String, Error>)
    ensures
        contents@.len() > 0 ==> r is Ok && r->Ok_0@ == trimmed(contents@[0]@),
        contents@.len() == 0 ==> r is Err && r->Err_0 is ServerError
            && r->Err_0->ServerError_0.status == 500
            && r->Err_0->ServerError_0.message@ == "No response from AI model"@,
{
    if contents.len() > 0 {
        Ok(trim_text(contents[0].as_str()))
    } else {
        Err(
            Error::ServerError(
                APILayerError { status: 500, message: String::from_str("No response from AI model") },
            ),
        )
    }
}

} // verus!
