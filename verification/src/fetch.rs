//! What a fetch of the usage summary can end in, and the text that the
//! chat is told for each ending.

use crate::report::{render_report, report_text, UsageFigures};
use vstd::prelude::*;
use vstd::string::StringExecFns;

verus! {

/// Why a fetch brought no usage summary.
#[derive(Debug, PartialEq, Eq)]
pub enum FetchError {
    /// No answer was complete within the time allowed.
    Timeout,
    /// The request could not be sent or the answer not be read; with the
    /// transport's description of what went wrong.
    Transport(String),
    /// The answer was not a usage summary; with the decoder's description
    /// of what went wrong.
    Decode(String),
}

/// The message for a fetch that ran out of time.
pub open spec fn timeout_text() -> Seq<char> {
    "获取流量信息超时"@
}

/// The message for a fetch that failed, with the failure's description
/// `detail`.
pub open spec fn failure_text(detail: Seq<char>) -> Seq<char> {
    "获取流量信息时发生错误："@ + detail
}

/// The message that tells the chat about `error`.
pub open spec fn error_text(error: FetchError) -> Seq<char> {
    match error {
        FetchError::Timeout => timeout_text(),
        FetchError::Transport(detail) => failure_text(detail@),
        FetchError::Decode(detail) => failure_text(detail@),
    }
}

/// What the chat is told about a fetch that ended in `fetched`: the
/// report on success, else the error's message.
pub open spec fn reply_text(fetched: Result<UsageFigures, FetchError>) -> Seq<char> {
    match fetched {
        Ok(figures) => report_text(figures),
        Err(error) => error_text(error),
    }
}

impl FetchError {
    /// The message that tells the chat about this error.
    pub fn message(&self) -> (text: String)
        ensures
            text@ == error_text(*self),
    {
        match self {
            FetchError::Timeout => String::from_str("获取流量信息超时"),
            FetchError::Transport(detail) => String::from_str("获取流量信息时发生错误：").concat(
                detail.as_str(),
            ),
            FetchError::Decode(detail) => String::from_str("获取流量信息时发生错误：").concat(
                detail.as_str(),
            ),
        }
    }
}

/// Turns the ending of a fetch into the report or into the error message:
/// never both, never neither.
pub fn usage_report(fetched: &Result<UsageFigures, FetchError>) -> (outcome: Result<
    String,
    String,
>)
    ensures
        outcome is Ok <==> *fetched is Ok,
        match outcome {
            Ok(report) => report@ == reply_text(*fetched),
            Err(message) => message@ == reply_text(*fetched),
        },
{
    match fetched {
        Ok(figures) => Ok(render_report(figures)),
        Err(error) => Err(error.message()),
    }
}

/// The message for a timeout is never the message for a failure, whatever
/// the failure's description.
pub proof fn lemma_timeout_is_no_failure(detail: Seq<char>)
    ensures
        timeout_text() != failure_text(detail),
{
    reveal_strlit("获取流量信息超时");
    reveal_strlit("获取流量信息时发生错误：");
    assert(timeout_text().len() == 8);
    assert(failure_text(detail).len() == 12 + detail.len());
}

/// The message for a failure ends in the failure's description, in full.
pub proof fn lemma_failure_text_holds_detail(detail: Seq<char>)
    ensures
        failure_text(detail).len() >= detail.len(),
        failure_text(detail).subrange(
            failure_text(detail).len() - detail.len(),
            failure_text(detail).len() as int,
        ) == detail,
{
    let prefix = "获取流量信息时发生错误："@;
    assert((prefix + detail).subrange(prefix.len() as int, (prefix + detail).len() as int)
        =~= detail);
}

} // verus!
