//! What the bot does on a command. A command is answered in at most two
//! moves: `handle` either has the reply at once or asks for one fetch, and
//! `complete` turns the ending of that fetch into the reply.

use crate::fetch::{reply_text, usage_report, FetchError};
use crate::report::UsageFigures;
use crate::store::{lookup, ChatUrlStore};
use vstd::prelude::*;
use vstd::string::StringExecFns;

verus! {

/// A command of the chat.
#[derive(Clone, Debug, PartialEq, Eq)]
pub enum Command {
    /// Fetch the usage summary from this URL.
    Usage(String),
    /// Fetch it from the URL that last worked in this chat.
    Current,
}

/// A fetch that `handle` asks for.
#[derive(Debug, PartialEq, Eq)]
pub struct PendingFetch {
    /// Where to fetch the usage summary.
    pub url: String,
    /// Whether the URL is to be remembered for the chat if the fetch
    /// succeeds.
    pub remember: bool,
}

/// The next move on a command.
#[derive(Debug, PartialEq, Eq)]
pub enum Step {
    /// Fetch the summary, then call `complete` with how it ended.
    Fetch(PendingFetch),
    /// Send this text; the command is done.
    Reply(String),
}

/// The reply to `Current` in a chat for which no URL is remembered.
pub open spec fn no_history_text() -> Seq<char> {
    "没有历史URL可用"@
}

/// The fetch that a command calls for, as the URL and whether to remember
/// it, or `None` where the command is answered without fetching.
pub open spec fn planned_fetch(urls: Map<i64, Seq<char>>, chat_id: i64, cmd: Command) -> Option<
    (Seq<char>, bool),
> {
    match cmd {
        Command::Usage(url) => Some((url@, true)),
        Command::Current => match lookup(urls, chat_id) {
            Some(url) => Some((url, false)),
            None => None,
        },
    }
}

/// The remembered URLs once a fetch for `chat_id` has ended in `fetched`:
/// the URL is written only if it was to be remembered and the fetch
/// succeeded.
pub open spec fn urls_after(
    urls: Map<i64, Seq<char>>,
    chat_id: i64,
    url: Seq<char>,
    remember: bool,
    fetched: Result<UsageFigures, FetchError>,
) -> Map<i64, Seq<char>> {
    if remember && fetched is Ok {
        urls.insert(chat_id, url)
    } else {
        urls
    }
}

/// Decides the first move on `cmd` in chat `chat_id`. `Usage` always
/// fetches its URL. `Current` fetches the remembered URL, and replies that
/// there is none where nothing is remembered.
pub fn handle(store: &ChatUrlStore, chat_id: i64, cmd: Command) -> (step: Step)
    ensures
        match planned_fetch(store@, chat_id, cmd) {
            Some((url, remember)) => step matches Step::Fetch(pending) && pending.url@ == url
                && pending.remember == remember,
            None => step matches Step::Reply(text) && text@ == no_history_text(),
        },
{
    match cmd {
        Command::Usage(url) => Step::Fetch(PendingFetch { url, remember: true }),
        Command::Current => match store.get(chat_id) {
            Some(url) => Step::Fetch(PendingFetch { url, remember: false }),
            None => Step::Reply(String::from_str("没有历史URL可用")),
        },
    }
}

/// Ends a command whose fetch ended in `fetched`: remembers the URL where
/// that is due, and returns the reply, which is the report or the error's
/// message. The store is written before the reply is handed out.
pub fn complete(
    store: &mut ChatUrlStore,
    chat_id: i64,
    pending: PendingFetch,
    fetched: &Result<UsageFigures, FetchError>,
) -> (reply: String)
    ensures
        final(store)@ == urls_after(
            old(store)@,
            chat_id,
            pending.url@,
            pending.remember,
            *fetched,
        ),
        reply@ == reply_text(*fetched),
{
    match usage_report(fetched) {
        Ok(report) => {
            if pending.remember {
                store.put(chat_id, pending.url);
            }
            report
        },
        Err(message) => message,
    }
}

/// `Current` is answered without a fetch exactly where nothing is
/// remembered for the chat.
pub proof fn lemma_current_without_history(urls: Map<i64, Seq<char>>, chat_id: i64)
    ensures
        planned_fetch(urls, chat_id, Command::Current) is None <==> !urls.contains_key(chat_id),
{
}

/// A fetch that failed leaves the store as it was, so a chat without
/// history has none afterwards either.
pub proof fn lemma_failed_fetch_keeps_store(
    urls: Map<i64, Seq<char>>,
    chat_id: i64,
    url: Seq<char>,
    remember: bool,
    fetched: Result<UsageFigures, FetchError>,
)
    requires
        fetched is Err,
    ensures
        urls_after(urls, chat_id, url, remember, fetched) == urls,
        !urls.contains_key(chat_id) ==> planned_fetch(
            urls_after(urls, chat_id, url, remember, fetched),
            chat_id,
            Command::Current,
        ) is None,
{
}

/// After a `Usage` that succeeded, `Current` fetches that same URL, and
/// the fetch for `Current` writes nothing, however it ends.
pub proof fn lemma_usage_then_current(
    urls: Map<i64, Seq<char>>,
    chat_id: i64,
    url: String,
    first: Result<UsageFigures, FetchError>,
    second: Result<UsageFigures, FetchError>,
)
    requires
        first is Ok,
    ensures
        planned_fetch(urls, chat_id, Command::Usage(url)) == Some((url@, true)),
        planned_fetch(urls_after(urls, chat_id, url@, true, first), chat_id, Command::Current)
            == Some((url@, false)),
        urls_after(urls_after(urls, chat_id, url@, true, first), chat_id, url@, false, second)
            == urls_after(urls, chat_id, url@, true, first),
{
}

} // verus!
