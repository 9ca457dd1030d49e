//! The per-chat memory of the last URL that was fetched successfully.

use std::collections::HashMap;
use vstd::prelude::*;

verus! {

broadcast use vstd::std_specs::hash::group_hash_axioms;

/// What a lookup of `chat_id` finds in `urls`.
pub open spec fn lookup(urls: Map<i64, Seq<char>>, chat_id: i64) -> Option<Seq<char>> {
    if urls.contains_key(chat_id) {
        Some(urls[chat_id])
    } else {
        None
    }
}

/// The characters of an optional string.
pub open spec fn option_text(s: Option<String>) -> Option<Seq<char>> {
    match s {
        Some(s) => Some(s@),
        None => None,
    }
}

/// Maps a chat identifier to the last URL that was used successfully in
/// that chat.
pub struct ChatUrlStore {
    urls: HashMap<i64, String>,
}

impl View for ChatUrlStore {
    type V = Map<i64, Seq<char>>;

    closed spec fn view(&self) -> Map<i64, Seq<char>> {
        self.urls@.map_values(|url: String| url@)
    }
}

impl ChatUrlStore {
    /// A store that remembers nothing yet.
    pub fn new() -> (store: Self)
        ensures
            store@ == Map::<i64, Seq<char>>::empty(),
    {
        let store = ChatUrlStore { urls: HashMap::new() };
        assert(store@ =~= Map::<i64, Seq<char>>::empty());
        store
    }

    /// Remembers `url` for `chat_id`, replacing what was remembered before.
    pub fn put(&mut self, chat_id: i64, url: String)
        ensures
            final(self)@ == old(self)@.insert(chat_id, url@),
    {
        self.urls.insert(chat_id, url);
        assert(self@ =~= old(self)@.insert(chat_id, url@));
    }

    /// The URL remembered for `chat_id`, if there is one.
    pub fn get(&self, chat_id: i64) -> (url: Option<String>)
        ensures
            option_text(url) == lookup(self@, chat_id),
    {
        match self.urls.get(&chat_id) {
            Some(url) => Some(url.clone()),
            None => None,
        }
    }
}

/// What is remembered after the writes `puts`, made in this order on a
/// new store; each is a chat identifier and the URL written for it.
pub open spec fn urls_written(puts: Seq<(i64, Seq<char>)>) -> Map<i64, Seq<char>>
    decreases puts.len(),
{
    if puts.len() == 0 {
        Map::empty()
    } else {
        urls_written(puts.drop_last()).insert(puts.last().0, puts.last().1)
    }
}

/// A lookup right after a write for the same chat finds what was written.
pub proof fn lemma_put_then_get(urls: Map<i64, Seq<char>>, chat_id: i64, url: Seq<char>)
    ensures
        lookup(urls.insert(chat_id, url), chat_id) == Some(url),
{
}

/// A write for one chat changes nothing for another.
pub proof fn lemma_put_keeps_others(
    urls: Map<i64, Seq<char>>,
    chat_id: i64,
    url: Seq<char>,
    other: i64,
)
    requires
        other != chat_id,
    ensures
        lookup(urls.insert(chat_id, url), other) == lookup(urls, other),
{
}

/// A lookup finds nothing for a chat that was never written, whatever was
/// written for other chats.
pub proof fn lemma_get_never_written(puts: Seq<(i64, Seq<char>)>, chat_id: i64)
    requires
        forall|i: int| 0 <= i < puts.len() ==> (#[trigger] puts[i]).0 != chat_id,
    ensures
        lookup(urls_written(puts), chat_id) is None,
    decreases puts.len(),
{
    if puts.len() > 0 {
        let earlier = puts.drop_last();
        assert forall|i: int| 0 <= i < earlier.len() implies (#[trigger] earlier[i]).0
            != chat_id by {
            assert(earlier[i] == puts[i]);
        }
        lemma_get_never_written(earlier, chat_id);
        assert(puts.last() == puts[puts.len() - 1]);
    }
}

/// A lookup finds the last URL written for the chat.
pub proof fn lemma_get_last_written(puts: Seq<(i64, Seq<char>)>, last: int)
    requires
        0 <= last < puts.len(),
        forall|i: int| last < i < puts.len() ==> (#[trigger] puts[i]).0 != puts[last].0,
    ensures
        lookup(urls_written(puts), puts[last].0) == Some(puts[last].1),
    decreases puts.len(),
{
    if last < puts.len() - 1 {
        let earlier = puts.drop_last();
        assert forall|i: int| last < i < earlier.len() implies (#[trigger] earlier[i]).0
            != earlier[last].0 by {
            assert(earlier[i] == puts[i]);
        }
        lemma_get_last_written(earlier, last);
        assert(puts.last() == puts[puts.len() - 1]);
    }
}

} // verus!
