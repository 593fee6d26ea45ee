use vstd::prelude::*;

use std::collections::VecDeque;

use crate::text::{chars_of, push_all, replace_all, replace_all_exec, string_of};

verus! {

/// How many outbound lines may wait at once.
pub const QUEUE_CAPACITY: usize = 32;

/// The game console command that broadcasts `body` as said by `author`:
/// `/say {author}: {body}` and a line break.
pub open spec fn say_command(author: Seq<char>, body: Seq<char>) -> Seq<char> {
    seq!['/', 's', 'a', 'y', ' '] + author + seq![':', ' '] + body + seq!['\n']
}

/// The streaming endpoint for a base URL: every `http` turned into `ws`, then `/chats`.
pub open spec fn endpoint_spec(api: Seq<char>) -> Seq<char> {
    replace_all(api, seq!['h', 't', 't', 'p'], seq!['w', 's']) + seq!['/', 'c', 'h', 'a', 't', 's']
}

/// Whether a chat message is relayed to the game: it was posted in the watched
/// channel, and not by a bot.
pub fn forwards_message(channel_id: u64, watched_id: u64, from_bot: bool) -> (r: bool)
    ensures
        r == (channel_id == watched_id && !from_bot),
{
    channel_id == watched_id && !from_bot
}

/// Formats a chat message as a console command; the text is taken verbatim.
pub fn format_say(author: &str, body: &str) -> (r: String)
    ensures
        r@ == say_command(author@, body@),
{
    let mut out = chars_of("/say ");
    let a = chars_of(author);
    let sep = chars_of(": ");
    let b = chars_of(body);
    let nl = chars_of("\n");
    proof {
        reveal_strlit("/say ");
        reveal_strlit(": ");
        reveal_strlit("\n");
    }
    push_all(&mut out, &a);
    push_all(&mut out, &sep);
    push_all(&mut out, &b);
    push_all(&mut out, &nl);
    string_of(&out)
}

/// Derives the streaming endpoint from the configured base URL.
pub fn ws_endpoint(api: &str) -> (r: String)
    ensures
        r@ == endpoint_spec(api@),
{
    let v = chars_of(api);
    let pat = chars_of("http");
    let rep = chars_of("ws");
    let path = chars_of("/chats");
    proof {
        reveal_strlit("http");
        reveal_strlit("ws");
        reveal_strlit("/chats");
        assert(pat@ =~= seq!['h', 't', 't', 'p']);
        assert(rep@ =~= seq!['w', 's']);
        assert(path@ =~= seq!['/', 'c', 'h', 'a', 't', 's']);
    }
    let mut out = replace_all_exec(&v, &pat, &rep);
    push_all(&mut out, &path);
    string_of(&out)
}

/// A bounded first-in first-out buffer of lines waiting to be written to the game server.
pub struct OutboundQueue {
    items: VecDeque<String>,
}

impl View for OutboundQueue {
    type V = Seq<String>;

    closed spec fn view(&self) -> Seq<String> {
        self.items@
    }
}

impl OutboundQueue {
    /// Never more than the capacity is held.
    pub closed spec fn wf(&self) -> bool {
        self.items@.len() <= QUEUE_CAPACITY
    }

    pub fn new() -> (r: Self)
        ensures
            r.wf(),
            r@ == Seq::<String>::empty(),
    {
        OutboundQueue { items: VecDeque::new() }
    }

    pub fn len(&self) -> (r: usize)
        requires
            self.wf(),
        ensures
            r == self@.len(),
            r <= QUEUE_CAPACITY,
    {
        self.items.len()
    }

    pub fn is_full(&self) -> (r: bool)
        requires
            self.wf(),
        ensures
            r == (self@.len() == QUEUE_CAPACITY),
    {
        self.items.len() == QUEUE_CAPACITY
    }

    /// Adds `line` at the back while there is room; hands it back when the queue is full.
    pub fn try_enqueue(&mut self, line: String) -> (r: Result<(), String>)
        requires
            old(self).wf(),
        ensures
            final(self).wf(),
            old(self)@.len() < QUEUE_CAPACITY ==> r is Ok && final(self)@ == old(self)@.push(line),
            old(self)@.len() >= QUEUE_CAPACITY ==> r == Err::<(), String>(line) && final(self)@
                == old(self)@,
    {
        if self.items.len() >= QUEUE_CAPACITY {
            return Err(line);
        }
        self.items.push_back(line);
        Ok(())
    }

    /// Takes the oldest line, if any.
    pub fn dequeue(&mut self) -> (r: Option<String>)
        requires
            old(self).wf(),
        ensures
            final(self).wf(),
            old(self)@.len() == 0 ==> r is None && final(self)@ == old(self)@,
            old(self)@.len() > 0 ==> r == Some(old(self)@[0]) && final(self)@ == old(
                self,
            )@.drop_first(),
    {
        self.items.pop_front()
    }
}

} // verus!
