//! Local chat: message history, pings and tab-completion of user names.
//! The network carries `ChatMessage`s; this module decides what they do.

use crate::history::{push_capped, spec_push_capped};
use crate::text::{
    byte_len, chars_of, clear_string, is_substring, prefixed, str_contains, trim, trim_spec,
    utf8_len,
};
use std::collections::VecDeque;
use vstd::prelude::*;

verus! {

/// Maximum number of chat messages to keep in history.
pub const MAX_CHAT_MESSAGES: usize = 50;

/// Maximum message length, in bytes.
pub const MAX_MESSAGE_LEN: usize = 500;

/// Maximum sender identity length accepted from the network, in bytes.
pub const MAX_SENDER_LEN: usize = 200;

/// A single chat message transmitted over the network.
#[derive(Debug, Clone)]
pub struct ChatMessage {
    pub sender: String,
    pub content: String,
    /// Unix epoch seconds.
    pub timestamp: u64,
}

/// A chat message as a triple of sender, content and timestamp.
pub type MessageView = (Seq<char>, Seq<char>, u64);

impl View for ChatMessage {
    type V = MessageView;

    open spec fn view(&self) -> MessageView {
        (self.sender@, self.content@, self.timestamp)
    }
}

impl ChatMessage {
    /// A copy of the message.
    pub fn duplicate(&self) -> (m: ChatMessage)
        ensures
            m@ == self@,
    {
        ChatMessage {
            sender: self.sender.clone(),
            content: self.content.clone(),
            timestamp: self.timestamp,
        }
    }
}

/// The local chat state maintained by each game instance.
pub struct ChatState {
    /// This user's identity: user@hostname.
    pub identity: String,
    /// Current input buffer for composing messages.
    pub input_buffer: String,
    /// All received (and sent) chat messages, oldest first.
    pub messages: VecDeque<ChatMessage>,
    /// Known users seen in chat (for tab-completion of pings).
    pub known_users: Vec<String>,
    /// Whether the chat panel is currently visible.
    pub chat_open: bool,
    /// Whether this user was pinged (triggers bell on next render).
    pub pending_ping: bool,
    /// Position in tab-completion cycle (None if not cycling).
    pub tab_index: Option<usize>,
    /// The partial text before tab-completion started (used to filter candidates).
    pub tab_prefix: Option<String>,
}

/// The views of a list of messages.
pub open spec fn message_views(m: Seq<ChatMessage>) -> Seq<MessageView> {
    m.map_values(|x: ChatMessage| x@)
}

/// The views of a list of strings.
pub open spec fn string_views(s: Seq<String>) -> Seq<Seq<char>> {
    s.map_values(|x: String| x@)
}

/// The ping that addresses `identity`: a dollar sign followed by it.
pub open spec fn ping_of(identity: Seq<char>) -> Seq<char> {
    seq!['$'] + identity
}

/// Whether `content` pings `identity`.
pub open spec fn pings(content: Seq<char>, identity: Seq<char>) -> bool {
    is_substring(ping_of(identity), content)
}

/// Whether a message from the network is kept: it is not one of our own, and
/// its content and sender are within their byte limits.
pub open spec fn spec_accepts(msg: MessageView, my_identity: Seq<char>) -> bool {
    &&& msg.0 != my_identity
    &&& utf8_len(msg.1) <= MAX_MESSAGE_LEN
    &&& utf8_len(msg.0) <= MAX_SENDER_LEN
}

/// Whether a message received from the network is kept: messages from this
/// user are already in the history, and over-long content or senders are
/// rejected.
pub fn accepts_incoming(msg: &ChatMessage, my_identity: &String) -> (keep: bool)
    ensures
        keep == spec_accepts(msg@, my_identity@),
{
    if msg.sender == *my_identity {
        return false;
    }
    byte_len(&msg.content) <= MAX_MESSAGE_LEN && byte_len(&msg.sender) <= MAX_SENDER_LEN
}

/// The known users, history and ping flag after receiving `batch` in order:
/// each new sender becomes known, a message that pings `identity` raises the
/// flag, and each message joins the history, which keeps the latest
/// `MAX_CHAT_MESSAGES`.
pub open spec fn receive_all(
    users: Seq<Seq<char>>,
    messages: Seq<MessageView>,
    pinged: bool,
    identity: Seq<char>,
    batch: Seq<MessageView>,
) -> (Seq<Seq<char>>, Seq<MessageView>, bool)
    decreases batch.len(),
{
    if batch.len() == 0 {
        (users, messages, pinged)
    } else {
        let m = batch[0];
        receive_all(
            if users.contains(m.0) {
                users
            } else {
                users.push(m.0)
            },
            spec_push_capped(messages, m, MAX_CHAT_MESSAGES as nat),
            pinged || pings(m.1, identity),
            identity,
            batch.drop_first(),
        )
    }
}

/// Receiving a batch keeps the history within `MAX_CHAT_MESSAGES` entries,
/// ending with the batch's last message, keeps the known users free of
/// repeats while every earlier user and every sender of the batch becomes
/// known, and leaves the ping flag raised exactly when it already was or a
/// message of the batch pings `identity`.
pub proof fn lemma_receive_all_invariants(
    users: Seq<Seq<char>>,
    messages: Seq<MessageView>,
    pinged: bool,
    identity: Seq<char>,
    batch: Seq<MessageView>,
)
    requires
        messages.len() <= MAX_CHAT_MESSAGES,
        users.no_duplicates(),
    ensures
        MAX_CHAT_MESSAGES == 50 && MAX_MESSAGE_LEN == 500 && MAX_SENDER_LEN == 200,
        receive_all(users, messages, pinged, identity, batch).1.len() <= MAX_CHAT_MESSAGES,
        batch.len() > 0 ==> receive_all(users, messages, pinged, identity, batch).1.last()
            == batch.last(),
        receive_all(users, messages, pinged, identity, batch).0.no_duplicates(),
        forall|x: Seq<char>|
            users.contains(x) ==> #[trigger] receive_all(
                users,
                messages,
                pinged,
                identity,
                batch,
            ).0.contains(x),
        forall|i: int|
            0 <= i < batch.len() ==> receive_all(users, messages, pinged, identity, batch).0.contains(
                #[trigger] batch[i].0,
            ),
        receive_all(users, messages, pinged, identity, batch).2 == (pinged || exists|i: int|
            0 <= i < batch.len() && #[trigger] pings(batch[i].1, identity)),
    decreases batch.len(),
{
    if batch.len() > 0 {
        let m = batch[0];
        let users2 = if users.contains(m.0) {
            users
        } else {
            users.push(m.0)
        };
        let messages2 = spec_push_capped(messages, m, MAX_CHAT_MESSAGES as nat);
        let pinged2 = pinged || pings(m.1, identity);
        let rest = batch.drop_first();
        crate::history::lemma_push_capped_bounded(messages, m, MAX_CHAT_MESSAGES as nat);
        assert(users2.no_duplicates()) by {
            if !users.contains(m.0) {
                assert forall|a: int, b: int|
                    0 <= a < users2.len() && 0 <= b < users2.len() && a != b implies users2[a]
                    != users2[b] by {
                    if a < users.len() && b < users.len() {
                    } else if a < users.len() {
                        assert(users[a] == users2[a]);
                    } else if b < users.len() {
                        assert(users[b] == users2[b]);
                    }
                }
            }
        }
        assert(users2.contains(m.0)) by {
            if !users.contains(m.0) {
                assert(users2[users.len() as int] == m.0);
            }
        }
        assert forall|x: Seq<char>| users.contains(x) implies users2.contains(x) by {
            if !users.contains(m.0) {
                let j = choose|j: int| 0 <= j < users.len() && users[j] == x;
                assert(users2[j] == x);
            }
        }
        lemma_receive_all_invariants(users2, messages2, pinged2, identity, rest);
        let r = receive_all(users2, messages2, pinged2, identity, rest);
        assert(r == receive_all(users, messages, pinged, identity, batch));
        assert forall|i: int| 0 <= i < batch.len() implies r.0.contains(#[trigger] batch[i].0) by {
            if i > 0 {
                assert(batch[i] == rest[i - 1]);
            }
        }
        if rest.len() > 0 {
            assert(rest.last() == batch.last());
        } else {
            assert(batch.last() == m);
        }
        if exists|i: int| 0 <= i < batch.len() && #[trigger] pings(batch[i].1, identity) {
            let i = choose|i: int| 0 <= i < batch.len() && #[trigger] pings(batch[i].1, identity);
            if i > 0 {
                assert(pings(rest[i - 1].1, identity));
            }
        }
        if exists|i: int| 0 <= i < rest.len() && #[trigger] pings(rest[i].1, identity) {
            let i = choose|i: int| 0 <= i < rest.len() && #[trigger] pings(rest[i].1, identity);
            assert(batch[i + 1] == rest[i]);
            assert(pings(batch[i + 1].1, identity));
        }
    }
}

/// Whether `list` holds a string equal to `s`.
fn contains_string(list: &Vec<String>, s: &String) -> (found: bool)
    ensures
        found == string_views(list@).contains(s@),
{
    let mut i: usize = 0;
    while i < list.len()
        invariant
            i <= list@.len(),
            forall|j: int| 0 <= j < i ==> list@[j]@ != s@,
        decreases list@.len() - i,
    {
        if list[i] == *s {
            proof {
                assert(string_views(list@)[i as int] == s@);
            }
            return true;
        }
        i = i + 1;
    }
    proof {
        if string_views(list@).contains(s@) {
            let j = choose|j: int| 0 <= j < string_views(list@).len() && string_views(list@)[j] == s@;
            assert(list@[j]@ == s@);
        }
    }
    false
}

/// Index of the last dollar sign in `buf`, or -1 when there is none.
pub open spec fn last_dollar(buf: Seq<char>) -> int
    decreases buf.len(),
{
    if buf.len() == 0 {
        -1
    } else if buf.last() == '$' {
        buf.len() - 1
    } else {
        last_dollar(buf.drop_last())
    }
}

/// Where the ping being typed starts: at the last dollar sign when no space
/// follows it (or when a completion cycle is under way), otherwise at the end.
pub open spec fn ping_start(buf: Seq<char>, cycling: bool) -> int {
    let p = last_dollar(buf);
    if p >= 0 && (!buf.subrange(p, buf.len() as int).contains(' ') || cycling) {
        p
    } else {
        buf.len() as int
    }
}

/// `s` without its leading dollar signs.
pub open spec fn strip_dollars(s: Seq<char>) -> Seq<char>
    decreases s.len(),
{
    if s.len() > 0 && s[0] == '$' {
        strip_dollars(s.drop_first())
    } else {
        s
    }
}

/// The users, in order, that a completion of `search` can offer: everyone but
/// this user whose lowercase name contains `search`.
pub open spec fn completion_candidates(
    users: Seq<Seq<char>>,
    identity: Seq<char>,
    search: Seq<char>,
) -> Seq<Seq<char>>
    decreases users.len(),
{
    if users.len() == 0 {
        Seq::empty()
    } else {
        let rest = completion_candidates(users.drop_last(), identity, search);
        let u = users.last();
        if u != identity && is_substring(search, crate::text::lowercase(u)) {
            rest.push(u)
        } else {
            rest
        }
    }
}

/// The users, in order, whose entry in `lowered` contains `search`, this user
/// excepted.
pub open spec fn candidates_from(
    users: Seq<Seq<char>>,
    lowered: Seq<Seq<char>>,
    identity: Seq<char>,
    search: Seq<char>,
) -> Seq<Seq<char>>
    decreases users.len(),
{
    if users.len() == 0 {
        Seq::empty()
    } else {
        let rest = candidates_from(users.drop_last(), lowered.drop_last(), identity, search);
        let u = users.last();
        if u != identity && is_substring(search, lowered.last()) {
            rest.push(u)
        } else {
            rest
        }
    }
}

/// With the lowercase names in `lowered`, the candidates are those of
/// `completion_candidates`.
proof fn lemma_candidates_from_lowercase(
    users: Seq<Seq<char>>,
    lowered: Seq<Seq<char>>,
    identity: Seq<char>,
    search: Seq<char>,
)
    requires
        lowered.len() == users.len(),
        forall|j: int| 0 <= j < users.len() ==> #[trigger] lowered[j] == crate::text::lowercase(users[j]),
    ensures
        candidates_from(users, lowered, identity, search) == completion_candidates(
            users,
            identity,
            search,
        ),
    decreases users.len(),
{
    if users.len() > 0 {
        let (u2, l2) = (users.drop_last(), lowered.drop_last());
        assert forall|j: int| 0 <= j < u2.len() implies #[trigger] l2[j] == crate::text::lowercase(u2[j]) by {
            assert(l2[j] == lowered[j]);
            assert(u2[j] == users[j]);
        }
        lemma_candidates_from_lowercase(u2, l2, identity, search);
        assert(lowered.last() == lowered[users.len() - 1]);
    }
}

proof fn lemma_last_dollar_bounds(buf: Seq<char>)
    ensures
        -1 <= last_dollar(buf) < buf.len(),
        last_dollar(buf) >= 0 ==> buf[last_dollar(buf)] == '$',
        forall|j: int| last_dollar(buf) < j < buf.len() ==> buf[j] != '$',
    decreases buf.len(),
{
    if buf.len() > 0 && buf.last() != '$' {
        lemma_last_dollar_bounds(buf.drop_last());
        assert forall|j: int| last_dollar(buf) < j < buf.len() implies buf[j] != '$' by {
            if j < buf.len() - 1 {
                assert(buf[j] == buf.drop_last()[j]);
            }
        }
    }
}

/// Index of the last dollar sign in `chars`, if any.
fn find_last_dollar(chars: &Vec<char>) -> (p: Option<usize>)
    ensures
        match p {
            Some(i) => i == last_dollar(chars@),
            None => last_dollar(chars@) == -1,
        },
{
    let mut i = chars.len();
    proof {
        assert(chars@.take(i as int) =~= chars@);
    }
    while i > 0
        invariant
            i <= chars@.len(),
            last_dollar(chars@) == last_dollar(chars@.take(i as int)),
        decreases i,
    {
        proof {
            assert(chars@.take(i as int).drop_last() =~= chars@.take(i - 1));
        }
        if chars[i - 1] == '$' {
            return Some(i - 1);
        }
        i = i - 1;
    }
    None
}

/// Whether `chars[from..]` holds a space.
fn has_space_from(chars: &Vec<char>, from: usize) -> (found: bool)
    requires
        from <= chars@.len(),
    ensures
        found == chars@.subrange(from as int, chars@.len() as int).contains(' '),
{
    let mut i = from;
    while i < chars.len()
        invariant
            from <= i <= chars@.len(),
            forall|j: int| from <= j < i ==> chars@[j] != ' ',
        decreases chars@.len() - i,
    {
        if chars[i] == ' ' {
            proof {
                assert(chars@.subrange(from as int, chars@.len() as int)[i - from] == ' ');
            }
            return true;
        }
        i = i + 1;
    }
    proof {
        let sub = chars@.subrange(from as int, chars@.len() as int);
        if sub.contains(' ') {
            let k = choose|k: int| 0 <= k < sub.len() && sub[k] == ' ';
            assert(chars@[from + k] == ' ');
        }
    }
    false
}

/// Where the ping being typed in `chars` starts (see `ping_start`).
fn find_ping_start(chars: &Vec<char>, cycling: bool) -> (start: usize)
    ensures
        start == ping_start(chars@, cycling),
{
    proof {
        lemma_last_dollar_bounds(chars@);
    }
    match find_last_dollar(chars) {
        Some(pos) => {
            if !has_space_from(chars, pos) || cycling {
                pos
            } else {
                chars.len()
            }
        },
        None => chars.len(),
    }
}

/// `s` without its leading dollar signs.
fn without_leading_dollars(s: &String) -> (r: String)
    ensures
        r@ == strip_dollars(s@),
{
    let chars = chars_of(s.as_str());
    let mut i: usize = 0;
    proof {
        assert(chars@.skip(0) =~= chars@);
    }
    while i < chars.len() && chars[i] == '$'
        invariant
            i <= chars@.len(),
            strip_dollars(chars@) == strip_dollars(chars@.skip(i as int)),
        decreases chars@.len() - i,
    {
        proof {
            assert(chars@.skip(i as int).drop_first() =~= chars@.skip(i + 1));
        }
        i = i + 1;
    }
    proof {
        assert(chars@.skip(i as int) =~= chars@.subrange(i as int, chars@.len() as int));
    }
    crate::text::string_from_chars(&chars, i, chars.len())
}

impl ChatState {
    /// The history holds at most `MAX_CHAT_MESSAGES` messages and no user is
    /// known twice.
    pub open spec fn wf(&self) -> bool {
        &&& self.messages@.len() <= MAX_CHAT_MESSAGES
        &&& string_views(self.known_users@).no_duplicates()
    }

    /// A fresh chat for `identity`: closed, empty, with no ping pending.
    pub fn new(identity: String) -> (c: ChatState)
        ensures
            c.wf(),
            c.identity@ == identity@,
            c.input_buffer@ == Seq::<char>::empty(),
            c.messages@.len() == 0,
            c.known_users@.len() == 0,
            !c.chat_open,
            !c.pending_ping,
            c.tab_index is None,
            c.tab_prefix is None,
    {
        ChatState {
            identity,
            input_buffer: String::new(),
            messages: VecDeque::new(),
            known_users: Vec::new(),
            chat_open: false,
            pending_ping: false,
            tab_index: None,
            tab_prefix: None,
        }
    }

    /// Check if this message contains a ping for any known user.
    pub fn message_contains_ping(content: &str) -> (p: bool)
        ensures
            p == content@.contains('$'),
    {
        let found = str_contains(content, "$");
        proof {
            reveal_strlit("$");
            if found {
                let i = choose|i: int|
                    0 <= i && i + 1 <= content@.len() && #[trigger] content@.subrange(i, i + 1)
                        == "$"@;
                assert(content@.subrange(i, i + 1)[0] == content@[i]);
            }
            if content@.contains('$') {
                let i = choose|i: int| 0 <= i < content@.len() && content@[i] == '$';
                assert(content@.subrange(i, i + 1) =~= "$"@);
            }
        }
        found
    }

    /// Check if a specific user is pinged in the content.
    pub fn is_user_pinged(content: &str, identity: &str) -> (p: bool)
        ensures
            p == pings(content@, identity@),
    {
        let ping = prefixed("$", identity);
        proof {
            reveal_strlit("$");
            assert(ping@ =~= ping_of(identity@));
        }
        str_contains(content, ping.as_str())
    }

    /// Consume the pending ping flag and return whether a bell should be played.
    pub fn consume_ping(&mut self) -> (bell: bool)
        ensures
            bell == old(self).pending_ping,
            !final(self).pending_ping,
            final(self).identity == old(self).identity,
            final(self).input_buffer == old(self).input_buffer,
            final(self).messages == old(self).messages,
            final(self).known_users == old(self).known_users,
            final(self).chat_open == old(self).chat_open,
            final(self).tab_index == old(self).tab_index,
            final(self).tab_prefix == old(self).tab_prefix,
    {
        if self.pending_ping {
            self.pending_ping = false;
            true
        } else {
            false
        }
    }

    /// Reset tab completion state (call when user types a non-tab key).
    pub fn reset_tab(&mut self)
        ensures
            final(self).tab_index is None,
            final(self).tab_prefix is None,
            final(self).identity == old(self).identity,
            final(self).input_buffer == old(self).input_buffer,
            final(self).messages == old(self).messages,
            final(self).known_users == old(self).known_users,
            final(self).chat_open == old(self).chat_open,
            final(self).pending_ping == old(self).pending_ping,
    {
        self.tab_index = None;
        self.tab_prefix = None;
    }
    /// Take in messages received from the network, in order (see `receive_all`).
    pub fn poll_incoming(&mut self, batch: Vec<ChatMessage>)
        ensures
            (
                string_views(final(self).known_users@),
                message_views(final(self).messages@),
                final(self).pending_ping,
            ) == receive_all(
                string_views(old(self).known_users@),
                message_views(old(self).messages@),
                old(self).pending_ping,
                old(self).identity@,
                message_views(batch@),
            ),
            final(self).identity == old(self).identity,
            final(self).input_buffer == old(self).input_buffer,
            final(self).chat_open == old(self).chat_open,
            final(self).tab_index == old(self).tab_index,
            final(self).tab_prefix == old(self).tab_prefix,
            old(self).wf() ==> final(self).wf(),
    {
        proof {
            if self.wf() {
                lemma_receive_all_invariants(
                    string_views(self.known_users@),
                    message_views(self.messages@),
                    self.pending_ping,
                    self.identity@,
                    message_views(batch@),
                );
            }
        }
        let ghost target = receive_all(
            string_views(self.known_users@),
            message_views(self.messages@),
            self.pending_ping,
            self.identity@,
            message_views(batch@),
        );
        let ping = prefixed("$", self.identity.as_str());
        proof {
            reveal_strlit("$");
            assert(ping@ =~= ping_of(self.identity@));
            assert(message_views(batch@).skip(0) =~= message_views(batch@));
        }
        let mut i: usize = 0;
        while i < batch.len()
            invariant
                i <= batch@.len(),
                ping@ == ping_of(self.identity@),
                self.identity == old(self).identity,
                self.input_buffer == old(self).input_buffer,
                self.chat_open == old(self).chat_open,
                self.tab_index == old(self).tab_index,
                self.tab_prefix == old(self).tab_prefix,
                target == receive_all(
                    string_views(self.known_users@),
                    message_views(self.messages@),
                    self.pending_ping,
                    self.identity@,
                    message_views(batch@).skip(i as int),
                ),
            decreases batch@.len() - i,
        {
            let msg = batch[i].duplicate();
            let ghost users_before = string_views(self.known_users@);
            let ghost messages_before = message_views(self.messages@);
            if !contains_string(&self.known_users, &msg.sender) {
                self.known_users.push(msg.sender.clone());
                proof {
                    assert(string_views(self.known_users@) =~= users_before.push(msg.sender@));
                }
            }
            if str_contains(msg.content.as_str(), ping.as_str()) {
                self.pending_ping = true;
            }
            push_capped(&mut self.messages, msg, MAX_CHAT_MESSAGES);
            proof {
                let pushed = spec_push_capped(self.messages@, msg, MAX_CHAT_MESSAGES as nat);
                assert(message_views(self.messages@) =~= spec_push_capped(
                    messages_before,
                    msg@,
                    MAX_CHAT_MESSAGES as nat,
                ));
                assert(message_views(batch@).skip(i as int)[0] == msg@);
                assert(message_views(batch@).skip(i as int).drop_first() =~= message_views(
                    batch@,
                ).skip(i + 1));
            }
            i = i + 1;
        }
        proof {
            assert(message_views(batch@).skip(i as int) =~= Seq::<MessageView>::empty());
        }
    }

    /// Send the current input buffer as a chat message: its trimmed text, when
    /// not empty and within `MAX_MESSAGE_LEN` bytes, joins the history as a
    /// message from this user stamped `now`, and the buffer and tab completion
    /// are reset. Returns the message to broadcast, or `None` when nothing is sent.
    pub fn send_message(&mut self, now: u64) -> (sent: Option<ChatMessage>)
        ensures
            ({
                let content = trim_spec(old(self).input_buffer@);
                if content.len() == 0 || utf8_len(content) > MAX_MESSAGE_LEN {
                    &&& sent is None
                    &&& final(self).input_buffer == old(self).input_buffer
                    &&& final(self).messages == old(self).messages
                    &&& final(self).tab_index == old(self).tab_index
                    &&& final(self).tab_prefix == old(self).tab_prefix
                } else {
                    &&& sent matches Some(m) && m@ == (old(self).identity@, content, now)
                    &&& message_views(final(self).messages@) == spec_push_capped(
                        message_views(old(self).messages@),
                        (old(self).identity@, content, now),
                        MAX_CHAT_MESSAGES as nat,
                    )
                    &&& final(self).input_buffer@ == Seq::<char>::empty()
                    &&& final(self).tab_index is None
                    &&& final(self).tab_prefix is None
                }
            }),
            final(self).identity == old(self).identity,
            final(self).known_users == old(self).known_users,
            final(self).chat_open == old(self).chat_open,
            final(self).pending_ping == old(self).pending_ping,
            old(self).wf() ==> final(self).wf(),
    {
        let trimmed = trim(self.input_buffer.as_str());
        let content = trimmed.to_string();
        if trimmed.is_empty() || byte_len(&content) > MAX_MESSAGE_LEN {
            return None;
        }
        let msg = ChatMessage { sender: self.identity.clone(), content, timestamp: now };
        let ghost before = message_views(self.messages@);
        let copy = msg.duplicate();
        let ghost wf_before = self.wf();
        push_capped(&mut self.messages, copy, MAX_CHAT_MESSAGES);
        proof {
            if wf_before {
                assert(self.messages@.len() <= MAX_CHAT_MESSAGES);
            }
            assert(message_views(self.messages@) =~= spec_push_capped(
                before,
                msg@,
                MAX_CHAT_MESSAGES as nat,
            ));
        }
        clear_string(&mut self.input_buffer);
        self.tab_index = None;
        self.tab_prefix = None;
        Some(msg)
    }
    /// Puts the next user matching `search` in place of the ping being typed,
    /// which starts at `start`: the candidates are the known users other than
    /// this one whose entry in `lowered` contains `search`, taken in order, and
    /// each call moves to the next of them, wrapping round.
    pub fn complete_with(&mut self, start: usize, search: &str, lowered: &Vec<String>)
        requires
            start <= old(self).input_buffer@.len(),
            lowered@.len() == old(self).known_users@.len(),
            old(self).tab_index matches Some(i) ==> i < usize::MAX,
        ensures
            ({
                let buf = old(self).input_buffer@;
                let candidates = candidates_from(
                    string_views(old(self).known_users@),
                    string_views(lowered@),
                    old(self).identity@,
                    search@,
                );
                if candidates.len() == 0 {
                    &&& final(self).input_buffer == old(self).input_buffer
                    &&& final(self).tab_index == old(self).tab_index
                } else {
                    let idx = match old(self).tab_index {
                        Some(i) => (i + 1) % (candidates.len() as int),
                        None => 0,
                    };
                    &&& final(self).tab_index == Some(idx as usize)
                    &&& final(self).input_buffer@ == buf.take(start as int) + seq!['$']
                        + candidates[idx] + seq![' ']
                }
            }),
            final(self).identity == old(self).identity,
            final(self).messages == old(self).messages,
            final(self).known_users == old(self).known_users,
            final(self).chat_open == old(self).chat_open,
            final(self).pending_ping == old(self).pending_ping,
            final(self).tab_prefix == old(self).tab_prefix,
    {
        let mut candidates: Vec<String> = Vec::new();
        let mut i: usize = 0;
        while i < self.known_users.len()
            invariant
                i <= self.known_users@.len(),
                lowered@.len() == self.known_users@.len(),
                string_views(candidates@) == candidates_from(
                    string_views(self.known_users@).take(i as int),
                    string_views(lowered@).take(i as int),
                    self.identity@,
                    search@,
                ),
            decreases self.known_users@.len() - i,
        {
            proof {
                assert(string_views(self.known_users@).take(i + 1).drop_last() =~= string_views(
                    self.known_users@,
                ).take(i as int));
                assert(string_views(lowered@).take(i + 1).drop_last() =~= string_views(
                    lowered@,
                ).take(i as int));
            }
            let user = &self.known_users[i];
            if *user != self.identity {
                if str_contains(lowered[i].as_str(), search) {
                    let ghost before = string_views(candidates@);
                    candidates.push(user.clone());
                    proof {
                        assert(string_views(candidates@) =~= before.push(user@));
                    }
                }
            }
            i = i + 1;
        }
        proof {
            assert(string_views(self.known_users@).take(i as int) =~= string_views(
                self.known_users@,
            ));
            assert(string_views(lowered@).take(i as int) =~= string_views(lowered@));
        }
        if candidates.len() == 0 {
            return ;
        }
        let idx = match self.tab_index {
            Some(i) => (i + 1) % candidates.len(),
            None => 0,
        };
        self.tab_index = Some(idx);
        proof {
            assert(string_views(candidates@)[idx as int] == candidates@[idx as int]@);
        }
        let chars = chars_of(self.input_buffer.as_str());
        let mut buffer = crate::text::string_from_chars(&chars, 0, start);
        buffer.append("$");
        buffer.append(candidates[idx].as_str());
        buffer.append(" ");
        proof {
            reveal_strlit("$");
            reveal_strlit(" ");
            assert(chars@.subrange(0, start as int) =~= chars@.take(start as int));
        }
        self.input_buffer = buffer;
    }

    /// Tab-complete a ping ($user@host) in the input buffer: the partial name
    /// after the last dollar sign selects, case-insensitively, the known users
    /// other than this one, and each press puts the next of them in its place.
    pub fn tab_complete(&mut self)
        requires
            old(self).tab_index matches Some(i) ==> i < usize::MAX,
        ensures
            ({
                let buf = old(self).input_buffer@;
                let cycling = old(self).tab_prefix is Some;
                let start = ping_start(buf, cycling);
                let prefix = if cycling {
                    old(self).tab_prefix->0@
                } else if start < buf.len() {
                    buf.subrange(start, buf.len() as int)
                } else {
                    Seq::<char>::empty()
                };
                let candidates = completion_candidates(
                    string_views(old(self).known_users@),
                    old(self).identity@,
                    crate::text::lowercase(strip_dollars(prefix)),
                );
                if old(self).known_users@.len() == 0 {
                    &&& final(self).input_buffer == old(self).input_buffer
                    &&& final(self).tab_index == old(self).tab_index
                    &&& final(self).tab_prefix == old(self).tab_prefix
                } else {
                    &&& final(self).tab_prefix matches Some(p) && p@ == prefix
                    &&& cycling ==> final(self).tab_prefix == old(self).tab_prefix
                    &&& if candidates.len() == 0 {
                        &&& final(self).input_buffer == old(self).input_buffer
                        &&& final(self).tab_index == old(self).tab_index
                    } else {
                        let idx = match old(self).tab_index {
                            Some(i) => (i + 1) % (candidates.len() as int),
                            None => 0,
                        };
                        &&& final(self).tab_index == Some(idx as usize)
                        &&& final(self).input_buffer@ == buf.take(start) + seq!['$']
                            + candidates[idx] + seq![' ']
                    }
                }
            }),
            final(self).identity == old(self).identity,
            final(self).messages == old(self).messages,
            final(self).known_users == old(self).known_users,
            final(self).chat_open == old(self).chat_open,
            final(self).pending_ping == old(self).pending_ping,
    {
        if self.known_users.len() == 0 {
            return ;
        }
        let chars = chars_of(self.input_buffer.as_str());
        let cycling = self.tab_prefix.is_some();
        let start = find_ping_start(&chars, cycling);
        proof {
            lemma_last_dollar_bounds(chars@);
        }
        let prefix = match &self.tab_prefix {
            Some(p) => p.clone(),
            None => {
                let p = if start < chars.len() {
                    crate::text::string_from_chars(&chars, start, chars.len())
                } else {
                    String::new()
                };
                self.tab_prefix = Some(p.clone());
                p
            },
        };
        let search = crate::text::to_lowercase(without_leading_dollars(&prefix).as_str());
        let mut lowered: Vec<String> = Vec::new();
        let mut i: usize = 0;
        while i < self.known_users.len()
            invariant
                i <= self.known_users@.len(),
                lowered@.len() == i,
                forall|j: int|
                    0 <= j < i ==> (#[trigger] lowered@[j])@ == crate::text::lowercase(
                        self.known_users@[j]@,
                    ),
            decreases self.known_users@.len() - i,
        {
            let lower = crate::text::to_lowercase(self.known_users[i].as_str());
            lowered.push(lower);
            i = i + 1;
        }
        proof {
            lemma_candidates_from_lowercase(
                string_views(self.known_users@),
                string_views(lowered@),
                self.identity@,
                search@,
            );
        }
        self.complete_with(start, search.as_str(), &lowered);
    }
}

} // verus!
