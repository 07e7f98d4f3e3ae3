//! Conversation sessions: their identity, which stored sessions count when
//! listing them, and which one a conversation resumes.
use vstd::prelude::*;
use crate::text::{owned, concat2, str_eq, str_lt, lex_lt, lemma_lex_total, lemma_lex_transitive, lemma_lex_irreflexive};

verus! {

/// A tool call the model asks for: its identifier, the tool's function
/// name and the arguments as JSON text.
pub struct ToolCallRequest {
    pub id: String,
    pub name: String,
    pub arguments: String,
}

/// The tokens a completion used.
#[derive(Debug, Clone, Copy, PartialEq, Eq, Structural)]
pub struct Usage {
    pub prompt_tokens: u64,
    pub completion_tokens: u64,
    pub total_tokens: u64,
}

/// One message of a conversation.
pub struct Message {
    pub role: String,
    pub reasoning: Option<String>,
    pub content: Option<String>,
    pub tool_calls: Option<Vec<ToolCallRequest>>,
    pub tool_call_id: Option<String>,
    pub usage: Option<Usage>,
}

impl Message {
    /// A message of `role` holding `content` and nothing else.
    pub fn new(role: &str, content: &str) -> (r: Message)
        ensures
            r.role@ == role@,
            r.content matches Some(c) && c@ == content@,
            r.reasoning is None,
            r.tool_calls is None,
            r.tool_call_id is None,
            r.usage is None,
    {
        Message {
            role: owned(role),
            reasoning: None,
            content: Some(owned(content)),
            tool_calls: None,
            tool_call_id: None,
            usage: None,
        }
    }

    /// The response to the tool call `id`, holding `content`.
    pub fn new_tool_call_response(id: &str, content: &str) -> (r: Message)
        ensures
            r.role@ == "tool"@,
            r.content matches Some(c) && c@ == content@,
            r.tool_call_id matches Some(i) && i@ == id@,
            r.reasoning is None,
            r.tool_calls is None,
            r.usage is None,
    {
        Message {
            role: owned("tool"),
            reasoning: None,
            content: Some(owned(content)),
            tool_calls: None,
            tool_call_id: Some(owned(id)),
            usage: None,
        }
    }
}

/// The messages begin with a system message.
pub open spec fn starts_with_system(ms: Seq<Message>) -> bool {
    ms.len() > 0 && ms[0].role@ == "system"@
}

/// The message holds the text `t`.
pub open spec fn holds_text(m: Message, t: Seq<char>) -> bool {
    m.content matches Some(c) && c@ == t
}

/// The messages of a conversation, in order.
pub struct History {
    pub messages: Vec<Message>,
}

impl History {
    /// An empty history.
    pub fn new() -> (r: History)
        ensures
            r.messages@.len() == 0,
    {
        History { messages: Vec::new() }
    }

    /// Sets the system prompt: the content of a leading system message is
    /// replaced, or a system message is put in front.
    pub fn set_system_prompt(&mut self, prompt: &str)
        ensures
            starts_with_system(old(self).messages@) ==> final(self).messages@.len() == old(
                self,
            ).messages@.len() && holds_text(final(self).messages@[0], prompt@)
                && final(self).messages@[0].role@ == "system"@ && final(self).messages@.skip(1)
                == old(self).messages@.skip(1),
            !starts_with_system(old(self).messages@) ==> final(self).messages@.len() == old(
                self,
            ).messages@.len() + 1 && holds_text(final(self).messages@[0], prompt@)
                && final(self).messages@[0].role@ == "system"@ && final(self).messages@.skip(1)
                == old(self).messages@,
    {
        if self.messages.len() > 0 && str_eq(self.messages[0].role.as_str(), "system") {
            let mut m = self.messages.remove(0);
            m.content = Some(owned(prompt));
            self.messages.insert(0, m);
        } else {
            self.messages.insert(0, Message::new("system", prompt));
        }
    }

    /// Appends a message.
    pub fn add_message(&mut self, m: Message)
        ensures
            final(self).messages@ == old(self).messages@.push(m),
    {
        self.messages.push(m);
    }
}

/// A stored conversation. Times are kept as RFC 3339 text.
pub struct Session {
    pub version: String,
    pub id: String,
    pub title: String,
    pub owner: String,
    pub platform: String,
    pub channel: String,
    pub created: String,
    pub modified: String,
    pub history: History,
}

/// What a listing reads of a stored conversation: everything but its history.
pub struct PartialSession {
    pub version: String,
    pub id: String,
    pub title: String,
    pub owner: String,
    pub platform: String,
    pub channel: String,
    pub created: String,
    pub modified: String,
}

/// The session format this version reads and writes.
pub open spec fn session_version() -> Seq<char> {
    "2"@
}

/// The identifier of a session across platforms and channels.
pub open spec fn extended_id(platform: Seq<char>, channel: Seq<char>, id: Seq<char>) -> Seq<char> {
    "mia-agent_"@ + platform + ":"@ + channel + "_"@ + id
}

/// `c` is a lower-case hexadecimal digit.
pub open spec fn is_lower_hex(c: char) -> bool {
    ('0' <= c && c <= '9') || ('a' <= c && c <= 'f')
}

/// A UUID in its hyphenated lower-case form, such as
/// `67e55044-10b1-426f-9247-bb680e5fe0c8`: 36 characters, hyphens after
/// the 8th, 12th, 16th and 20th hexadecimal digit.
pub open spec fn is_hyphenated_uuid(s: Seq<char>) -> bool {
    &&& s.len() == 36
    &&& forall|i: int|
        0 <= i < 36 ==> if i == 8 || i == 13 || i == 18 || i == 23 {
            s[i] == '-'
        } else {
            is_lower_hex(s[i])
        }
}

/// A fresh session identifier. Trusted: `uuid::Uuid::now_v7`, written by
/// its `Display`, which is the hyphenated lower-case form (uuid's
/// `format_hyphenated`). Which identifier comes out depends on the clock
/// and on chance, so nothing more is stated; uuid documents that the
/// identifiers one process makes this way are ordered by creation, which
/// a contract of a single call cannot say.
#[verifier::external_body]
fn new_session_id() -> (r: String)
    ensures
        is_hyphenated_uuid(r@),
{
    uuid::Uuid::now_v7().to_string()
}

/// The local time in RFC 3339 form. Trusted: `chrono::Local::now` and
/// `to_rfc3339`; it reads the clock, so nothing is stated of it.
#[verifier::external_body]
fn local_now_rfc3339() -> String {
    chrono::Local::now().to_rfc3339()
}

impl Session {
    /// A new, empty session of `owner` on `platform` and `channel`. The
    /// extended identifier must fit in 256 bytes; with the 36 bytes of the
    /// identifier that leaves 208 for the platform and the channel.
    pub fn new(owner: &str, platform: &str, channel: &str) -> (r: Session)
        requires
            crate::tools::byte_len(platform@) + crate::tools::byte_len(channel@) <= 208,
        ensures
            r.version@ == session_version(),
            r.title@ == Seq::<char>::empty(),
            r.owner@ == owner@,
            r.platform@ == platform@,
            r.channel@ == channel@,
            r.history.messages@.len() == 0,
            is_hyphenated_uuid(r.id@),
    {
        proof {
            reveal_strlit("2");
        }
        Session {
            version: owned("2"),
            id: new_session_id(),
            title: String::new(),
            owner: owned(owner),
            platform: owned(platform),
            channel: owned(channel),
            created: local_now_rfc3339(),
            modified: local_now_rfc3339(),
            history: History::new(),
        }
    }

    /// The identifier of the session across platforms and channels.
    pub fn get_extended_session_id(&self) -> (r: String)
        ensures
            r@ == extended_id(self.platform@, self.channel@, self.id@),
    {
        let mut s = concat2("mia-agent_", self.platform.as_str());
        s.append(":");
        s.append(self.channel.as_str());
        s.append("_");
        s.append(self.id.as_str());
        s
    }
}

/// The listing entry of a file holding an unreadable or outdated session.
pub open spec fn invalid_entry_id(file_name: Seq<char>) -> Seq<char> {
    "INVALID SESSION: "@ + file_name
}

/// The entry a stored file contributes to a listing: the session read from
/// it when it has the current version, else a placeholder named after the
/// file when invalid ones are kept.
pub fn listing_entry(parsed: Option<PartialSession>, file_name: &str, keep_invalid: bool) -> (r:
    Option<PartialSession>)
    ensures
        match parsed {
            Some(p) if p.version@ == session_version() => r == Some(p),
            _ => if keep_invalid {
                r matches Some(e) && e.id@ == invalid_entry_id(file_name@) && e.version@.len() == 0
                    && e.title@.len() == 0 && e.owner@.len() == 0 && e.platform@.len() == 0
                    && e.channel@.len() == 0 && e.created@.len() == 0 && e.modified@.len() == 0
            } else {
                r is None
            },
        },
{
    proof {
        reveal_strlit("2");
    }
    match parsed {
        Some(p) => {
            if str_eq(p.version.as_str(), "2") {
                return Some(p);
            }
        },
        None => {},
    }
    if keep_invalid {
        Some(
            PartialSession {
                version: String::new(),
                id: concat2("INVALID SESSION: ", file_name),
                title: String::new(),
                owner: String::new(),
                platform: String::new(),
                channel: String::new(),
                created: String::new(),
                modified: String::new(),
            },
        )
    } else {
        None
    }
}

/// The session belongs to `owner` on `platform` and `channel`.
pub open spec fn belongs(p: PartialSession, owner: Seq<char>, platform: Seq<char>, channel: Seq<char>) -> bool {
    p.owner@ == owner && p.platform@ == platform && p.channel@ == channel
}

/// The greatest identifier among the sessions that belong to `owner` on
/// `platform` and `channel`, as `max_by_key` finds it (a later one wins a
/// tie); `None` when none belongs.
pub open spec fn last_id(
    s: Seq<PartialSession>,
    owner: Seq<char>,
    platform: Seq<char>,
    channel: Seq<char>,
) -> Option<Seq<char>>
    decreases s.len(),
{
    if s.len() == 0 {
        None
    } else {
        let prev = last_id(s.drop_last(), owner, platform, channel);
        if belongs(s.last(), owner, platform, channel) {
            match prev {
                Some(b) => if lex_lt(s.last().id@, b) {
                    Some(b)
                } else {
                    Some(s.last().id@)
                },
                None => Some(s.last().id@),
            }
        } else {
            prev
        }
    }
}

/// The message when no session can be resumed.
pub open spec fn no_session_text(owner: Seq<char>, channel: Seq<char>) -> Seq<char> {
    "No existing session found for ("@ + owner + ", "@ + channel + ")"@
}

/// The identifier of the session to resume: the greatest one that belongs
/// to `owner` on `platform` and `channel`; an error when none does.
pub fn last_session_id(sessions: &Vec<PartialSession>, owner: &str, platform: &str, channel: &str) -> (r:
    Result<String, String>)
    ensures
        match last_id(sessions@, owner@, platform@, channel@) {
            Some(id) => r matches Ok(x) && x@ == id,
            None => r matches Err(m) && m@ == no_session_text(owner@, channel@),
        },
{
    let mut best: Option<usize> = None;
    let mut i: usize = 0;
    while i < sessions.len()
        invariant
            i <= sessions@.len(),
            match best {
                Some(b) => b < i && last_id(sessions@.take(i as int), owner@, platform@, channel@)
                    == Some(sessions@[b as int].id@),
                None => last_id(sessions@.take(i as int), owner@, platform@, channel@) is None,
            },
        decreases sessions@.len() - i,
    {
        proof {
            assert(sessions@.take(i + 1).drop_last() =~= sessions@.take(i as int));
            assert(sessions@.take(i + 1).last() == sessions@[i as int]);
        }
        let s = &sessions[i];
        if str_eq(s.owner.as_str(), owner) && str_eq(s.platform.as_str(), platform) && str_eq(
            s.channel.as_str(),
            channel,
        ) {
            match best {
                Some(b) => {
                    if !str_lt(s.id.as_str(), sessions[b].id.as_str()) {
                        best = Some(i);
                    }
                },
                None => {
                    best = Some(i);
                },
            }
        }
        i = i + 1;
    }
    assert(sessions@.take(sessions@.len() as int) =~= sessions@);
    match best {
        Some(b) => Ok(sessions[b].id.clone()),
        None => {
            let mut m = concat2("No existing session found for (", owner);
            m.append(", ");
            m.append(channel);
            m.append(")");
            Err(m)
        },
    }
}

/// The session resumed is one that belongs to the conversation, and no
/// session of the conversation has a greater identifier.
pub proof fn law_last_id_is_greatest(
    s: Seq<PartialSession>,
    owner: Seq<char>,
    platform: Seq<char>,
    channel: Seq<char>,
)
    ensures
        match last_id(s, owner, platform, channel) {
            Some(id) => (exists|i: int|
                0 <= i < s.len() && belongs(s[i], owner, platform, channel) && s[i].id@ == id)
                && forall|i: int|
                0 <= i < s.len() && belongs(s[i], owner, platform, channel) ==> !lex_lt(
                    id,
                    #[trigger] s[i].id@,
                ),
            None => forall|i: int| 0 <= i < s.len() ==> !belongs(#[trigger] s[i], owner, platform, channel),
        },
    decreases s.len(),
{
    if s.len() > 0 {
        let t = s.drop_last();
        law_last_id_is_greatest(t, owner, platform, channel);
        let n = s.len() - 1;
        assert forall|i: int| 0 <= i < n implies #[trigger] s[i] == t[i] by {}
        match last_id(s, owner, platform, channel) {
            Some(id) => {
                if belongs(s.last(), owner, platform, channel) {
                    match last_id(t, owner, platform, channel) {
                        Some(b) => {
                            let j = choose|j: int|
                                0 <= j < t.len() && belongs(t[j], owner, platform, channel)
                                    && t[j].id@ == b;
                            if lex_lt(s.last().id@, b) {
                                assert(s[j] == t[j]);
                                assert forall|i: int|
                                    0 <= i < s.len() && belongs(s[i], owner, platform, channel)
                                    implies !lex_lt(id, #[trigger] s[i].id@) by {
                                    if i == n {
                                        if lex_lt(id, s[i].id@) {
                                            lemma_lex_transitive(s.last().id@, b, s.last().id@);
                                            lemma_lex_irreflexive(s.last().id@);
                                        }
                                    } else {
                                        assert(s[i] == t[i]);
                                    }
                                }
                            } else {
                                assert forall|i: int|
                                    0 <= i < s.len() && belongs(s[i], owner, platform, channel)
                                    implies !lex_lt(id, #[trigger] s[i].id@) by {
                                    if i == n {
                                        lemma_lex_irreflexive(id);
                                    } else {
                                        assert(s[i] == t[i]);
                                        assert(!lex_lt(b, t[i].id@));
                                        lemma_lex_total(b, s.last().id@);
                                        if lex_lt(id, s[i].id@) {
                                            if b == s.last().id@ {
                                            } else {
                                                lemma_lex_transitive(b, s.last().id@, s[i].id@);
                                            }
                                        }
                                    }
                                }
                            }
                        },
                        None => {
                            assert forall|i: int|
                                0 <= i < s.len() && belongs(s[i], owner, platform, channel)
                                implies !lex_lt(id, #[trigger] s[i].id@) by {
                                if i == n {
                                    lemma_lex_irreflexive(id);
                                } else {
                                    assert(s[i] == t[i]);
                                }
                            }
                        },
                    }
                } else {
                    let j = choose|j: int|
                        0 <= j < t.len() && belongs(t[j], owner, platform, channel) && t[j].id@
                            == id;
                    assert(s[j] == t[j]);
                    assert forall|i: int|
                        0 <= i < s.len() && belongs(s[i], owner, platform, channel) implies !lex_lt(
                        id,
                        #[trigger] s[i].id@,
                    ) by {
                        if i < n {
                            assert(s[i] == t[i]);
                        }
                    }
                }
            },
            None => {
                assert forall|i: int| 0 <= i < s.len() implies !belongs(
                    #[trigger] s[i],
                    owner,
                    platform,
                    channel,
                ) by {
                    if i < n {
                        assert(s[i] == t[i]);
                    }
                }
            },
        }
    }
}

} // verus!
