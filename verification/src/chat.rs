//! What the chat screen keeps between agent events: the status line, the
//! input box's hint, the token counts, the message being streamed, the
//! tool output being streamed and a pending permission prompt. Rendering
//! and saving are left to the caller.
use vstd::prelude::*;
use crate::text::{owned, concat2};
use crate::sessions::Usage;

verus! {

/// The hint shown in the empty input box.
#[derive(Debug, Clone, Copy, PartialEq, Eq, Structural)]
pub enum Placeholder {
    /// Shown when the screen opens.
    Start,
    /// Waiting for the user.
    Idle,
    /// The agent is working.
    Executing,
    /// A permission prompt waits for an answer.
    Permission,
}

impl Placeholder {
    /// The text of the hint.
    pub open spec fn spec_text(self) -> Seq<char> {
        match self {
            Placeholder::Start => "Type something..."@,
            Placeholder::Idle => "Type Something..."@,
            Placeholder::Executing => "Executing, <Ctrl-C> to cancel"@,
            Placeholder::Permission => "y/n, <Ctrl-C> to cancel"@,
        }
    }

    /// The text of the hint.
    pub fn text(&self) -> (r: &'static str)
        ensures
            r@ == self.spec_text(),
    {
        match self {
            Placeholder::Start => "Type something...",
            Placeholder::Idle => "Type Something...",
            Placeholder::Executing => "Executing, <Ctrl-C> to cancel",
            Placeholder::Permission => "y/n, <Ctrl-C> to cancel",
        }
    }
}

/// A message being streamed: its role and what arrived of its reasoning
/// and content so far.
pub struct PartialText {
    pub role: String,
    pub reasoning: String,
    pub content: String,
}

/// One chunk of a streamed message. A chunk with index 0 for one part and
/// -1 for the other starts a new message.
pub struct Chunk {
    pub role: String,
    pub reasoning_index: i64,
    pub content_index: i64,
    pub reasoning: Option<String>,
    pub content: Option<String>,
}

/// The chunk starts a new message.
pub open spec fn starts_message(c: Chunk) -> bool {
    (c.reasoning_index == 0 && c.content_index == -1) || (c.reasoning_index == -1
        && c.content_index == 0)
}

/// The text of an optional string, empty when there is none.
pub open spec fn text_or_empty(o: Option<String>) -> Seq<char> {
    match o {
        Some(s) => s@,
        None => Seq::empty(),
    }
}

/// What a permission request comes to.
#[derive(Debug, Clone, Copy, PartialEq, Eq, Structural)]
pub enum PermissionStep {
    /// Yolo mode is on: grant it at once.
    GrantNow,
    /// Show the prompt and wait for the user.
    Ask,
}

/// The chat screen between agent events.
pub struct ChatState {
    pub status: String,
    pub placeholder: Placeholder,
    pub prompt_tokens: u64,
    pub completion_tokens: u64,
    pub total_tokens: u64,
    pub partial: Option<PartialText>,
    pub tool_output: Option<String>,
    pub permission_pending: bool,
    pub yolo: bool,
    pub show_tool_output: bool,
    pub exit: bool,
}

/// The two states count the same tokens.
pub open spec fn same_counts(a: ChatState, b: ChatState) -> bool {
    a.prompt_tokens == b.prompt_tokens && a.completion_tokens == b.completion_tokens
        && a.total_tokens == b.total_tokens
}

/// The two states are in the same modes: yolo, tool output shown, exit.
pub open spec fn same_modes(a: ChatState, b: ChatState) -> bool {
    a.yolo == b.yolo && a.show_tool_output == b.show_tool_output && a.exit == b.exit
}

/// The token counts as the status bar shows them.
pub open spec fn tokens_text(prompt: u64, completion: u64, total: u64) -> Seq<char> {
    "("@ + crate::text::decimal(prompt as nat) + "|"@ + crate::text::decimal(completion as nat) + "|"@
        + crate::text::decimal(total as nat) + ")"@
}

impl ChatState {
    /// The screen as it opens.
    pub fn new(show_tool_output: bool) -> (r: ChatState)
        ensures
            r.status@.len() == 0,
            r.placeholder == Placeholder::Start,
            r.prompt_tokens == 0 && r.completion_tokens == 0 && r.total_tokens == 0,
            r.partial is None,
            r.tool_output is None,
            !r.permission_pending,
            !r.yolo,
            r.show_tool_output == show_tool_output,
            !r.exit,
    {
        ChatState {
            status: String::new(),
            placeholder: Placeholder::Start,
            prompt_tokens: 0,
            completion_tokens: 0,
            total_tokens: 0,
            partial: None,
            tool_output: None,
            permission_pending: false,
            yolo: false,
            show_tool_output,
            exit: false,
        }
    }

    /// A complete message from the assistant arrived: the streamed message
    /// and any prompt are cleared, the token counts are updated, and the
    /// status is cleared when the message asks for no tool.
    pub fn on_assistant_message(&mut self, usage: Option<Usage>, has_tool_calls: bool)
        requires
            usage matches Some(u) ==> old(self).completion_tokens + u.completion_tokens <= u64::MAX,
        ensures
            final(self).partial is None,
            !final(self).permission_pending,
            match usage {
                Some(u) => final(self).prompt_tokens == u.prompt_tokens && final(self).completion_tokens
                    == old(self).completion_tokens + u.completion_tokens && final(self).total_tokens
                    == u.total_tokens,
                None => final(self).prompt_tokens == old(self).prompt_tokens
                    && final(self).completion_tokens == old(self).completion_tokens
                    && final(self).total_tokens == old(self).total_tokens,
            },
            !has_tool_calls ==> final(self).status@.len() == 0 && final(self).placeholder
                == Placeholder::Idle,
            has_tool_calls ==> final(self).status@ == old(self).status@ && final(self).placeholder
                == old(self).placeholder,
            final(self).tool_output == old(self).tool_output,
            same_modes(*final(self), *old(self)),
    {
        self.partial = None;
        self.permission_pending = false;
        match usage {
            Some(u) => {
                self.prompt_tokens = u.prompt_tokens;
                self.completion_tokens = self.completion_tokens + u.completion_tokens;
                self.total_tokens = u.total_tokens;
            },
            None => {},
        }
        if !has_tool_calls {
            self.status = String::new();
            self.placeholder = Placeholder::Idle;
        }
    }

    /// A chunk of a streamed message arrived: a starting chunk begins a new
    /// message of its role, then the chunk's reasoning and content are
    /// appended. A chunk that starts nothing needs a message under way.
    pub fn on_chunk(&mut self, chunk: Chunk)
        requires
            old(self).partial is Some || starts_message(chunk),
        ensures
            final(self).partial matches Some(p) && {
                let base = if starts_message(chunk) {
                    (chunk.role@, Seq::<char>::empty(), Seq::<char>::empty())
                } else {
                    let q = old(self).partial.unwrap();
                    (q.role@, q.reasoning@, q.content@)
                };
                p.role@ == base.0 && p.reasoning@ == base.1 + text_or_empty(chunk.reasoning)
                    && p.content@ == base.2 + text_or_empty(chunk.content)
            },
            final(self).status == old(self).status,
            final(self).placeholder == old(self).placeholder,
            final(self).tool_output == old(self).tool_output,
            final(self).permission_pending == old(self).permission_pending,
            same_counts(*final(self), *old(self)),
            same_modes(*final(self), *old(self)),
    {
        let starts = (chunk.reasoning_index == 0 && chunk.content_index == -1) || (
        chunk.reasoning_index == -1 && chunk.content_index == 0);
        let mut p = if starts {
            PartialText { role: chunk.role, reasoning: String::new(), content: String::new() }
        } else {
            match self.partial.take() {
                Some(q) => q,
                None => PartialText { role: String::new(), reasoning: String::new(), content: String::new() },
            }
        };
        match &chunk.reasoning {
            Some(r) => {
                p.reasoning.append(r.as_str());
            },
            None => {
                assert(p.reasoning@ =~= p.reasoning@ + Seq::<char>::empty());
            },
        }
        match &chunk.content {
            Some(c) => {
                p.content.append(c.as_str());
            },
            None => {
                assert(p.content@ =~= p.content@ + Seq::<char>::empty());
            },
        }
        self.partial = Some(p);
    }

    /// The assistant's status changed: a non-empty status means it is
    /// working.
    pub fn on_status(&mut self, status: String)
        ensures
            final(self).status@ == status@,
            final(self).placeholder == if status@.len() > 0 {
                Placeholder::Executing
            } else {
                Placeholder::Idle
            },
            final(self).partial == old(self).partial,
            final(self).tool_output == old(self).tool_output,
            final(self).permission_pending == old(self).permission_pending,
            same_counts(*final(self), *old(self)),
            same_modes(*final(self), *old(self)),
    {
        let busy = status.unicode_len() > 0;
        self.status = status;
        self.placeholder = if busy {
            Placeholder::Executing
        } else {
            Placeholder::Idle
        };
    }

    /// A tool asks for permission: granted at once in yolo mode, else the
    /// prompt waits for the user.
    pub fn on_permission_request(&mut self) -> (r: PermissionStep)
        ensures
            old(self).yolo ==> r == PermissionStep::GrantNow && final(self).permission_pending
                == old(self).permission_pending && final(self).status == old(self).status
                && final(self).placeholder == old(self).placeholder,
            !old(self).yolo ==> r == PermissionStep::Ask && final(self).permission_pending
                && final(self).status@ == "Permission Required"@ && final(self).placeholder
                == Placeholder::Permission,
            final(self).partial == old(self).partial,
            final(self).tool_output == old(self).tool_output,
            same_counts(*final(self), *old(self)),
            same_modes(*final(self), *old(self)),
    {
        if self.yolo {
            PermissionStep::GrantNow
        } else {
            self.permission_pending = true;
            self.status = owned("Permission Required");
            self.placeholder = Placeholder::Permission;
            PermissionStep::Ask
        }
    }

    /// The user answered the permission prompt.
    pub fn on_permission_answered(&mut self)
        ensures
            !final(self).permission_pending,
            final(self).placeholder == Placeholder::Executing,
            final(self).status@.len() == 0,
            final(self).partial == old(self).partial,
            final(self).tool_output == old(self).tool_output,
            same_counts(*final(self), *old(self)),
            same_modes(*final(self), *old(self)),
    {
        self.permission_pending = false;
        self.placeholder = Placeholder::Executing;
        self.status = String::new();
    }

    /// Output of a running tool arrived; it is kept only when tool output
    /// is shown.
    pub fn on_partial_tool_output(&mut self, stdout: Option<String>, stderr: Option<String>)
        ensures
            old(self).show_tool_output ==> (final(self).tool_output matches Some(t) && t@
                == text_or_empty(old(self).tool_output) + text_or_empty(stdout) + text_or_empty(
                stderr,
            )),
            !old(self).show_tool_output ==> final(self).tool_output == old(self).tool_output,
            final(self).partial == old(self).partial,
            final(self).status == old(self).status,
            final(self).placeholder == old(self).placeholder,
            final(self).permission_pending == old(self).permission_pending,
            same_counts(*final(self), *old(self)),
            same_modes(*final(self), *old(self)),
    {
        if self.show_tool_output {
            let mut t = match self.tool_output.take() {
                Some(t) => t,
                None => String::new(),
            };
            match &stdout {
                Some(o) => t.append(o.as_str()),
                None => {
                    assert(t@ =~= t@ + Seq::<char>::empty());
                },
            }
            match &stderr {
                Some(e) => t.append(e.as_str()),
                None => {
                    assert(t@ =~= t@ + Seq::<char>::empty());
                },
            }
            self.tool_output = Some(t);
        }
    }

    /// A tool finished; its streamed output is dropped when tool output is
    /// shown (the complete output is shown instead). Returns whether the
    /// complete output is to be shown.
    pub fn on_tool_output(&mut self) -> (r: bool)
        ensures
            r == old(self).show_tool_output,
            r ==> final(self).tool_output is None,
            !r ==> final(self).tool_output == old(self).tool_output,
            final(self).partial == old(self).partial,
            final(self).status == old(self).status,
            final(self).placeholder == old(self).placeholder,
            final(self).permission_pending == old(self).permission_pending,
            same_counts(*final(self), *old(self)),
            same_modes(*final(self), *old(self)),
    {
        if self.show_tool_output {
            self.tool_output = None;
            true
        } else {
            false
        }
    }

    /// The user stopped the turn: everything being streamed and any prompt
    /// are dropped, and the screen waits for the user again.
    pub fn on_cancel(&mut self)
        ensures
            final(self).partial is None,
            final(self).tool_output is None,
            !final(self).permission_pending,
            final(self).placeholder == Placeholder::Idle,
            final(self).status@.len() == 0,
            same_counts(*final(self), *old(self)),
            same_modes(*final(self), *old(self)),
    {
        self.partial = None;
        self.tool_output = None;
        self.permission_pending = false;
        self.placeholder = Placeholder::Idle;
        self.status = String::new();
    }

    /// `/yolo`: permission requests are granted without asking, or asked again.
    pub fn toggle_yolo(&mut self)
        ensures
            final(self).yolo == !old(self).yolo,
            final(self).show_tool_output == old(self).show_tool_output,
            final(self).exit == old(self).exit,
            final(self).status == old(self).status,
            final(self).placeholder == old(self).placeholder,
            final(self).partial == old(self).partial,
            final(self).tool_output == old(self).tool_output,
            final(self).permission_pending == old(self).permission_pending,
            same_counts(*final(self), *old(self)),
    {
        self.yolo = !self.yolo;
    }

    /// `/new`: a fresh session drops what was being streamed.
    pub fn on_new_session(&mut self)
        ensures
            final(self).partial is None,
            final(self).tool_output is None,
            final(self).status == old(self).status,
            final(self).placeholder == old(self).placeholder,
            final(self).permission_pending == old(self).permission_pending,
            same_counts(*final(self), *old(self)),
            same_modes(*final(self), *old(self)),
    {
        self.partial = None;
        self.tool_output = None;
    }

    /// The token counts as the status bar shows them, when both the prompt
    /// and the completion counts are known.
    pub fn token_text(&self) -> (r: Option<String>)
        ensures
            (self.completion_tokens > 0 && self.prompt_tokens > 0) == (r is Some),
            r matches Some(t) ==> t@ == tokens_text(
                self.prompt_tokens,
                self.completion_tokens,
                self.total_tokens,
            ),
    {
        if self.completion_tokens > 0 && self.prompt_tokens > 0 {
            let mut t = concat2("(", crate::text::decimal_string(self.prompt_tokens).as_str());
            t.append("|");
            t.append(crate::text::decimal_string(self.completion_tokens).as_str());
            t.append("|");
            t.append(crate::text::decimal_string(self.total_tokens).as_str());
            t.append(")");
            Some(t)
        } else {
            None
        }
    }
}

/// The frames of the status bar's spinner.
pub open spec fn spinner_frames() -> Seq<Seq<char>> {
    seq!["⠋"@, "⠙"@, "⠹"@, "⠸"@, "⠼"@, "⠴"@, "⠦"@, "⠧"@, "⠇"@, "⠏"@]
}

/// The spinner frame at `i`.
fn spinner_frame(i: usize) -> (r: &'static str)
    requires
        i < 10,
    ensures
        r@ == spinner_frames()[i as int],
{
    if i == 0 {
        "⠋"
    } else if i == 1 {
        "⠙"
    } else if i == 2 {
        "⠹"
    } else if i == 3 {
        "⠸"
    } else if i == 4 {
        "⠼"
    } else if i == 5 {
        "⠴"
    } else if i == 6 {
        "⠦"
    } else if i == 7 {
        "⠧"
    } else if i == 8 {
        "⠇"
    } else {
        "⠏"
    }
}

/// What the status bar shows. The left side holds the spinner, the status
/// and the yolo mark; the right side the token counts and the model.
pub struct StatusBar {
    /// The border is dashed while the chat is not following new messages.
    pub dashed: bool,
    pub spinner: Option<&'static str>,
    pub status: Option<String>,
    pub yolo: bool,
    pub tokens: Option<String>,
    pub model: String,
}

impl ChatState {
    /// The status bar, and the spinner frame to show next. The spinner
    /// turns while the agent has a status and no prompt is pending.
    pub fn statusbar(&self, auto_scroll: bool, spinner_idx: usize, show_spinner: bool, model: &str) -> (r: (
        StatusBar,
        usize,
    ))
        requires
            spinner_idx < 10,
        ensures
            r.0.dashed == !auto_scroll,
            r.0.yolo == self.yolo,
            r.0.model@ == model@,
            self.status@.len() == 0 ==> r.0.status is None && r.0.spinner is None && r.1
                == spinner_idx,
            self.status@.len() > 0 ==> (r.0.status matches Some(s) && s@ == self.status@),
            self.status@.len() > 0 && show_spinner && !self.permission_pending ==> (
            r.0.spinner matches Some(f) && f@ == spinner_frames()[spinner_idx as int]) && r.1 == (
            spinner_idx + 1) % 10,
            self.status@.len() > 0 && !(show_spinner && !self.permission_pending) ==> r.0.spinner is None
                && r.1 == spinner_idx,
            (r.0.tokens is Some) == (self.completion_tokens > 0 && self.prompt_tokens > 0),
            r.0.tokens matches Some(t) ==> t@ == tokens_text(
                self.prompt_tokens,
                self.completion_tokens,
                self.total_tokens,
            ),
            r.1 < 10,
    {
        let busy = self.status.unicode_len() > 0;
        let mut next = spinner_idx;
        let mut spinner: Option<&'static str> = None;
        let mut status: Option<String> = None;
        if busy {
            if show_spinner && !self.permission_pending {
                spinner = Some(spinner_frame(spinner_idx));
                next = (spinner_idx + 1) % 10;
            }
            status = Some(self.status.clone());
        }
        (
            StatusBar {
                dashed: !auto_scroll,
                spinner,
                status,
                yolo: self.yolo,
                tokens: self.token_text(),
                model: owned(model),
            },
            next,
        )
    }
}

} // verus!
