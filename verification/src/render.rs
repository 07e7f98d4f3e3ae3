//! How a message is laid out in the chat: who sent it, its reasoning and
//! content, and one line per tool call. Colours and markdown are applied
//! by the caller.
use vstd::prelude::*;
use crate::text::{str_eq, contains_char, char_count, concat2, owned, split_on, split_spec, has_char};
use crate::sessions::{Message, ToolCallRequest};
use crate::tools::ToolRegistry;
use crate::prompt_box::{wrapped, wrap_text};

verus! {

/// Who a shown message is from.
pub enum Sender {
    /// The user, shown by name.
    User(String),
    Assistant,
    Harness,
}

/// One line of a shown message.
pub enum MessageLine {
    /// A one-line message: sender, `▶` and the text.
    Short { sender: Sender, text: String },
    /// The heading of a longer message: sender, `▼`, and a hint when the
    /// reasoning is hidden.
    Header { sender: Sender, thoughts: bool },
    /// A line of the reasoning.
    Reasoning(String),
    /// A line of the content.
    Content(String),
    /// The whole content, rendered as markdown by the caller.
    Markdown(String),
    /// A tool call: the tool's emoji, its name and the summary of the call.
    ToolCall { icon: String, name: String, summary: String },
}

/// A sender by the views of its strings.
pub enum SenderView {
    User(Seq<char>),
    Assistant,
    Harness,
}

/// A line by the views of its strings.
pub enum LineView {
    Short { sender: SenderView, text: Seq<char> },
    Header { sender: SenderView, thoughts: bool },
    Reasoning(Seq<char>),
    Content(Seq<char>),
    Markdown(Seq<char>),
    ToolCall { icon: Seq<char>, name: Seq<char>, summary: Seq<char> },
}

/// How messages are shown.
pub struct RenderOptions {
    /// The width of the chat, in columns.
    pub width: usize,
    /// The name the user is shown by.
    pub username: String,
    pub show_reasoning: bool,
    pub render_markdown: bool,
}

/// The columns a text takes on screen, as `ratatui` measures a span.
pub uninterp spec fn text_width(s: Seq<char>) -> usize;

/// The columns a text takes on screen. Trusted: the width `ratatui`
/// gives a span of the text, a function of the text alone.
#[verifier::external_body]
fn display_width(s: &str) -> (r: usize)
    ensures
        r == text_width(s@),
{
    ratatui::text::Span::raw(s).width()
}

/// The view of a sender.
pub open spec fn sender_view(s: Sender) -> SenderView {
    match s {
        Sender::User(u) => SenderView::User(u@),
        Sender::Assistant => SenderView::Assistant,
        Sender::Harness => SenderView::Harness,
    }
}

/// The view of a line.
pub open spec fn line_view(l: MessageLine) -> LineView {
    match l {
        MessageLine::Short { sender, text } => LineView::Short {
            sender: sender_view(sender),
            text: text@,
        },
        MessageLine::Header { sender, thoughts } => LineView::Header {
            sender: sender_view(sender),
            thoughts,
        },
        MessageLine::Reasoning(t) => LineView::Reasoning(t@),
        MessageLine::Content(t) => LineView::Content(t@),
        MessageLine::Markdown(t) => LineView::Markdown(t@),
        MessageLine::ToolCall { icon, name, summary } => LineView::ToolCall {
            icon: icon@,
            name: name@,
            summary: summary@,
        },
    }
}

/// The views of lines.
pub open spec fn lines_view(ls: Seq<MessageLine>) -> Seq<LineView> {
    ls.map_values(|l: MessageLine| line_view(l))
}

/// The sender of a message of `role`; `None` for a role that is not shown.
pub open spec fn sender_of(role: Seq<char>, username: Seq<char>) -> Option<SenderView> {
    if role == "user"@ {
        Some(SenderView::User(username))
    } else if role == "assistant"@ {
        Some(SenderView::Assistant)
    } else if role == "harness"@ {
        Some(SenderView::Harness)
    } else {
        None
    }
}

/// The name shown for a sender.
pub open spec fn sender_text(s: SenderView) -> Seq<char> {
    match s {
        SenderView::User(u) => u,
        SenderView::Assistant => "Mia"@,
        SenderView::Harness => "Harness"@,
    }
}

/// The view of an optional string.
pub open spec fn opt_seq(o: Option<String>) -> Option<Seq<char>> {
    match o {
        Some(s) => Some(s@),
        None => None,
    }
}

/// A message fits on one line: no reasoning, content of one line, and the
/// sender, the marker and the content narrower than the chat.
pub open spec fn fits_one_line(
    reasoning: Option<Seq<char>>,
    content: Option<Seq<char>>,
    sender: SenderView,
    width: usize,
) -> bool {
    &&& reasoning is None
    &&& content matches Some(c) && !has_char(c, '\n') && text_width(sender_text(sender)) + 3
        + c.len() < width
}

/// The lines of a longer message before its tool calls: the heading, the
/// reasoning when shown, and the content.
pub open spec fn body_lines(
    reasoning: Option<Seq<char>>,
    content: Option<Seq<char>>,
    sender: SenderView,
    opts: RenderOptions,
) -> Seq<LineView> {
    let header = seq![
        LineView::Header { sender, thoughts: reasoning is Some && !opts.show_reasoning },
    ];
    let thoughts = match reasoning {
        Some(r) => if r.len() > 0 && opts.show_reasoning {
            split_spec(r, '\n').map_values(|l: Seq<char>| LineView::Reasoning(l))
        } else {
            Seq::empty()
        },
        None => Seq::empty(),
    };
    let body = match content {
        Some(c) => if c.len() == 0 {
            Seq::empty()
        } else if opts.render_markdown {
            seq![LineView::Markdown(c)]
        } else {
            split_spec(c, '\n').map_values(|l: Seq<char>| LineView::Content(l))
        },
        None => Seq::empty(),
    };
    header + thoughts + body
}

/// The tool call lines agree with the registry for the requested calls.
pub open spec fn tool_lines_ok(reg: ToolRegistry, calls: Seq<ToolCallRequest>, ls: Seq<LineView>) -> bool {
    &&& ls.len() == calls.len()
    &&& forall|i: int|
        0 <= i < calls.len() ==> (#[trigger] ls[i] matches LineView::ToolCall { icon, name, summary }
            && icon == reg.icon_answer(calls[i].name@) && name == calls[i].name@
            && reg.short_answer(calls[i].name@, calls[i].arguments@, summary))
}

/// The message for a role that cannot be shown.
pub open spec fn unknown_role_text(role: Seq<char>) -> Seq<char> {
    "Unknown role: "@ + role
}

// ---------------------------------------------------------------------
// The logo
// ---------------------------------------------------------------------

/// The logo shown at the top of the chat; its padding is part of the design.
pub const LOGO: &'static str = "\n\n    ██╷     ██╷ ██╷   ██╷\n    ████╷ ████│ ██│ ██┌─██╷\n    ██┌─██┌─██│ ██│ ██████│\n    ██│ └─┘ ██│ ██│ ██┌─██│\n    └─┘     └─┘ └─┘ └─┘ └─┘\n    ";

/// How a character of the logo is coloured.
#[derive(Debug, Clone, Copy, PartialEq, Eq, Structural)]
pub enum LogoColor {
    /// The letters' blocks.
    Magenta,
    /// The letters' shadows.
    LightGreen,
    Plain,
}

/// The colour of a character of the logo.
pub open spec fn spec_logo_color(c: char) -> LogoColor {
    if c == '█' || c == '▄' || c == '▀' {
        LogoColor::Magenta
    } else if c == '─' || c == '│' || c == '┘' || c == '└' || c == '┌' || c == '┐' || c == '╷'
        || c == '╶' {
        LogoColor::LightGreen
    } else {
        LogoColor::Plain
    }
}

/// The colour of a character of the logo.
pub fn logo_color(c: char) -> (r: LogoColor)
    ensures
        r == spec_logo_color(c),
{
    if c == '█' || c == '▄' || c == '▀' {
        LogoColor::Magenta
    } else if c == '─' || c == '│' || c == '┘' || c == '└' || c == '┌' || c == '┐' || c == '╷'
        || c == '╶' {
        LogoColor::LightGreen
    } else {
        LogoColor::Plain
    }
}

/// The lines of the logo, each character with its colour.
pub fn get_logo() -> (r: Vec<Vec<(char, LogoColor)>>)
    ensures
        r@.len() == split_spec(LOGO@, '\n').len(),
        forall|i: int|
            0 <= i < r@.len() ==> (#[trigger] r@[i])@.len() == split_spec(LOGO@, '\n')[i].len()
                && forall|j: int|
                0 <= j < r@[i]@.len() ==> r@[i]@[j] == (
                    split_spec(LOGO@, '\n')[i][j],
                    spec_logo_color(split_spec(LOGO@, '\n')[i][j]),
                ),
{
    let pieces = split_on(LOGO, '\n');
    let ghost pv = pieces@.map_values(|l: String| l@);
    let mut out: Vec<Vec<(char, LogoColor)>> = Vec::new();
    let mut i: usize = 0;
    while i < pieces.len()
        invariant
            pv == pieces@.map_values(|l: String| l@),
            pv == split_spec(LOGO@, '\n'),
            i <= pieces@.len(),
            out@.len() == i,
            forall|a: int|
                0 <= a < i ==> (#[trigger] out@[a])@.len() == pv[a].len() && forall|j: int|
                    0 <= j < out@[a]@.len() ==> out@[a]@[j] == (pv[a][j], spec_logo_color(pv[a][j])),
        decreases pieces@.len() - i,
    {
        let line = pieces[i].as_str();
        let n = line.unicode_len();
        let mut row: Vec<(char, LogoColor)> = Vec::new();
        let mut j: usize = 0;
        while j < n
            invariant
                n == line@.len(),
                line@ == pv[i as int],
                j <= n,
                row@.len() == j,
                forall|b: int| 0 <= b < j ==> row@[b] == (line@[b], spec_logo_color(line@[b])),
            decreases n - j,
        {
            let c = line.get_char(j);
            row.push((c, logo_color(c)));
            j = j + 1;
        }
        out.push(row);
        i = i + 1;
    }
    out
}

// ---------------------------------------------------------------------
// The experimental screen's message cache
// ---------------------------------------------------------------------

/// Who wrote a message on the experimental screen.
#[derive(Debug, Clone, Copy, PartialEq, Eq, Structural)]
pub enum ScreenRole {
    User,
    Assistant,
    System,
}

/// A message on the experimental screen.
pub enum ScreenMessage {
    Text { role: ScreenRole, reasoning: String, content: String },
    ToolCall { icon: String, name: String, shorthand: String },
}

/// A cached line of the experimental screen.
pub enum CachedLine {
    /// A one-line message: sender, `>` and the content.
    Short { role: ScreenRole, content: String },
    /// The heading of a longer message: sender and `◣`.
    Header(ScreenRole),
    /// A wrapped line of reasoning, shown after `| `.
    Reasoning(String),
    Content(String),
    /// A tool call: `Mia >`, the emoji, the name and the shorthand.
    ToolNotice { icon: String, name: String, shorthand: String },
}

/// A cached line by the views of its strings.
pub enum CachedView {
    Short { role: ScreenRole, content: Seq<char> },
    Header(ScreenRole),
    Reasoning(Seq<char>),
    Content(Seq<char>),
    ToolNotice { icon: Seq<char>, name: Seq<char>, shorthand: Seq<char> },
}

/// The view of a cached line.
pub open spec fn cached_view(l: CachedLine) -> CachedView {
    match l {
        CachedLine::Short { role, content } => CachedView::Short { role, content: content@ },
        CachedLine::Header(r) => CachedView::Header(r),
        CachedLine::Reasoning(t) => CachedView::Reasoning(t@),
        CachedLine::Content(t) => CachedView::Content(t@),
        CachedLine::ToolNotice { icon, name, shorthand } => CachedView::ToolNotice {
            icon: icon@,
            name: name@,
            shorthand: shorthand@,
        },
    }
}

/// The name shown for a role on the experimental screen.
pub open spec fn role_name(r: ScreenRole) -> Seq<char> {
    match r {
        ScreenRole::User => "User"@,
        ScreenRole::Assistant => "Mia"@,
        ScreenRole::System => "System"@,
    }
}

/// A text message is checked for one line only when it has no reasoning and
/// no line ending; the width then leaves ten columns beside the sender.
/// Reasoning is wrapped two columns narrower than the screen.
pub open spec fn prerender_fits(m: ScreenMessage, width: usize) -> bool {
    match m {
        ScreenMessage::Text { role, reasoning, content } => if reasoning@.len() == 0 {
            !has_char(content@, '\n') ==> text_width(role_name(role)) + 10 <= width
        } else {
            width >= 2
        },
        ScreenMessage::ToolCall { .. } => true,
    }
}

/// The cached lines of a message on a screen `width` columns wide.
pub open spec fn prerender_lines(m: ScreenMessage, width: usize) -> Seq<CachedView> {
    match m {
        ScreenMessage::Text { role, reasoning, content } => if reasoning@.len() == 0 && !has_char(
            content@,
            '\n',
        ) && content@.len() < width - text_width(role_name(role)) - 10 {
            seq![CachedView::Short { role, content: content@ }]
        } else {
            seq![CachedView::Header(role)] + (if reasoning@.len() > 0 {
                wrapped(reasoning@, (width - 2) as usize).map_values(|l: Seq<char>| CachedView::Reasoning(l))
            } else {
                Seq::empty()
            }) + (if content@.len() > 0 {
                split_spec(content@, '\n').map_values(|l: Seq<char>| CachedView::Content(l))
            } else {
                Seq::empty()
            })
        },
        ScreenMessage::ToolCall { icon, name, shorthand } => seq![
            CachedView::ToolNotice { icon: icon@, name: name@, shorthand: shorthand@ },
        ],
    }
}

/// The name shown for a role on the experimental screen.
fn role_text(r: ScreenRole) -> (s: &'static str)
    ensures
        s@ == role_name(r),
{
    match r {
        ScreenRole::User => "User",
        ScreenRole::Assistant => "Mia",
        ScreenRole::System => "System",
    }
}

/// Pieces made lines of the experimental screen, as reasoning or content.
fn cached_pieces(pieces: Vec<String>, reasoning: bool) -> (r: Vec<CachedLine>)
    ensures
        r@.map_values(|l: CachedLine| cached_view(l)) == pieces@.map_values(
            |p: String| if reasoning {
                CachedView::Reasoning(p@)
            } else {
                CachedView::Content(p@)
            },
        ),
{
    let mut out: Vec<CachedLine> = Vec::new();
    let mut i: usize = 0;
    while i < pieces.len()
        invariant
            i <= pieces@.len(),
            out@.map_values(|l: CachedLine| cached_view(l)) == pieces@.take(i as int).map_values(
                |p: String| if reasoning {
                    CachedView::Reasoning(p@)
                } else {
                    CachedView::Content(p@)
                },
            ),
        decreases pieces@.len() - i,
    {
        let p = pieces[i].clone();
        let ghost before = out@;
        if reasoning {
            out.push(CachedLine::Reasoning(p));
        } else {
            out.push(CachedLine::Content(p));
        }
        proof {
            assert(out@.map_values(|l: CachedLine| cached_view(l)) =~= before.map_values(
                |l: CachedLine| cached_view(l),
            ).push(
                if reasoning {
                    CachedView::Reasoning(pieces@[i as int]@)
                } else {
                    CachedView::Content(pieces@[i as int]@)
                },
            ));
            assert(pieces@.take(i + 1) =~= pieces@.take(i as int).push(pieces@[i as int]));
        }
        i = i + 1;
    }
    assert(pieces@.take(pieces@.len() as int) =~= pieces@);
    out
}

/// The cached lines of a message on the experimental screen, `width`
/// columns wide: one line for a short text, else a heading, the wrapped
/// reasoning and the content lines; one notice for a tool call.
pub fn prerender(m: &ScreenMessage, width: usize) -> (r: Vec<CachedLine>)
    requires
        prerender_fits(*m, width),
    ensures
        r@.map_values(|l: CachedLine| cached_view(l)) == prerender_lines(*m, width),
{
    match m {
        ScreenMessage::Text { role, reasoning, content } => {
            let mut out: Vec<CachedLine> = Vec::new();
            let short = if char_count(reasoning.as_str()) == 0 && !contains_char(content.as_str(), '\n') {
                let w = display_width(role_text(*role));
                char_count(content.as_str()) < width - w - 10
            } else {
                false
            };
            if short {
                out.push(CachedLine::Short { role: *role, content: content.clone() });
                proof {
                    assert(out@.map_values(|l: CachedLine| cached_view(l)) =~= prerender_lines(*m, width));
                }
                return out;
            }
            out.push(CachedLine::Header(*role));
            let ghost head = out@.map_values(|l: CachedLine| cached_view(l));
            let ghost thoughts = if reasoning@.len() > 0 {
                wrapped(reasoning@, (width - 2) as usize).map_values(|l: Seq<char>| CachedView::Reasoning(l))
            } else {
                Seq::<CachedView>::empty()
            };
            if char_count(reasoning.as_str()) > 0 {
                let pieces = wrap_text(reasoning.as_str(), width - 2);
                let mut ls = cached_pieces(pieces, true);
                proof {
                    assert(ls@.map_values(|l: CachedLine| cached_view(l)) =~= thoughts);
                }
                let ghost before = out@;
                let ghost more = ls@;
                out.append(&mut ls);
                proof {
                    assert(out@.map_values(|l: CachedLine| cached_view(l)) =~= before.map_values(
                        |l: CachedLine| cached_view(l),
                    ) + more.map_values(|l: CachedLine| cached_view(l)));
                }
            }
            assert(out@.map_values(|l: CachedLine| cached_view(l)) =~= head + thoughts);
            let ghost body = if content@.len() > 0 {
                split_spec(content@, '\n').map_values(|l: Seq<char>| CachedView::Content(l))
            } else {
                Seq::<CachedView>::empty()
            };
            if char_count(content.as_str()) > 0 {
                let pieces = split_on(content.as_str(), '\n');
                let mut ls = cached_pieces(pieces, false);
                proof {
                    assert(ls@.map_values(|l: CachedLine| cached_view(l)) =~= body);
                }
                let ghost before = out@;
                let ghost more = ls@;
                out.append(&mut ls);
                proof {
                    assert(out@.map_values(|l: CachedLine| cached_view(l)) =~= before.map_values(
                        |l: CachedLine| cached_view(l),
                    ) + more.map_values(|l: CachedLine| cached_view(l)));
                }
            }
            assert(out@.map_values(|l: CachedLine| cached_view(l)) =~= head + thoughts + body);
            out
        },
        ScreenMessage::ToolCall { icon, name, shorthand } => {
            let mut out: Vec<CachedLine> = Vec::new();
            out.push(
                CachedLine::ToolNotice {
                    icon: icon.clone(),
                    name: name.clone(),
                    shorthand: shorthand.clone(),
                },
            );
            proof {
                assert(out@.map_values(|l: CachedLine| cached_view(l)) =~= prerender_lines(*m, width));
            }
            out
        },
    }
}

/// The cached lines of a message, or `None` on a screen too narrow for it
/// (the experimental screen stops there).
pub fn prerender_checked(m: &ScreenMessage, width: usize) -> (r: Option<Vec<CachedLine>>)
    ensures
        prerender_fits(*m, width) ==> (r matches Some(ls) && ls@.map_values(|l: CachedLine| cached_view(l))
            == prerender_lines(*m, width)),
        !prerender_fits(*m, width) ==> r is None,
{
    let fits = match m {
        ScreenMessage::Text { role, reasoning, content } => {
            if char_count(reasoning.as_str()) == 0 {
                if contains_char(content.as_str(), '\n') {
                    true
                } else {
                    let w = display_width(role_text(*role));
                    w <= width && 10 <= width - w
                }
            } else {
                width >= 2
            }
        },
        ScreenMessage::ToolCall { .. } => true,
    };
    if fits {
        Some(prerender(m, width))
    } else {
        None
    }
}

/// The pieces as reasoning lines, or as content lines.
fn piece_lines(pieces: Vec<String>, reasoning: bool) -> (r: Vec<MessageLine>)
    ensures
        lines_view(r@) == pieces@.map_values(
            |p: String| if reasoning {
                LineView::Reasoning(p@)
            } else {
                LineView::Content(p@)
            },
        ),
{
    let mut out: Vec<MessageLine> = Vec::new();
    let mut i: usize = 0;
    while i < pieces.len()
        invariant
            i <= pieces@.len(),
            lines_view(out@) == pieces@.take(i as int).map_values(
                |p: String| if reasoning {
                    LineView::Reasoning(p@)
                } else {
                    LineView::Content(p@)
                },
            ),
        decreases pieces@.len() - i,
    {
        let p = pieces[i].clone();
        let ghost before = out@;
        if reasoning {
            out.push(MessageLine::Reasoning(p));
        } else {
            out.push(MessageLine::Content(p));
        }
        proof {
            assert(lines_view(out@) =~= lines_view(before).push(
                if reasoning {
                    LineView::Reasoning(pieces@[i as int]@)
                } else {
                    LineView::Content(pieces@[i as int]@)
                },
            ));
            assert(pieces@.take(i + 1) =~= pieces@.take(i as int).push(pieces@[i as int]));
        }
        i = i + 1;
    }
    assert(pieces@.take(pieces@.len() as int) =~= pieces@);
    out
}

/// Appends the lines of `more` to `out`.
fn append_lines(out: &mut Vec<MessageLine>, more: Vec<MessageLine>)
    ensures
        lines_view(final(out)@) == lines_view(old(out)@) + lines_view(more@),
{
    let mut more = more;
    let ghost m = more@;
    out.append(&mut more);
    assert(lines_view(out@) =~= lines_view(old(out)@) + lines_view(m));
}

impl Sender {
    /// The sender of a message of `role`, if it is shown.
    fn of_role(role: &str, username: &str) -> (r: Option<Sender>)
        ensures
            match r {
                Some(s) => sender_of(role@, username@) == Some(sender_view(s)),
                None => sender_of(role@, username@) is None,
            },
    {
        if str_eq(role, "user") {
            Some(Sender::User(owned(username)))
        } else if str_eq(role, "assistant") {
            Some(Sender::Assistant)
        } else if str_eq(role, "harness") {
            Some(Sender::Harness)
        } else {
            None
        }
    }

    /// The name shown for the sender.
    fn text(&self) -> (r: String)
        ensures
            r@ == sender_text(sender_view(*self)),
    {
        match self {
            Sender::User(u) => u.clone(),
            Sender::Assistant => owned("Mia"),
            Sender::Harness => owned("Harness"),
        }
    }

    /// A copy of the sender.
    fn copy(&self) -> (r: Sender)
        ensures
            sender_view(r) == sender_view(*self),
    {
        match self {
            Sender::User(u) => Sender::User(u.clone()),
            Sender::Assistant => Sender::Assistant,
            Sender::Harness => Sender::Harness,
        }
    }
}

/// Whether a message fits on one line of a chat `width` columns wide.
fn one_line(m: &Message, sender: &Sender, width: usize) -> (r: bool)
    ensures
        r == fits_one_line(opt_seq(m.reasoning), opt_seq(m.content), sender_view(*sender), width),
{
    if m.reasoning.is_some() {
        return false;
    }
    match &m.content {
        None => false,
        Some(c) => {
            if contains_char(c.as_str(), '\n') {
                return false;
            }
            let name = sender.text();
            let w = display_width(name.as_str());
            let n = char_count(c.as_str());
            width > 3 && w < width - 3 && n < width - 3 - w
        },
    }
}

/// The lines of a message in the chat: nothing for system prompts and tool
/// responses, one line for a short message, else a heading, the reasoning
/// when shown, the content and a line per tool call. A role that cannot
/// be shown is an error.
pub fn render_message(m: &Message, opts: &RenderOptions, reg: &ToolRegistry) -> (r: Result<
    Vec<MessageLine>,
    String,
>)
    requires
        reg.wf(),
    ensures
        (m.role@ == "system"@ || m.role@ == "tool"@) ==> (r matches Ok(ls) && ls@.len() == 0),
        !(m.role@ == "system"@ || m.role@ == "tool"@) ==> match sender_of(
            m.role@,
            opts.username@,
        ) {
            None => r matches Err(e) && e@ == unknown_role_text(m.role@),
            Some(s) => r matches Ok(ls) && if fits_one_line(
                opt_seq(m.reasoning),
                opt_seq(m.content),
                s,
                opts.width,
            ) {
                lines_view(ls@) == seq![
                    LineView::Short { sender: s, text: opt_seq(m.content).unwrap() },
                ]
            } else {
                let body = body_lines(opt_seq(m.reasoning), opt_seq(m.content), s, *opts);
                &&& ls@.len() >= body.len()
                &&& lines_view(ls@).take(body.len() as int) == body
                &&& match m.tool_calls {
                    Some(calls) => tool_lines_ok(*reg, calls@, lines_view(ls@).skip(body.len() as int)),
                    None => ls@.len() == body.len(),
                }
            },
        },
{
    if str_eq(m.role.as_str(), "system") || str_eq(m.role.as_str(), "tool") {
        return Ok(Vec::new());
    }
    let sender = match Sender::of_role(m.role.as_str(), opts.username.as_str()) {
        Some(s) => s,
        None => return Err(concat2("Unknown role: ", m.role.as_str())),
    };
    let mut out: Vec<MessageLine> = Vec::new();
    if one_line(m, &sender, opts.width) {
        let text = match &m.content {
            Some(c) => c.clone(),
            None => String::new(),
        };
        out.push(MessageLine::Short { sender, text });
        proof {
            assert(lines_view(out@) =~= seq![
                LineView::Short { sender: sender_view(sender), text: opt_seq(m.content).unwrap() },
            ]);
        }
        return Ok(out);
    }
    let ghost s = sender_view(sender);
    let thoughts = m.reasoning.is_some() && !opts.show_reasoning;
    out.push(MessageLine::Header { sender: sender.copy(), thoughts });
    let ghost opts_v = *opts;
    let ghost reason = opt_seq(m.reasoning);
    let ghost content = opt_seq(m.content);
    let ghost thought_lines = match reason {
        Some(r) => if r.len() > 0 && opts_v.show_reasoning {
            split_spec(r, '\n').map_values(|l: Seq<char>| LineView::Reasoning(l))
        } else {
            Seq::<LineView>::empty()
        },
        None => Seq::<LineView>::empty(),
    };
    let ghost content_lines = match content {
        Some(c) => if c.len() == 0 {
            Seq::<LineView>::empty()
        } else if opts_v.render_markdown {
            seq![LineView::Markdown(c)]
        } else {
            split_spec(c, '\n').map_values(|l: Seq<char>| LineView::Content(l))
        },
        None => Seq::<LineView>::empty(),
    };
    let ghost header = seq![
        LineView::Header { sender: s, thoughts: reason is Some && !opts_v.show_reasoning },
    ];
    assert(lines_view(out@) =~= header);
    match &m.reasoning {
        Some(r) => {
            if char_count(r.as_str()) > 0 && opts.show_reasoning {
                let pieces = split_on(r.as_str(), '\n');
                let ls = piece_lines(pieces, true);
                proof {
                    assert(lines_view(ls@) =~= split_spec(r@, '\n').map_values(
                        |l: Seq<char>| LineView::Reasoning(l),
                    ));
                }
                append_lines(&mut out, ls);
            }
        },
        None => {},
    }
    assert(lines_view(out@) =~= header + thought_lines);
    match &m.content {
        Some(c) => {
            if char_count(c.as_str()) > 0 {
                if opts.render_markdown {
                    out.push(MessageLine::Markdown(c.clone()));
                } else {
                    let pieces = split_on(c.as_str(), '\n');
                    let ls = piece_lines(pieces, false);
                    proof {
                        assert(lines_view(ls@) =~= split_spec(c@, '\n').map_values(
                            |l: Seq<char>| LineView::Content(l),
                        ));
                    }
                    append_lines(&mut out, ls);
                }
            }
        },
        None => {},
    }
    let ghost body = body_lines(opt_seq(m.reasoning), opt_seq(m.content), s, *opts);
    proof {
        assert(lines_view(out@) =~= header + thought_lines + content_lines);
        assert(body == header + thought_lines + content_lines);
    }
    match &m.tool_calls {
        Some(calls) => {
            let mut i: usize = 0;
            while i < calls.len()
                invariant
                    reg.wf(),
                    i <= calls@.len(),
                    out@.len() == body.len() + i,
                    lines_view(out@).take(body.len() as int) == body,
                    tool_lines_ok(*reg, calls@.take(i as int), lines_view(out@).skip(body.len() as int)),
                decreases calls@.len() - i,
            {
                let call = &calls[i];
                let icon = reg.tool_icon(call.name.as_str());
                let summary = reg.tool_short(call.name.as_str(), call.arguments.as_str());
                let ghost before = out@;
                out.push(MessageLine::ToolCall { icon, name: call.name.clone(), summary });
                proof {
                    assert(lines_view(out@) =~= lines_view(before).push(line_view(out@.last())));
                    assert(lines_view(out@).take(body.len() as int) =~= lines_view(before).take(
                        body.len() as int,
                    ));
                    assert(lines_view(out@).skip(body.len() as int) =~= lines_view(before).skip(
                        body.len() as int,
                    ).push(line_view(out@.last())));
                    assert(calls@.take(i + 1) =~= calls@.take(i as int).push(calls@[i as int]));
                    let ls = lines_view(out@).skip(body.len() as int);
                    assert forall|j: int| 0 <= j < i + 1 implies (#[trigger] ls[j] matches LineView::ToolCall { icon, name, summary }
                        && icon == reg.icon_answer(calls@.take(i + 1)[j].name@) && name == calls@.take(i + 1)[j].name@
                        && reg.short_answer(calls@.take(i + 1)[j].name@, calls@.take(i + 1)[j].arguments@, summary)) by {
                        if j < i {
                            assert(ls[j] == lines_view(before).skip(body.len() as int)[j]);
                        }
                    }
                }
                i = i + 1;
            }
            proof {
                assert(calls@.take(calls@.len() as int) =~= calls@);
            }
        },
        None => {},
    }
    Ok(out)
}

} // verus!
