//! What the user's input means: slash commands of both terminal interfaces,
//! answers to permission prompts, and command highlighting.
use vstd::prelude::*;
use crate::config::ModelConfig;
use crate::text::{
    all_chars_are, concat2, every_char_is, has_prefix, owned, starts_with, str_eq, trim, trim_spec,
};

verus! {

/// The commands the terminal interface recognises as complete: those the
/// help text lists, `/` among them.
pub open spec fn commands() -> Seq<Seq<char>> {
    seq!["/"@, "/help"@, "/new"@, "/model"@, "/yolo"@, "/exit"@, "/bye"@]
}

/// Whether `command` is one of the recognised commands.
pub fn is_valid_command(command: &str) -> (r: bool)
    ensures
        r == commands().contains(command@),
{
    let all = ["/", "/help", "/new", "/model", "/yolo", "/exit", "/bye"];
    let mut i: usize = 0;
    while i < 7
        invariant
            i <= 7,
            forall|j: int| 0 <= j < 7 ==> all@[j]@ == commands()[j],
            forall|j: int| 0 <= j < i ==> commands()[j] != command@,
        decreases 7 - i,
    {
        if str_eq(all[i], command) {
            assert(commands()[i as int] == command@);
            return true;
        }
        i = i + 1;
    }
    assert(!commands().contains(command@)) by {
        if commands().contains(command@) {
            let j = choose|j: int| 0 <= j < commands().len() && commands()[j] == command@;
            assert(j < 7);
        }
    }
    false
}

/// The help text of the terminal interface.
pub open spec fn help_text() -> Seq<char> {
    "Keybinds\n    <Esc>     Exit the TUI\n    <Ctrl-C>  Stop agent turn\n\nCommands\n    / /help     Show this help message\n    /exit /bye  Exit the TUI\n    /new        Start a new session\n    /model      Show the model information\n    /yolo       Toggle YOLO mode\n"@
}

/// The help text of the terminal interface.
pub fn get_help_message() -> (r: String)
    ensures
        r@ == help_text(),
{
    owned(
        "Keybinds\n    <Esc>     Exit the TUI\n    <Ctrl-C>  Stop agent turn\n\nCommands\n    / /help     Show this help message\n    /exit /bye  Exit the TUI\n    /new        Start a new session\n    /model      Show the model information\n    /yolo       Toggle YOLO mode\n",
    )
}

/// What a command typed into the terminal interface does.
#[derive(Debug, Clone, Copy, PartialEq, Eq, Structural)]
pub enum CommandAction {
    ShowHelp,
    NewSession,
    ShowModel,
    ToggleYolo,
    Exit,
    Unknown,
}

/// What `command` does.
pub open spec fn spec_command_action(command: Seq<char>) -> CommandAction {
    if command == "/help"@ || command == "/"@ {
        CommandAction::ShowHelp
    } else if command == "/new"@ {
        CommandAction::NewSession
    } else if command == "/model"@ {
        CommandAction::ShowModel
    } else if command == "/yolo"@ {
        CommandAction::ToggleYolo
    } else if command == "/exit"@ || command == "/bye"@ {
        CommandAction::Exit
    } else {
        CommandAction::Unknown
    }
}

/// What `command` does in the terminal interface.
pub fn command_action(command: &str) -> (r: CommandAction)
    ensures
        r == spec_command_action(command@),
{
    if str_eq(command, "/help") || str_eq(command, "/") {
        CommandAction::ShowHelp
    } else if str_eq(command, "/new") {
        CommandAction::NewSession
    } else if str_eq(command, "/model") {
        CommandAction::ShowModel
    } else if str_eq(command, "/yolo") {
        CommandAction::ToggleYolo
    } else if str_eq(command, "/exit") || str_eq(command, "/bye") {
        CommandAction::Exit
    } else {
        CommandAction::Unknown
    }
}

/// The text the `/model` command shows.
pub open spec fn model_text(name: Seq<char>, provider: Seq<char>, base_url: Seq<char>, reasoning: Seq<
    char,
>) -> Seq<char> {
    "Model     : "@ + name + "\n"@ + "Provider  : "@ + provider + "\n"@ + "Base URL  : "@ + base_url
        + "\n"@ + "Reasoning : "@ + reasoning + "\n"@
}

/// The text the `/model` command shows.
pub fn model_info_text(model: &ModelConfig) -> (r: String)
    ensures
        r@ == model_text(model.name@, model.provider@, model.base_url@, model.reasoning@),
{
    let mut t = concat2("Model     : ", model.name.as_str());
    t.append("\n");
    t.append("Provider  : ");
    t.append(model.provider.as_str());
    t.append("\n");
    t.append("Base URL  : ");
    t.append(model.base_url.as_str());
    t.append("\n");
    t.append("Reasoning : ");
    t.append(model.reasoning.as_str());
    t.append("\n");
    t
}

/// Input starting with `/`, but not a `//` comment, is a command.
pub open spec fn is_command_input(input: Seq<char>) -> bool {
    has_prefix(input, "/"@) && !has_prefix(input, "//"@)
}

/// A yes to a permission prompt: `yes`, or nothing but `y`s.
pub open spec fn is_yes(input: Seq<char>) -> bool {
    input == "yes"@ || all_chars_are(input, 'y')
}

/// What submitting the input box does.
#[derive(Debug, Clone, Copy, PartialEq, Eq, Structural)]
pub enum Submission {
    /// The input is empty: nothing happens.
    Ignore,
    /// The input is a command.
    Command,
    /// The input answers the pending permission prompt.
    PermissionAnswer(bool),
    /// The input is a message to the agent.
    Message,
}

/// What submitting `input` does, given whether a permission prompt is pending.
pub open spec fn spec_classify(input: Seq<char>, permission_pending: bool) -> Submission {
    if input.len() == 0 {
        Submission::Ignore
    } else if is_command_input(input) {
        Submission::Command
    } else if permission_pending {
        Submission::PermissionAnswer(is_yes(input))
    } else {
        Submission::Message
    }
}

/// What submitting `input` does: empty input is ignored, commands come
/// first, then an answer to a pending permission prompt, else a message.
pub fn classify_submission(input: &str, permission_pending: bool) -> (r: Submission)
    ensures
        r == spec_classify(input@, permission_pending),
{
    if input.unicode_len() == 0 {
        Submission::Ignore
    } else if is_command(input) {
        Submission::Command
    } else if permission_pending {
        Submission::PermissionAnswer(str_eq(input, "yes") || every_char_is(input, 'y'))
    } else {
        Submission::Message
    }
}

/// Whether `input` is a command (starts with `/` but not `//`).
pub fn is_command(input: &str) -> (r: bool)
    ensures
        r == is_command_input(input@),
{
    starts_with(input, "/") && !starts_with(input, "//")
}

/// How the input box is coloured.
#[derive(Debug, Clone, Copy, PartialEq, Eq, Structural)]
pub enum Highlight {
    Plain,
    ValidCommand,
    OtherCommand,
}

/// How the input box is coloured for `input`.
pub fn input_highlight(input: &str) -> (r: Highlight)
    ensures
        r == if !is_command_input(input@) {
            Highlight::Plain
        } else if commands().contains(input@) {
            Highlight::ValidCommand
        } else {
            Highlight::OtherCommand
        },
{
    if !is_command(input) {
        Highlight::Plain
    } else if is_valid_command(input) {
        Highlight::ValidCommand
    } else {
        Highlight::OtherCommand
    }
}

/// Lower-case form of a string, as `str::to_lowercase` gives it.
pub uninterp spec fn lowercased(s: Seq<char>) -> Seq<char>;

/// Every character of `s` is ASCII.
pub open spec fn is_ascii_text(s: Seq<char>) -> bool {
    forall|i: int| 0 <= i < s.len() ==> (s[i] as u32) < 128
}

/// The ASCII lower-case form of a character: `A` to `Z` become `a` to `z`,
/// every other character stays.
pub open spec fn ascii_lower(c: char) -> char {
    if 'A' <= c && c <= 'Z' {
        ((c as u32) + 32) as char
    } else {
        c
    }
}

/// The lower-case form of `s`. Trusted: `str::to_lowercase` maps each
/// character to its Unicode lower-case form; the result is named by
/// `lowercased` and depends on `s` alone. On ASCII text that form is the
/// ASCII one, character by character (the empty string stays empty); of
/// other text nothing more is stated.
#[verifier::external_body]
fn to_lowercase(s: &str) -> (r: String)
    ensures
        r@ == lowercased(s@),
        is_ascii_text(s@) ==> r@ == s@.map_values(|c: char| ascii_lower(c)),
{
    s.to_lowercase()
}

/// A lower-cased answer that grants permission: `y`, `yes`, or nothing
/// but `y`s.
pub open spec fn is_yes_word(a: Seq<char>) -> bool {
    a == "y"@ || a == "yes"@ || all_chars_are(a, 'y')
}

/// A yes typed at the plain terminal prompt: after trimming and lower-casing,
/// `y`, `yes`, or nothing but `y`s; an empty answer is never a yes.
pub open spec fn is_terminal_yes(input: Seq<char>) -> bool {
    trim_spec(input).len() > 0 && is_yes_word(lowercased(trim_spec(input)))
}

/// Whether an answer typed at the plain terminal prompt grants permission;
/// pressing Enter alone refuses. An ASCII answer is lower-cased letter by
/// letter, so `Y` and `YES` grant it too.
pub fn terminal_answer_is_yes(input: &str) -> (r: bool)
    ensures
        r == is_terminal_yes(input@),
        trim_spec(input@).len() == 0 ==> !r,
        is_ascii_text(trim_spec(input@)) ==> r == (trim_spec(input@).len() > 0 && is_yes_word(
            trim_spec(input@).map_values(|c: char| ascii_lower(c)),
        )),
{
    let t = trim(input);
    if t.as_str().unicode_len() == 0 {
        return false;
    }
    let a = to_lowercase(t.as_str());
    str_eq(a.as_str(), "y") || str_eq(a.as_str(), "yes") || every_char_is(a.as_str(), 'y')
}

/// What a line typed into the plain terminal interface does.
#[derive(Debug, Clone, Copy, PartialEq, Eq, Structural)]
pub enum LineAction {
    /// Empty line: ask again.
    Skip,
    Exit,
    NewSession,
    ClearScreen,
    ShowHelp,
    ShowModel,
    /// A `/` command that does not exist.
    Invalid,
    /// A message for the agent.
    Message,
}

/// What a trimmed line does in the plain terminal interface.
pub open spec fn spec_line_action(line: Seq<char>) -> LineAction {
    if line.len() == 0 {
        LineAction::Skip
    } else if line == "/exit"@ || line == "/bye"@ {
        LineAction::Exit
    } else if line == "/new"@ {
        LineAction::NewSession
    } else if line == "/clear"@ || line == "/cls"@ {
        LineAction::ClearScreen
    } else if line == "/"@ || line == "/help"@ {
        LineAction::ShowHelp
    } else if line == "/model"@ {
        LineAction::ShowModel
    } else if is_command_input(line) {
        LineAction::Invalid
    } else {
        LineAction::Message
    }
}

/// The line the user typed, trimmed, and what it does.
pub fn line_action(line: &str) -> (r: (String, LineAction))
    ensures
        r.0@ == trim_spec(line@),
        r.1 == spec_line_action(trim_spec(line@)),
{
    let t = trim(line);
    let s = t.as_str();
    let a = if s.unicode_len() == 0 {
        LineAction::Skip
    } else if str_eq(s, "/exit") || str_eq(s, "/bye") {
        LineAction::Exit
    } else if str_eq(s, "/new") {
        LineAction::NewSession
    } else if str_eq(s, "/clear") || str_eq(s, "/cls") {
        LineAction::ClearScreen
    } else if str_eq(s, "/") || str_eq(s, "/help") {
        LineAction::ShowHelp
    } else if str_eq(s, "/model") {
        LineAction::ShowModel
    } else if is_command(s) {
        LineAction::Invalid
    } else {
        LineAction::Message
    };
    (t, a)
}

/// The help text of the plain terminal interface.
pub open spec fn line_help_text() -> Seq<char> {
    "Commands:\n    /help         Show this help message\n    /exit /bye    Exit the tui\n    /new          Create a new session\n    /clear /cls   Clear screen\n    /model        Show model information\n\nKeybinds:\n    <Ctrl-C>      Cancel assistant/user message\n    <Ctrl-D>      Exit\n"@
}

/// The help text of the plain terminal interface.
pub fn line_help_message() -> (r: String)
    ensures
        r@ == line_help_text(),
{
    owned(
        "Commands:\n    /help         Show this help message\n    /exit /bye    Exit the tui\n    /new          Create a new session\n    /clear /cls   Clear screen\n    /model        Show model information\n\nKeybinds:\n    <Ctrl-C>      Cancel assistant/user message\n    <Ctrl-D>      Exit\n",
    )
}

/// What `/model` shows in the plain terminal interface.
pub fn line_model_text(model: &ModelConfig) -> (r: String)
    ensures
        r@ == "\nModel     : "@ + model.name@ + "\nBase URL  : "@ + model.base_url@
            + "\nReasoning : "@ + model.reasoning@,
{
    let mut t = concat2("\nModel     : ", model.name.as_str());
    t.append("\nBase URL  : ");
    t.append(model.base_url.as_str());
    t.append("\nReasoning : ");
    t.append(model.reasoning.as_str());
    t
}

/// Every recognised command is command input, so it is never sent to the
/// agent or taken as an answer to a permission prompt.
pub proof fn law_commands_are_commands(c: Seq<char>, pending: bool)
    requires
        commands().contains(c),
    ensures
        spec_classify(c, pending) == Submission::Command,
        spec_command_action(c) != CommandAction::Unknown,
{
    reveal_strlit("/help");
    reveal_strlit("/new");
    reveal_strlit("/model");
    reveal_strlit("/yolo");
    reveal_strlit("/exit");
    reveal_strlit("/bye");
    reveal_strlit("/");
    reveal_strlit("//");
    let j = choose|j: int| 0 <= j < commands().len() && commands()[j] == c;
    assert(c.take(1) =~= "/"@);
    if c.len() >= 2 {
        assert(c[1] != '/');
        assert(c.take(2) != "//"@) by {
            assert(c.take(2)[1] != "//"@[1]);
        }
    }
}

/// A `//` comment is never a command: it goes to the agent, or answers a
/// pending permission prompt.
pub proof fn law_comments_are_not_commands(input: Seq<char>, pending: bool)
    requires
        has_prefix(input, "//"@),
    ensures
        spec_classify(input, pending) != Submission::Command,
{
    reveal_strlit("//");
}

/// Only `yes` or a run of `y`s grants a pending permission; `no` does not.
pub proof fn law_no_is_not_yes()
    ensures
        !is_yes("no"@),
        !is_yes("n"@),
        is_yes("yes"@),
        is_yes("y"@),
{
    reveal_strlit("no");
    reveal_strlit("n");
    reveal_strlit("yes");
    reveal_strlit("y");
    assert("no"@[0] != 'y');
    assert("n"@[0] != 'y');
}

/// Each command does its own thing: `/model` and only it shows the model,
/// `/help` and `/` and only they show the help, `/new` starts a session,
/// `/yolo` toggles YOLO mode, `/exit` and `/bye` exit, and every input that
/// is not a recognised command is unknown.
pub proof fn law_each_command_its_action(c: Seq<char>)
    ensures
        (spec_command_action(c) == CommandAction::ShowModel) <==> c == "/model"@,
        (spec_command_action(c) == CommandAction::ShowHelp) <==> (c == "/help"@ || c == "/"@),
        (spec_command_action(c) == CommandAction::NewSession) <==> c == "/new"@,
        (spec_command_action(c) == CommandAction::ToggleYolo) <==> c == "/yolo"@,
        (spec_command_action(c) == CommandAction::Exit) <==> (c == "/exit"@ || c == "/bye"@),
        (spec_command_action(c) == CommandAction::Unknown) <==> !commands().contains(c),
{
    reveal_strlit("/");
    reveal_strlit("/help");
    reveal_strlit("/new");
    reveal_strlit("/model");
    reveal_strlit("/yolo");
    reveal_strlit("/exit");
    reveal_strlit("/bye");
    assert("/help"@ != "/new"@) by {
        assert("/help"@[1] != "/new"@[1]);
    }
    assert("/help"@ != "/model"@) by {
        assert("/help"@[1] != "/model"@[1]);
    }
    assert("/help"@ != "/yolo"@) by {
        assert("/help"@[1] != "/yolo"@[1]);
    }
    assert("/help"@ != "/exit"@) by {
        assert("/help"@[1] != "/exit"@[1]);
    }
    assert("/help"@ != "/bye"@) by {
        assert("/help"@[1] != "/bye"@[1]);
    }
    assert("/help"@ != "/"@) by {
        assert("/help"@.len() != "/"@.len());
    }
    assert("/new"@ != "/model"@) by {
        assert("/new"@[1] != "/model"@[1]);
    }
    assert("/new"@ != "/yolo"@) by {
        assert("/new"@[1] != "/yolo"@[1]);
    }
    assert("/new"@ != "/exit"@) by {
        assert("/new"@[1] != "/exit"@[1]);
    }
    assert("/new"@ != "/bye"@) by {
        assert("/new"@[1] != "/bye"@[1]);
    }
    assert("/new"@ != "/"@) by {
        assert("/new"@.len() != "/"@.len());
    }
    assert("/model"@ != "/yolo"@) by {
        assert("/model"@[1] != "/yolo"@[1]);
    }
    assert("/model"@ != "/exit"@) by {
        assert("/model"@[1] != "/exit"@[1]);
    }
    assert("/model"@ != "/bye"@) by {
        assert("/model"@[1] != "/bye"@[1]);
    }
    assert("/model"@ != "/"@) by {
        assert("/model"@.len() != "/"@.len());
    }
    assert("/yolo"@ != "/exit"@) by {
        assert("/yolo"@[1] != "/exit"@[1]);
    }
    assert("/yolo"@ != "/bye"@) by {
        assert("/yolo"@[1] != "/bye"@[1]);
    }
    assert("/yolo"@ != "/"@) by {
        assert("/yolo"@.len() != "/"@.len());
    }
    assert("/exit"@ != "/bye"@) by {
        assert("/exit"@[1] != "/bye"@[1]);
    }
    assert("/exit"@ != "/"@) by {
        assert("/exit"@.len() != "/"@.len());
    }
    assert("/bye"@ != "/"@) by {
        assert("/bye"@.len() != "/"@.len());
    }
    if commands().contains(c) {
        let j = choose|j: int| 0 <= j < commands().len() && commands()[j] == c;
        assert(j < 7);
    }
    if c == "/"@ {
        assert(commands()[0] == c);
    } else if c == "/help"@ {
        assert(commands()[1] == c);
    } else if c == "/new"@ {
        assert(commands()[2] == c);
    } else if c == "/model"@ {
        assert(commands()[3] == c);
    } else if c == "/yolo"@ {
        assert(commands()[4] == c);
    } else if c == "/exit"@ {
        assert(commands()[5] == c);
    } else if c == "/bye"@ {
        assert(commands()[6] == c);
    }
}

} // verus!
