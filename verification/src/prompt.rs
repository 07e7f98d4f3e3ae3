//! The system prompt: the agent's soul, what it runs on, how it works,
//! what it remembers and the repository's own instructions.
use vstd::prelude::*;
use crate::text::concat2;
use crate::memory::{shown, shown_entries};

verus! {

/// What the system prompt is made of, as read from the machine.
pub struct PromptContext {
    /// The text of the soul file.
    pub soul: String,
    pub model_name: String,
    /// The path of the running program.
    pub executable: String,
    /// The folder holding the configuration.
    pub config_folder: String,
    pub os_name: String,
    /// The current working directory.
    pub cwd: String,
    /// The date and hour, as shown to the model.
    pub timestamp: String,
    pub user_memory_path: String,
    /// The text of the user memory file.
    pub user_memory: String,
    pub system_memory_path: String,
    /// The text of the system memory file.
    pub system_memory: String,
    /// The text of `AGENTS.md` in the working directory, if there is one.
    pub agents_md: Option<String>,
}

/// How the agent works, with the model, program and configuration folder.
pub open spec fn runtime_section(model: Seq<char>, exe: Seq<char>, cfg: Seq<char>) -> Seq<char> {
    RUNTIME_HEAD@ + model + "\n- Environment Binary: "@ + exe + "\n- Config Root: "@ + cfg + RUNTIME_RULES@
}

/// Where the agent runs.
pub open spec fn context_section(os: Seq<char>, cwd: Seq<char>, time: Seq<char>) -> Seq<char> {
    "# Operating Context\n- OS Environment: "@ + os + "\n- Active Working Directory: "@ + cwd
        + "\n- Current Timestamp: "@ + time
        + " (use `datetime` tool for precise execution timestamps)\n"@
}

/// What the agent remembers: both memory files, their entries shown one
/// per line.
pub open spec fn memory_section(
    user_path: Seq<char>,
    user_text: Seq<char>,
    system_path: Seq<char>,
    system_text: Seq<char>,
) -> Seq<char> {
    MEMORY_HEAD@ + user_path + ")\n"@ + shown(user_text) + "\n\n## System Context ("@ + system_path
        + ")\n"@ + shown(system_text) + "\n"@
}

/// The repository's own instructions, when it has an `AGENTS.md`.
pub open spec fn agents_section(agents_md: Option<Seq<char>>) -> Seq<char> {
    match agents_md {
        Some(t) => "# Repository Instructions (AGENTS.md)\n"@ + t + "\n"@,
        None => Seq::empty(),
    }
}

/// The view of an optional string.
pub open spec fn opt_text(o: Option<String>) -> Option<Seq<char>> {
    match o {
        Some(s) => Some(s@),
        None => None,
    }
}

/// The system prompt: soul, runtime, operating context and memory, each
/// followed by an empty line, then the repository's instructions.
pub open spec fn system_prompt_text(c: PromptContext) -> Seq<char> {
    c.soul@ + "\n"@ + runtime_section(c.model_name@, c.executable@, c.config_folder@) + "\n"@
        + context_section(c.os_name@, c.cwd@, c.timestamp@) + "\n"@ + memory_section(
        c.user_memory_path@,
        c.user_memory@,
        c.system_memory_path@,
        c.system_memory@,
    ) + "\n"@ + agents_section(opt_text(c.agents_md))
}

/// The system prompt of a terminal session: the system prompt, the user's
/// name and, when given, the commands the user has.
pub open spec fn tui_prompt_text(c: PromptContext, username: Seq<char>, help: Option<Seq<char>>) -> Seq<char> {
    system_prompt_text(c) + "# Terminal Interface Session\nActive TUI User: "@ + username + "\n"@ + "\n"@
        + match help {
        Some(h) => "User's available TUI commands:\n"@ + h + "\n"@,
        None => Seq::empty(),
    }
}

/// The soul written when there is none yet.
pub const DEFAULT_SOUL: &'static str = "You are Mia, a personal, capable AI agent running on the user's workstation.\n";

/// The start of the runtime section, up to the model name.
pub const RUNTIME_HEAD: &'static str = "# Agent Runtime Information\n- Harness: mia-agent (https://github.com/mastermach50/mia-agent)\n- Active Model: ";

/// The end of the runtime section: the working rules.
pub const RUNTIME_RULES: &'static str = "\n\n# Core Execution Loop\nYou operate on a **Plan → Inspect → Execute → Verify** cycle:\n1. **Inspect First**: Probe workspace state using read-only tools (`fs_read_file`, `fs_grep_files`, `fs_list_dir`) before taking action. Never make blind changes.\n2. **Execute Autonomously**: Chain tools in sequence to achieve complete task resolution. Do not stop halfway to report partial progress unless blocked.\n3. **Verify State**: Always run tests, build scripts, or inspect patched files after writing or executing changes to confirm correctness.\n4. **Fail Forward**: Diagnostic tool failures directly. Interpret output, adapt strategy, and retry automatically.\n\n# Tool Discipline & Rules\n- **Specialization First**: Rely on specialized filesystem tools over broad `exec_shell` calls (`fs_grep_files` > `grep`, `fs_read_file` > `cat`). Fall back to `exec_shell` for compilation, package management, cli tools, and custom scripts.\n- **Confirmation Trust**: Safety mechanisms present user confirmation prompts for destructive actions automatically. Do not ask for user consent manually in chat unless a command was explicitly denied.\n- **Concise Directness**: Do not narrate routine steps before calling tools. Execute the tools, process output, and deliver precise technical summaries upon task completion.\n\n# Tone & User Persona\n- **Assume Technical Competence**: The user is highly capable and tech-savvy. Speak directly, peer-to-peer, without handholding or overly simplifying concepts.\n- **No Fluff or Handholding**: Omit apologetic filler, safety disclaimers, or obvious conversational meta-talk.\n- **Direct Communication**: State facts, errors, and fixes plainly without sugarcoating.\n";

/// The start of the memory section, up to the user memory path.
pub const MEMORY_HEAD: &'static str = "# Long-Term Persistent Memory\nYou have active access to persistent memory files across sessions. \n- Use the `memory` tool to retain context on developer preferences, tech stack conventions, and recurring environment setups.\n- Keep memory concise and atomic. Delete invalidated facts immediately.\n\n## User Context (";

/// The system prompt built from `ctx`.
pub fn get_system_prompt(ctx: &PromptContext) -> (r: String)
    ensures
        r@ == system_prompt_text(*ctx),
{
    let mut s = concat2(ctx.soul.as_str(), "\n");
    s.append(RUNTIME_HEAD);
    s.append(ctx.model_name.as_str());
    s.append("\n- Environment Binary: ");
    s.append(ctx.executable.as_str());
    s.append("\n- Config Root: ");
    s.append(ctx.config_folder.as_str());
    s.append(RUNTIME_RULES);
    s.append("\n");
    s.append("# Operating Context\n- OS Environment: ");
    s.append(ctx.os_name.as_str());
    s.append("\n- Active Working Directory: ");
    s.append(ctx.cwd.as_str());
    s.append("\n- Current Timestamp: ");
    s.append(ctx.timestamp.as_str());
    s.append(" (use `datetime` tool for precise execution timestamps)\n");
    s.append("\n");
    let user = shown_entries(ctx.user_memory.as_str());
    let system = shown_entries(ctx.system_memory.as_str());
    s.append(MEMORY_HEAD);
    s.append(ctx.user_memory_path.as_str());
    s.append(")\n");
    s.append(user.as_str());
    s.append("\n\n## System Context (");
    s.append(ctx.system_memory_path.as_str());
    s.append(")\n");
    s.append(system.as_str());
    s.append("\n");
    s.append("\n");
    match &ctx.agents_md {
        Some(t) => {
            s.append("# Repository Instructions (AGENTS.md)\n");
            s.append(t.as_str());
            s.append("\n");
        },
        None => {},
    }
    s
}

/// The system prompt of a terminal session of `username`, with the help
/// text of the commands when given.
pub fn tui_system_prompt(ctx: &PromptContext, username: &str, help_msg: Option<&str>) -> (r: String)
    ensures
        r@ == tui_prompt_text(*ctx, username@, match help_msg {
            Some(h) => Some(h@),
            None => None,
        }),
{
    let mut s = get_system_prompt(ctx);
    s.append("# Terminal Interface Session\nActive TUI User: ");
    s.append(username);
    s.append("\n");
    s.append("\n");
    match help_msg {
        Some(h) => {
            s.append("User's available TUI commands:\n");
            s.append(h);
            s.append("\n");
        },
        None => {},
    }
    s
}

} // verus!
