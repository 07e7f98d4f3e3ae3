//! The agent's tools: their names, icons, availability on this machine and
//! the one-line summary the interface shows for each call.
use vstd::prelude::*;
use crate::text::{
    str_eq, str_lt, owned, decimal, decimal_string, lines, lines_spec, lex_lt, lemma_lex_total,
    lemma_lex_transitive,
};
use crate::json_args::{json_valid, json_str_field, json_u64_field, args_are_json, arg_str, arg_u64};
use crate::memory::Memory;
use vstd::utf8::encode_utf8;

verus! {

/// A tool the agent can call, in the order of their names.
#[derive(Debug, Clone, Copy, PartialEq, Eq, Structural)]
pub enum ToolKind {
    DateTime,
    DocConvert,
    DocCreate,
    ExecPython,
    ExecShell,
    FileList,
    FileSearch,
    FileWriter,
    /// The file-contents search the documentation lists as `fs_grep_files`.
    /// No implementation of it exists: it is registered under its name and
    /// icon, is never available (so its schema is never offered), and a
    /// call summary of it is empty.
    FSGrepFiles,
    FSListDir,
    FSReadFile,
    FSSearchDirs,
    FSWriteFile,
    Memory,
    Shell,
    WebExtract,
    WebSearch,
}

/// The tools the agent offers, in the order the registry records them: the
/// documented set. The earlier file tools (`file_list`, `file_search`,
/// `file_write`, `shell`) and `doc_create` keep their summaries and plans
/// but are not registered.
pub open spec fn all_kinds() -> Seq<ToolKind> {
    seq![
        ToolKind::DateTime,
        ToolKind::FSListDir,
        ToolKind::FSReadFile,
        ToolKind::FSGrepFiles,
        ToolKind::FSSearchDirs,
        ToolKind::FSWriteFile,
        ToolKind::ExecPython,
        ToolKind::ExecShell,
        ToolKind::Memory,
        ToolKind::WebExtract,
        ToolKind::WebSearch,
        ToolKind::DocConvert,
    ]
}

/// What the machine offers the tools: which programs are on the search path
/// and whether a Tavily API key is set.
#[derive(Debug, Clone, Copy, PartialEq, Eq, Structural)]
pub struct Probe {
    pub pandoc: bool,
    pub pdflatex: bool,
    pub python3: bool,
    pub bash: bool,
    pub ls: bool,
    pub fd: bool,
    pub tavily_key: bool,
}

/// Whether an executable named `name` is on the search path. Trusted:
/// `which::which` finds it; the answer depends on the machine, so nothing
/// is stated of it.
#[verifier::external_body]
fn on_path(name: &str) -> bool {
    which::which(name).is_ok()
}

impl Probe {
    /// Looks up each program the tools run; whether the Tavily key is set
    /// is handed in.
    pub fn gather(tavily_key: bool) -> (r: Probe)
        ensures
            r.tavily_key == tavily_key,
    {
        Probe {
            pandoc: on_path("pandoc"),
            pdflatex: on_path("pdflatex"),
            python3: on_path("python3"),
            bash: on_path("bash"),
            ls: on_path("ls"),
            fd: on_path("fd"),
            tavily_key,
        }
    }
}

/// The reason a document tool is unavailable: the missing programs, joined
/// with a comma, then " not found"; `None` when both are there.
pub open spec fn missing_doc_programs(p: Probe) -> Option<Seq<char>> {
    if p.pandoc && p.pdflatex {
        None
    } else if !p.pandoc && !p.pdflatex {
        Some("pandoc, pdflatex not found"@)
    } else if !p.pandoc {
        Some("pandoc not found"@)
    } else {
        Some("pdflatex not found"@)
    }
}

impl ToolKind {
    /// The function name the model calls the tool by.
    pub open spec fn spec_name(self) -> Seq<char> {
        match self {
            ToolKind::DateTime => "datetime"@,
            ToolKind::DocConvert => "doc_convert"@,
            ToolKind::DocCreate => "doc_create"@,
            ToolKind::ExecPython => "exec_python"@,
            ToolKind::ExecShell => "exec_shell"@,
            ToolKind::FileList => "file_list"@,
            ToolKind::FileSearch => "file_search"@,
            ToolKind::FileWriter => "file_write"@,
            ToolKind::FSGrepFiles => "fs_grep_files"@,
            ToolKind::FSListDir => "fs_list_dir"@,
            ToolKind::FSReadFile => "fs_read_file"@,
            ToolKind::FSSearchDirs => "fs_search_dirs"@,
            ToolKind::FSWriteFile => "fs_write_file"@,
            ToolKind::Memory => "memory"@,
            ToolKind::Shell => "shell"@,
            ToolKind::WebExtract => "web_extract"@,
            ToolKind::WebSearch => "web_search"@,
        }
    }

    /// The emoji the interface shows beside a call of the tool.
    pub open spec fn spec_icon(self) -> Seq<char> {
        match self {
            ToolKind::DateTime => "📅"@,
            ToolKind::DocConvert => "📄"@,
            ToolKind::DocCreate => "📄"@,
            ToolKind::ExecPython => "🐍"@,
            ToolKind::ExecShell => "🐚"@,
            ToolKind::FileList => "📁"@,
            ToolKind::FileSearch => "🔍"@,
            ToolKind::FileWriter => "✍️"@,
            ToolKind::FSGrepFiles => "🔍"@,
            ToolKind::FSListDir => "📁"@,
            ToolKind::FSReadFile => "📖"@,
            ToolKind::FSSearchDirs => "🧭"@,
            ToolKind::FSWriteFile => "✍️"@,
            ToolKind::Memory => "🧠"@,
            ToolKind::Shell => "🐚"@,
            ToolKind::WebExtract => "🪏"@,
            ToolKind::WebSearch => "🌐"@,
        }
    }

    /// Why the tool cannot run on a machine like `p`; `None` when it can.
    pub open spec fn spec_unavailable(self, p: Probe) -> Option<Seq<char>> {
        match self {
            ToolKind::DocConvert | ToolKind::DocCreate => missing_doc_programs(p),
            ToolKind::ExecPython => if p.python3 {
                None
            } else {
                Some("python3 not found"@)
            },
            ToolKind::ExecShell | ToolKind::Shell => if p.bash {
                None
            } else {
                Some("bash not found"@)
            },
            ToolKind::FileList => if p.ls {
                None
            } else {
                Some("ls not found"@)
            },
            ToolKind::FSSearchDirs => if p.fd {
                None
            } else {
                Some("fd not found"@)
            },
            ToolKind::WebExtract | ToolKind::WebSearch => if p.tavily_key {
                None
            } else {
                Some("TAVILY_API_KEY not found"@)
            },
            ToolKind::FSGrepFiles => Some("no implementation"@),
            _ => None,
        }
    }

    /// The tool whose function name is `name`, if any.
    pub open spec fn spec_from_name(name: Seq<char>) -> Option<ToolKind> {
        if name == "datetime"@ {
            Some(ToolKind::DateTime)
        } else if name == "doc_convert"@ {
            Some(ToolKind::DocConvert)
        } else if name == "doc_create"@ {
            Some(ToolKind::DocCreate)
        } else if name == "exec_python"@ {
            Some(ToolKind::ExecPython)
        } else if name == "exec_shell"@ {
            Some(ToolKind::ExecShell)
        } else if name == "file_list"@ {
            Some(ToolKind::FileList)
        } else if name == "file_search"@ {
            Some(ToolKind::FileSearch)
        } else if name == "file_write"@ {
            Some(ToolKind::FileWriter)
        } else if name == "fs_grep_files"@ {
            Some(ToolKind::FSGrepFiles)
        } else if name == "fs_list_dir"@ {
            Some(ToolKind::FSListDir)
        } else if name == "fs_read_file"@ {
            Some(ToolKind::FSReadFile)
        } else if name == "fs_search_dirs"@ {
            Some(ToolKind::FSSearchDirs)
        } else if name == "fs_write_file"@ {
            Some(ToolKind::FSWriteFile)
        } else if name == "memory"@ {
            Some(ToolKind::Memory)
        } else if name == "shell"@ {
            Some(ToolKind::Shell)
        } else if name == "web_extract"@ {
            Some(ToolKind::WebExtract)
        } else if name == "web_search"@ {
            Some(ToolKind::WebSearch)
        } else {
            None
        }
    }

    /// The tools the agent offers, in the order the registry records them.
    pub fn all() -> (r: Vec<ToolKind>)
        ensures
            r@ == all_kinds(),
    {
        let r = vec![
            ToolKind::DateTime,
            ToolKind::FSListDir,
            ToolKind::FSReadFile,
            ToolKind::FSGrepFiles,
            ToolKind::FSSearchDirs,
            ToolKind::FSWriteFile,
            ToolKind::ExecPython,
            ToolKind::ExecShell,
            ToolKind::Memory,
            ToolKind::WebExtract,
            ToolKind::WebSearch,
            ToolKind::DocConvert,
        ];
        assert(r@ =~= all_kinds());
        r
    }

    /// The function name the model calls the tool by.
    pub fn name(&self) -> (r: &'static str)
        ensures
            r@ == self.spec_name(),
    {
        match self {
            ToolKind::DateTime => "datetime",
            ToolKind::DocConvert => "doc_convert",
            ToolKind::DocCreate => "doc_create",
            ToolKind::ExecPython => "exec_python",
            ToolKind::ExecShell => "exec_shell",
            ToolKind::FileList => "file_list",
            ToolKind::FileSearch => "file_search",
            ToolKind::FileWriter => "file_write",
            ToolKind::FSGrepFiles => "fs_grep_files",
            ToolKind::FSListDir => "fs_list_dir",
            ToolKind::FSReadFile => "fs_read_file",
            ToolKind::FSSearchDirs => "fs_search_dirs",
            ToolKind::FSWriteFile => "fs_write_file",
            ToolKind::Memory => "memory",
            ToolKind::Shell => "shell",
            ToolKind::WebExtract => "web_extract",
            ToolKind::WebSearch => "web_search",
        }
    }

    /// The emoji the interface shows beside a call of the tool.
    pub fn icon(&self) -> (r: &'static str)
        ensures
            r@ == self.spec_icon(),
    {
        match self {
            ToolKind::DateTime => "📅",
            ToolKind::DocConvert => "📄",
            ToolKind::DocCreate => "📄",
            ToolKind::ExecPython => "🐍",
            ToolKind::ExecShell => "🐚",
            ToolKind::FileList => "📁",
            ToolKind::FileSearch => "🔍",
            ToolKind::FileWriter => "✍️",
            ToolKind::FSGrepFiles => "🔍",
            ToolKind::FSListDir => "📁",
            ToolKind::FSReadFile => "📖",
            ToolKind::FSSearchDirs => "🧭",
            ToolKind::FSWriteFile => "✍️",
            ToolKind::Memory => "🧠",
            ToolKind::Shell => "🐚",
            ToolKind::WebExtract => "🪏",
            ToolKind::WebSearch => "🌐",
        }
    }

    /// Whether the tool can run on a machine like `probe`, and if not, why.
    pub fn availability(&self, probe: &Probe) -> (r: Result<(), String>)
        ensures
            match r {
                Ok(()) => self.spec_unavailable(*probe) is None,
                Err(m) => self.spec_unavailable(*probe) == Some(m@),
            },
    {
        match self {
            ToolKind::DocConvert | ToolKind::DocCreate => {
                if probe.pandoc && probe.pdflatex {
                    Ok(())
                } else if !probe.pandoc && !probe.pdflatex {
                    Err(owned("pandoc, pdflatex not found"))
                } else if !probe.pandoc {
                    Err(owned("pandoc not found"))
                } else {
                    Err(owned("pdflatex not found"))
                }
            },
            ToolKind::ExecPython => {
                if probe.python3 {
                    Ok(())
                } else {
                    Err(owned("python3 not found"))
                }
            },
            ToolKind::ExecShell | ToolKind::Shell => {
                if probe.bash {
                    Ok(())
                } else {
                    Err(owned("bash not found"))
                }
            },
            ToolKind::FileList => {
                if probe.ls {
                    Ok(())
                } else {
                    Err(owned("ls not found"))
                }
            },
            ToolKind::FSSearchDirs => {
                if probe.fd {
                    Ok(())
                } else {
                    Err(owned("fd not found"))
                }
            },
            ToolKind::WebExtract | ToolKind::WebSearch => {
                if probe.tavily_key {
                    Ok(())
                } else {
                    Err(owned("TAVILY_API_KEY not found"))
                }
            },
            ToolKind::FSGrepFiles => Err(owned("no implementation")),
            _ => Ok(()),
        }
    }
}

// ---------------------------------------------------------------------
// One-line summaries of tool calls
// ---------------------------------------------------------------------

/// The string field `key` of the arguments `args`, or `d` when there is none.
pub open spec fn field_or(args: Seq<char>, key: Seq<char>, d: Seq<char>) -> Seq<char> {
    match json_str_field(args, key) {
        Some(s) => s,
        None => d,
    }
}

/// The unsigned integer field `key` of the arguments, or `d` when there is none.
pub open spec fn count_or(args: Seq<char>, key: Seq<char>, d: u64) -> u64 {
    match json_u64_field(args, key) {
        Some(n) => n,
        None => d,
    }
}

/// The length in bytes of the UTF-8 encoding of `s`, as `str::len` gives it.
pub open spec fn byte_len(s: Seq<char>) -> usize {
    encode_utf8(s).len() as usize
}

/// The operator the memory summary shows for an operation name.
pub open spec fn memory_operator(operation: Seq<char>) -> Seq<char> {
    if operation == "insert"@ {
        "+"@
    } else if operation == "delete"@ {
        "-"@
    } else {
        "?"@
    }
}

impl ToolKind {
    /// The summary shown for a call of the tool with arguments `args`; the
    /// date and time tool shows the clock, which is not a function of them,
    /// and the file-contents search, which has no implementation, shows
    /// nothing.
    pub open spec fn spec_summary(self, args: Seq<char>) -> Seq<char> {
        match self {
            ToolKind::DocConvert => field_or(args, "input_path"@, ""@) + " -> "@ + field_or(
                args,
                "output_path"@,
                ""@,
            ),
            ToolKind::DocCreate => field_or(args, "input_format"@, ""@) + " ("@ + decimal(
                byte_len(field_or(args, "contents"@, ""@)) as nat,
            ) + " bytes) -> "@ + field_or(args, "output_file"@, ""@),
            ToolKind::ExecPython => decimal(lines_spec(field_or(args, "code"@, ""@)).len())
                + " lines"@,
            ToolKind::ExecShell | ToolKind::Shell => field_or(args, "command"@, ""@),
            ToolKind::FileList | ToolKind::FSListDir => field_or(args, "path"@, "."@),
            ToolKind::FileSearch => field_or(args, "pattern"@, "(no pattern provided)"@)
                + " -> "@ + field_or(args, "path"@, "."@),
            ToolKind::FileWriter | ToolKind::FSReadFile => field_or(args, "path"@, ""@),
            ToolKind::FSSearchDirs => field_or(args, "pattern"@, "(no pattern provided)"@)
                + " -> "@ + field_or(args, "path"@, "."@) + " ("@ + decimal(
                count_or(args, "max_depth"@, 5) as nat,
            ) + ")"@,
            ToolKind::FSWriteFile => field_or(args, "path"@, ""@) + " ("@ + decimal(
                byte_len(field_or(args, "content"@, ""@)) as nat,
            ) + " bytes)"@,
            ToolKind::Memory => field_or(args, "memory_type"@, ""@) + " "@ + memory_operator(
                field_or(args, "operation"@, ""@),
            ) + field_or(args, "content"@, ""@),
            ToolKind::WebExtract => field_or(args, "url"@, ""@),
            ToolKind::WebSearch => field_or(args, "query"@, ""@) + " (top: "@ + decimal(
                count_or(args, "max_results"@, 10) as nat,
            ) + ")"@,
            ToolKind::DateTime | ToolKind::FSGrepFiles => Seq::empty(),
        }
    }
}

/// The string field `key` of the arguments, or `d` when there is none.
fn str_arg_or(args: &str, key: &str, d: &str) -> (r: String)
    ensures
        r@ == field_or(args@, key@, d@),
{
    match arg_str(args, key) {
        Some(s) => s,
        None => owned(d),
    }
}

/// The unsigned integer field `key` of the arguments, or `d`.
fn u64_arg_or(args: &str, key: &str, d: u64) -> (r: u64)
    ensures
        r == count_or(args@, key@, d),
{
    match arg_u64(args, key) {
        Some(n) => n,
        None => d,
    }
}

/// `c` is an ASCII decimal digit.
pub open spec fn is_digit(c: char) -> bool {
    '0' <= c && c <= '9'
}

/// The characters of `s` from `a` up to `b` are all digits.
pub open spec fn digits_at(s: Seq<char>, a: int, b: int) -> bool {
    forall|i: int| a <= i < b ==> is_digit(s[i])
}

/// The English day abbreviations RFC 2822 uses.
pub open spec fn rfc2822_weekdays() -> Seq<Seq<char>> {
    seq!["Sun"@, "Mon"@, "Tue"@, "Wed"@, "Thu"@, "Fri"@, "Sat"@]
}

/// The English month abbreviations RFC 2822 uses.
pub open spec fn rfc2822_months() -> Seq<Seq<char>> {
    seq!["Jan"@, "Feb"@, "Mar"@, "Apr"@, "May"@, "Jun"@, "Jul"@, "Aug"@, "Sep"@, "Oct"@, "Nov"@, "Dec"@]
}

/// What follows the day of the month in an RFC 2822 date and time: the
/// month, the four-digit year, `HH:MM:SS` and the zone offset `+HHMM` or
/// `-HHMM`, each after one space.
pub open spec fn rfc2822_after_day(t: Seq<char>) -> bool {
    &&& t.len() == 24
    &&& t[0] == ' '
    &&& rfc2822_months().contains(t.subrange(1, 4))
    &&& t[4] == ' ' && digits_at(t, 5, 9)
    &&& t[9] == ' ' && digits_at(t, 10, 12)
    &&& t[12] == ':' && digits_at(t, 13, 15)
    &&& t[15] == ':' && digits_at(t, 16, 18)
    &&& t[18] == ' ' && (t[19] == '+' || t[19] == '-') && digits_at(t, 20, 24)
}

/// An RFC 2822 date and time as chrono writes it, such as
/// `Tue, 1 Jul 2003 10:52:37 +0200`: the day abbreviation, a comma and a
/// space, the day of the month in one or two digits, then the rest.
pub open spec fn is_rfc2822_datetime(s: Seq<char>) -> bool {
    &&& s.len() >= 7
    &&& rfc2822_weekdays().contains(s.subrange(0, 3))
    &&& s[3] == ',' && s[4] == ' ' && is_digit(s[5])
    &&& (rfc2822_after_day(s.skip(6)) || (is_digit(s[6]) && rfc2822_after_day(s.skip(7))))
}

/// The local date and time in RFC 2822 form. Trusted: `chrono::Local::now`
/// followed by `to_rfc2822`, which writes the form above (chrono's
/// `write_rfc2822`). Which date and time it shows depends on the clock and
/// the time zone of the machine, so nothing more is stated; chrono panics
/// on a year past 9999, which the clock does not reach.
#[verifier::external_body]
fn local_now_rfc2822() -> (r: String)
    ensures
        is_rfc2822_datetime(r@),
{
    chrono::Local::now().to_rfc2822()
}

/// The date and time tool.
pub struct DateTime;

/// The document conversion tool (pandoc).
pub struct DocConvert;

/// The document creation tool (pandoc or pdflatex).
pub struct DocCreate;

/// The Python execution tool.
pub struct ExecPython;

/// The shell execution tool with a working directory.
pub struct ExecShell;

/// The directory listing tool (`ls -la`).
pub struct FileList;

/// The content search tool (ripgrep).
pub struct FileSearch;

/// The file writing tool.
pub struct FileWriter;

/// The directory listing tool with metadata.
pub struct FSListDir;

/// The text file reading tool.
pub struct FSReadFile;

/// The file name search tool (fd).
pub struct FSSearchDirs;

/// The file writing tool that asks for approval.
pub struct FSWriteFile;

/// The plain shell tool.
pub struct Shell;

/// The web page extraction tool (Tavily).
pub struct WebExtract;

/// The web search tool (Tavily).
pub struct WebSearch;

impl DateTime {
    /// The summary of a call: the current local date and time, in RFC 2822
    /// form.
    pub fn short(&self, _args: &str) -> (r: String)
        ensures
            is_rfc2822_datetime(r@),
    {
        local_now_rfc2822()
    }
}

impl DocConvert {
    /// The summary of a call: `input -> output`.
    pub fn short(&self, args: &str) -> (r: String)
        ensures
            r@ == ToolKind::DocConvert.spec_summary(args@),
    {
        let src = str_arg_or(args, "input_path", "");
        let dest = str_arg_or(args, "output_path", "");
        let mut r = src;
        r.append(" -> ");
        r.append(dest.as_str());
        r
    }
}

impl DocCreate {
    /// The summary of a call: `format (n bytes) -> output`.
    pub fn short(&self, args: &str) -> (r: String)
        ensures
            r@ == ToolKind::DocCreate.spec_summary(args@),
    {
        let fmt = str_arg_or(args, "input_format", "");
        let out = str_arg_or(args, "output_file", "");
        let contents = str_arg_or(args, "contents", "");
        let n = decimal_string(contents.as_str().len() as u64);
        let mut r = fmt;
        r.append(" (");
        r.append(n.as_str());
        r.append(" bytes) -> ");
        r.append(out.as_str());
        r
    }
}

impl ExecPython {
    /// The summary of a call: the number of lines of code.
    pub fn call_summary(&self, args: &str) -> (r: String)
        ensures
            r@ == ToolKind::ExecPython.spec_summary(args@),
    {
        let code = str_arg_or(args, "code", "");
        let n = lines(code.as_str()).len();
        proof {
            assert(lines_spec(code@).len() == n);
        }
        let mut r = decimal_string(n as u64);
        r.append(" lines");
        r
    }
}

impl ExecShell {
    /// The summary of a call: the command.
    pub fn call_summary(&self, args: &str) -> (r: String)
        ensures
            r@ == ToolKind::ExecShell.spec_summary(args@),
    {
        str_arg_or(args, "command", "")
    }
}

impl FileList {
    /// The summary of a call: the folder listed.
    pub fn short(&self, args: &str) -> (r: String)
        ensures
            r@ == ToolKind::FileList.spec_summary(args@),
    {
        str_arg_or(args, "path", ".")
    }
}

impl FileSearch {
    /// The summary of a call: `pattern -> path`.
    pub fn short(&self, args: &str) -> (r: String)
        ensures
            r@ == ToolKind::FileSearch.spec_summary(args@),
    {
        let pattern = str_arg_or(args, "pattern", "(no pattern provided)");
        let path = str_arg_or(args, "path", ".");
        let mut r = pattern;
        r.append(" -> ");
        r.append(path.as_str());
        r
    }
}

impl FileWriter {
    /// The summary of a call: the file written.
    pub fn short(&self, args: &str) -> (r: String)
        ensures
            r@ == ToolKind::FileWriter.spec_summary(args@),
    {
        str_arg_or(args, "path", "")
    }
}

impl FSListDir {
    /// The summary of a call: the folder listed.
    pub fn short(&self, args: &str) -> (r: String)
        ensures
            r@ == ToolKind::FSListDir.spec_summary(args@),
    {
        str_arg_or(args, "path", ".")
    }
}

impl FSReadFile {
    /// The summary of a call: the file read.
    pub fn short(&self, args: &str) -> (r: String)
        ensures
            r@ == ToolKind::FSReadFile.spec_summary(args@),
    {
        str_arg_or(args, "path", "")
    }
}

impl FSSearchDirs {
    /// The summary of a call: `pattern -> path (depth)`.
    pub fn short(&self, args: &str) -> (r: String)
        ensures
            r@ == ToolKind::FSSearchDirs.spec_summary(args@),
    {
        let pattern = str_arg_or(args, "pattern", "(no pattern provided)");
        let path = str_arg_or(args, "path", ".");
        let depth = decimal_string(u64_arg_or(args, "max_depth", 5));
        let mut r = pattern;
        r.append(" -> ");
        r.append(path.as_str());
        r.append(" (");
        r.append(depth.as_str());
        r.append(")");
        r
    }
}

impl FSWriteFile {
    /// The summary of a call: `path (n bytes)`.
    pub fn short(&self, args: &str) -> (r: String)
        ensures
            r@ == ToolKind::FSWriteFile.spec_summary(args@),
    {
        let path = str_arg_or(args, "path", "");
        let content = str_arg_or(args, "content", "");
        let n = decimal_string(content.as_str().len() as u64);
        let mut r = path;
        r.append(" (");
        r.append(n.as_str());
        r.append(" bytes)");
        r
    }
}

impl Memory {
    /// The summary of a call: the memory, `+` or `-`, and the entry.
    pub fn short(&self, args: &str) -> (r: String)
        ensures
            r@ == ToolKind::Memory.spec_summary(args@),
    {
        let memory_type = str_arg_or(args, "memory_type", "");
        let operation = str_arg_or(args, "operation", "");
        let content = str_arg_or(args, "content", "");
        let op = if str_eq(operation.as_str(), "insert") {
            "+"
        } else if str_eq(operation.as_str(), "delete") {
            "-"
        } else {
            "?"
        };
        let mut r = memory_type;
        r.append(" ");
        r.append(op);
        r.append(content.as_str());
        r
    }
}

impl Shell {
    /// The summary of a call: the command.
    pub fn short(&self, args: &str) -> (r: String)
        ensures
            r@ == ToolKind::Shell.spec_summary(args@),
    {
        str_arg_or(args, "command", "")
    }
}

impl WebExtract {
    /// The summary of a call: the address.
    pub fn short(&self, args: &str) -> (r: String)
        ensures
            r@ == ToolKind::WebExtract.spec_summary(args@),
    {
        str_arg_or(args, "url", "")
    }
}

impl WebSearch {
    /// The summary of a call: `query (top: n)`.
    pub fn short(&self, args: &str) -> (r: String)
        ensures
            r@ == ToolKind::WebSearch.spec_summary(args@),
    {
        let query = str_arg_or(args, "query", "");
        let top = decimal_string(u64_arg_or(args, "max_results", 10));
        let mut r = query;
        r.append(" (top: ");
        r.append(top.as_str());
        r.append(")");
        r
    }
}

impl ToolKind {
    /// The summary the interface shows for a call of the tool with `args`.
    pub fn summary(&self, args: &str) -> (r: String)
        ensures
            *self != ToolKind::DateTime ==> r@ == self.spec_summary(args@),
            *self == ToolKind::DateTime ==> is_rfc2822_datetime(r@),
    {
        match self {
            ToolKind::DateTime => DateTime.short(args),
            ToolKind::DocConvert => DocConvert.short(args),
            ToolKind::DocCreate => DocCreate.short(args),
            ToolKind::ExecPython => ExecPython.call_summary(args),
            ToolKind::ExecShell => ExecShell.call_summary(args),
            ToolKind::FileList => FileList.short(args),
            ToolKind::FileSearch => FileSearch.short(args),
            ToolKind::FileWriter => FileWriter.short(args),
            ToolKind::FSGrepFiles => String::new(),
            ToolKind::FSListDir => FSListDir.short(args),
            ToolKind::FSReadFile => FSReadFile.short(args),
            ToolKind::FSSearchDirs => FSSearchDirs.short(args),
            ToolKind::FSWriteFile => FSWriteFile.short(args),
            ToolKind::Memory => Memory.short(args),
            ToolKind::Shell => Shell.short(args),
            ToolKind::WebExtract => WebExtract.short(args),
            ToolKind::WebSearch => WebSearch.short(args),
        }
    }
}

// ---------------------------------------------------------------------
// The registry
// ---------------------------------------------------------------------

/// A registered tool and whether it could run when it was registered.
#[derive(Debug, Clone, Copy)]
pub struct ToolEntry {
    pub kind: ToolKind,
    pub is_available: bool,
}

/// The tools the agent offers, each recorded once with its availability on
/// the machine it was probed on.
pub struct ToolRegistry {
    entries: Vec<ToolEntry>,
    probe: Probe,
}

/// The status line of a tool: its name, whether it is available, and why
/// not (empty when it is).
pub open spec fn status_of(k: ToolKind, p: Probe) -> (Seq<char>, bool, Seq<char>) {
    (
        k.spec_name(),
        k.spec_unavailable(p) is None,
        match k.spec_unavailable(p) {
            Some(m) => m,
            None => Seq::empty(),
        },
    )
}

/// A status line by the views of its strings.
pub open spec fn row_view(r: (String, bool, String)) -> (Seq<char>, bool, Seq<char>) {
    (r.0@, r.1, r.2@)
}

/// The status lines are in strictly increasing order of their names.
pub open spec fn names_sorted(rows: Seq<(String, bool, String)>) -> bool {
    forall|a: int, b: int| 0 <= a < b < rows.len() ==> lex_lt(rows[a].0@, rows[b].0@)
}

/// What a call of a tool by name comes to: the tool to run, or the error
/// the model gets back.
#[derive(Debug, Clone, Copy, PartialEq, Eq, Structural)]
pub enum ToolCall {
    Run(ToolKind),
    InvalidArguments,
    Unregistered,
}

impl ToolCall {
    /// The message of a refused call; empty for a call that runs.
    pub open spec fn spec_message(self) -> Seq<char> {
        match self {
            ToolCall::Run(_) => Seq::empty(),
            ToolCall::InvalidArguments => "Invalid tool arguments or malformed json"@,
            ToolCall::Unregistered => "Unregistered tool requested"@,
        }
    }

    /// The message of a refused call; empty for a call that runs.
    pub fn message(&self) -> (r: &'static str)
        ensures
            r@ == self.spec_message(),
    {
        match self {
            ToolCall::Run(_) => {
                proof {
                    reveal_strlit("");
                }
                ""
            },
            ToolCall::InvalidArguments => "Invalid tool arguments or malformed json",
            ToolCall::Unregistered => "Unregistered tool requested",
        }
    }
}

impl ToolRegistry {
    /// The registered tools, in registration order.
    pub closed spec fn kinds(&self) -> Seq<ToolKind> {
        self.entries@.map_values(|e: ToolEntry| e.kind)
    }

    /// The machine the tools were probed on.
    pub closed spec fn spec_probe(&self) -> Probe {
        self.probe
    }

    /// Each tool is recorded once, with the availability the probe gives it.
    pub closed spec fn wf(&self) -> bool {
        &&& forall|i: int, j: int|
            0 <= i < j < self.entries@.len() ==> self.entries@[i].kind != self.entries@[j].kind
        &&& forall|i: int|
            0 <= i < self.entries@.len() ==> self.entries@[i].is_available == (
            self.entries@[i].kind.spec_unavailable(self.probe) is None)
    }

    /// The emoji shown for the tool called `name`: a question mark for a
    /// name no tool is registered under.
    pub open spec fn icon_answer(&self, name: Seq<char>) -> Seq<char> {
        match self.registered(name) {
            Some(k) => k.spec_icon(),
            None => "❓"@,
        }
    }

    /// What the summary `r` of a call of `name` with `args` is: a question
    /// mark for arguments that are not JSON or an unknown name, else the
    /// tool's summary (the date and time tool shows the clock, in RFC 2822
    /// form).
    pub open spec fn short_answer(&self, name: Seq<char>, args: Seq<char>, r: Seq<char>) -> bool {
        &&& !json_valid(args) ==> r == "❓"@
        &&& json_valid(args) ==> match self.registered(name) {
            Some(k) => if k == ToolKind::DateTime {
                is_rfc2822_datetime(r)
            } else {
                r == k.spec_summary(args)
            },
            None => r == "❓"@,
        }
    }

    /// The registered tool called `name`, if any.
    pub open spec fn registered(&self, name: Seq<char>) -> Option<ToolKind> {
        match ToolKind::spec_from_name(name) {
            Some(k) => if self.kinds().contains(k) {
                Some(k)
            } else {
                None
            },
            None => None,
        }
    }

    /// The status lines of the registered tools, in registration order.
    pub open spec fn statuses(&self) -> Seq<(Seq<char>, bool, Seq<char>)> {
        self.kinds().map_values(|k: ToolKind| status_of(k, self.spec_probe()))
    }

    /// Registers every tool with its availability on a machine like `probe`.
    pub fn with_probe(probe: Probe) -> (r: Self)
        ensures
            r.wf(),
            r.kinds() == all_kinds(),
            r.spec_probe() == probe,
    {
        let all = ToolKind::all();
        let mut entries: Vec<ToolEntry> = Vec::new();
        let mut i: usize = 0;
        while i < all.len()
            invariant
                all@ == all_kinds(),
                i <= all.len(),
                entries@.len() == i,
                forall|j: int| 0 <= j < i ==> entries@[j].kind == all_kinds()[j],
                forall|j: int|
                    0 <= j < i ==> entries@[j].is_available == (
                    all_kinds()[j].spec_unavailable(probe) is None),
            decreases all.len() - i,
        {
            let kind = all[i];
            let is_available = kind.availability(&probe).is_ok();
            entries.push(ToolEntry { kind, is_available });
            i = i + 1;
        }
        let r = ToolRegistry { entries, probe };
        assert(r.kinds() =~= all_kinds());
        r
    }

    /// Probes the machine and registers every tool; whether the Tavily key
    /// is set is handed in.
    pub fn init(tavily_key: bool) -> (r: Self)
        ensures
            r.wf(),
            r.kinds() == all_kinds(),
            r.spec_probe().tavily_key == tavily_key,
    {
        Self::with_probe(Probe::gather(tavily_key))
    }

    /// The registered tool called `name`, if any.
    pub fn lookup(&self, name: &str) -> (r: Option<ToolKind>)
        requires
            self.wf(),
        ensures
            r == self.registered(name@),
    {
        let mut i: usize = 0;
        while i < self.entries.len()
            invariant
                i <= self.entries@.len(),
                forall|j: int| 0 <= j < i ==> self.entries@[j].kind.spec_name() != name@,
            decreases self.entries@.len() - i,
        {
            let k = self.entries[i].kind;
            if str_eq(k.name(), name) {
                proof {
                    law_tool_from_name_of_name(k);
                    assert(self.kinds()[i as int] == k);
                }
                return Some(k);
            }
            i = i + 1;
        }
        proof {
            lemma_from_name_names(name@);
            if let Some(k) = ToolKind::spec_from_name(name@) {
                if self.kinds().contains(k) {
                    let j = choose|j: int| 0 <= j < self.kinds().len() && self.kinds()[j] == k;
                    assert(self.entries@[j].kind == k);
                }
            }
        }
        None
    }

    /// The emoji of the tool called `name`; a question mark for a name no
    /// tool is registered under.
    pub fn tool_icon(&self, name: &str) -> (r: String)
        requires
            self.wf(),
        ensures
            r@ == self.icon_answer(name@),
    {
        match self.lookup(name) {
            Some(k) => owned(k.icon()),
            None => owned("❓"),
        }
    }

    /// The summary of a call of the tool called `name` with the arguments
    /// `args`; a question mark when the arguments are not JSON or no tool
    /// has that name.
    pub fn tool_short(&self, name: &str, args: &str) -> (r: String)
        requires
            self.wf(),
        ensures
            self.short_answer(name@, args@, r@),
    {
        if !args_are_json(args) {
            return owned("❓");
        }
        match self.lookup(name) {
            Some(k) => k.summary(args),
            None => owned("❓"),
        }
    }

    /// What a call of the tool called `name` with the arguments `args`
    /// comes to: arguments that are not JSON are refused first, then a name
    /// no tool is registered under.
    pub fn call(&self, name: &str, args: &str) -> (r: ToolCall)
        requires
            self.wf(),
        ensures
            !json_valid(args@) ==> r == ToolCall::InvalidArguments,
            json_valid(args@) ==> r == match self.registered(name@) {
                Some(k) => ToolCall::Run(k),
                None => ToolCall::Unregistered,
            },
    {
        if !args_are_json(args) {
            return ToolCall::InvalidArguments;
        }
        match self.lookup(name) {
            Some(k) => ToolCall::Run(k),
            None => ToolCall::Unregistered,
        }
    }

    /// The tools whose schema is offered to the model: the available ones,
    /// in registration order.
    pub fn available_tools(&self) -> (r: Vec<ToolKind>)
        requires
            self.wf(),
        ensures
            r@ == self.kinds().filter(|k: ToolKind| k.spec_unavailable(self.spec_probe()) is None),
    {
        let ghost keep = |k: ToolKind| k.spec_unavailable(self.spec_probe()) is None;
        let mut out: Vec<ToolKind> = Vec::new();
        let mut i: usize = 0;
        while i < self.entries.len()
            invariant
                self.wf(),
                i <= self.entries@.len(),
                keep == (|k: ToolKind| k.spec_unavailable(self.spec_probe()) is None),
                out@ == self.kinds().take(i as int).filter(keep),
            decreases self.entries@.len() - i,
        {
            proof {
                reveal(Seq::filter);
                assert(self.kinds().take(i + 1).drop_last() =~= self.kinds().take(i as int));
                assert(self.kinds().take(i + 1).last() == self.entries@[i as int].kind);
            }
            if self.entries[i].is_available {
                out.push(self.entries[i].kind);
            }
            i = i + 1;
        }
        assert(self.kinds().take(self.entries@.len() as int) =~= self.kinds());
        out
    }

    /// The status line of every registered tool, sorted by name.
    pub fn tools_status(&self) -> (r: Vec<(String, bool, String)>)
        requires
            self.wf(),
        ensures
            r@.map_values(|x: (String, bool, String)| row_view(x)).to_multiset()
                == self.statuses().to_multiset(),
            names_sorted(r@),
    {
        broadcast use vstd::seq_lib::group_to_multiset_ensures;

        let ghost st = self.statuses();
        let mut out: Vec<(String, bool, String)> = Vec::new();
        let mut i: usize = 0;
        while i < self.entries.len()
            invariant
                self.wf(),
                st == self.statuses(),
                i <= self.entries@.len(),
                out@.map_values(|x: (String, bool, String)| row_view(x)).to_multiset()
                    == st.take(i as int).to_multiset(),
                forall|a: int|
                    0 <= a < out@.len() ==> exists|j: int|
                        0 <= j < i && (#[trigger] out@[a]).0@ == self.kinds()[j].spec_name(),
                names_sorted(out@),
            decreases self.entries@.len() - i,
        {
            let kind = self.entries[i].kind;
            let reason = match kind.availability(&self.probe) {
                Ok(()) => String::new(),
                Err(m) => m,
            };
            let row = (owned(kind.name()), self.entries[i].is_available, reason);
            proof {
                assert(self.kinds()[i as int] == kind);
                assert(row_view(row) == st[i as int]);
            }
            let mut pos: usize = 0;
            while pos < out.len() && !str_lt(row.0.as_str(), out[pos].0.as_str())
                invariant
                    pos <= out@.len(),
                    forall|a: int| 0 <= a < pos ==> !lex_lt(row.0@, (#[trigger] out@[a]).0@),
                decreases out@.len() - pos,
            {
                pos = pos + 1;
            }
            proof {
                assert forall|a: int| 0 <= a < out@.len() implies (#[trigger] out@[a]).0@
                    != row.0@ by {
                    let j = choose|j: int| 0 <= j < i && out@[a].0@ == self.kinds()[j].spec_name();
                    lemma_tool_names_distinct(self.kinds()[j], kind);
                    assert(self.entries@[j].kind != self.entries@[i as int].kind);
                }
                assert forall|a: int| 0 <= a < pos implies lex_lt(
                    (#[trigger] out@[a]).0@,
                    row.0@,
                ) by {
                    lemma_lex_total(out@[a].0@, row.0@);
                }
                if pos < out@.len() {
                    assert forall|a: int| pos <= a < out@.len() implies lex_lt(
                        row.0@,
                        (#[trigger] out@[a]).0@,
                    ) by {
                        if a > pos {
                            lemma_lex_transitive(row.0@, out@[pos as int].0@, out@[a].0@);
                        }
                    }
                }
            }
            let ghost before = out@;
            out.insert(pos, row);
            proof {
                assert(out@.map_values(|x: (String, bool, String)| row_view(x)) =~= before.map_values(
                    |x: (String, bool, String)| row_view(x),
                ).insert(pos as int, row_view(row)));
                assert(st.take(i + 1) =~= st.take(i as int).push(st[i as int]));
                vstd::seq_lib::to_multiset_insert(
                    before.map_values(|x: (String, bool, String)| row_view(x)),
                    pos as int,
                    row_view(row),
                );
                vstd::seq_lib::to_multiset_build(st.take(i as int), st[i as int]);
                assert forall|a: int, b: int| 0 <= a < b < out@.len() implies lex_lt(
                    out@[a].0@,
                    out@[b].0@,
                ) by {
                    if b < pos {
                    } else if b == pos {
                    } else if a < pos {
                        assert(out@[b] == before[b - 1]);
                        lemma_lex_transitive(out@[a].0@, row.0@, before[b - 1].0@);
                    } else if a == pos {
                    } else {
                        assert(out@[a] == before[a - 1]);
                        assert(out@[b] == before[b - 1]);
                    }
                }
                assert forall|a: int| 0 <= a < out@.len() implies exists|j: int|
                    0 <= j < i + 1 && (#[trigger] out@[a]).0@ == self.kinds()[j].spec_name() by {
                    if a < pos {
                        assert(out@[a] == before[a]);
                    } else if a == pos {
                        assert(out@[a].0@ == self.kinds()[i as int].spec_name());
                    } else {
                        assert(out@[a] == before[a - 1]);
                    }
                }
            }
            i = i + 1;
        }
        proof {
            assert(st.take(self.entries@.len() as int) =~= st);
        }
        out
    }
}

// ---------------------------------------------------------------------
// Asking the user
// ---------------------------------------------------------------------

/// Whether a call goes ahead once the user answered (or was not asked).
#[derive(Debug, Clone, Copy, PartialEq, Eq, Structural)]
pub enum Permission {
    /// The call runs.
    Run,
    /// The user declined; the model gets back this tool's decline message.
    Declined,
}

impl ToolKind {
    /// The tool writes files or runs commands on the user's behalf, so it
    /// asks the user before every call.
    pub open spec fn spec_gated(self) -> bool {
        match self {
            ToolKind::ExecPython | ToolKind::ExecShell | ToolKind::FileWriter
            | ToolKind::FSWriteFile | ToolKind::Shell => true,
            _ => false,
        }
    }

    /// The message the model gets back when the user declines a call.
    pub open spec fn spec_declined_message(self) -> Seq<char> {
        match self {
            ToolKind::ExecPython => "User declined to execute Python code"@,
            ToolKind::ExecShell | ToolKind::Shell => "User declined to execute command"@,
            ToolKind::FileWriter | ToolKind::FSWriteFile => "User declined to write file"@,
            _ => Seq::empty(),
        }
    }

    /// Whether a call goes ahead given the user's answer, if asked.
    pub open spec fn spec_permission(self, answer: Option<bool>) -> Permission {
        if self.spec_gated() && answer != Some(true) {
            Permission::Declined
        } else {
            Permission::Run
        }
    }

    /// Whether the tool asks the user before every call.
    pub fn gated(&self) -> (r: bool)
        ensures
            r == self.spec_gated(),
    {
        match self {
            ToolKind::ExecPython | ToolKind::ExecShell | ToolKind::FileWriter
            | ToolKind::FSWriteFile | ToolKind::Shell => true,
            _ => false,
        }
    }

    /// Whether a call goes ahead: a gated tool runs only when the user
    /// granted it (`answer` is `Some(true)`); other tools run unasked.
    pub fn permission(&self, answer: Option<bool>) -> (r: Permission)
        ensures
            r == self.spec_permission(answer),
    {
        if self.gated() {
            match answer {
                Some(true) => Permission::Run,
                _ => Permission::Declined,
            }
        } else {
            Permission::Run
        }
    }

    /// The message the model gets back when the user declines a call; empty
    /// for tools that do not ask.
    pub fn declined_message(&self) -> (r: &'static str)
        ensures
            r@ == self.spec_declined_message(),
    {
        match self {
            ToolKind::ExecPython => "User declined to execute Python code",
            ToolKind::ExecShell | ToolKind::Shell => "User declined to execute command",
            ToolKind::FileWriter | ToolKind::FSWriteFile => "User declined to write file",
            _ => {
                proof {
                    reveal_strlit("");
                }
                ""
            },
        }
    }
}

/// No tool that writes files or runs commands goes ahead without the
/// user's yes.
pub proof fn law_no_write_without_permission(k: ToolKind, answer: Option<bool>)
    requires
        k.spec_gated(),
        answer != Some(true),
    ensures
        k.spec_permission(answer) == Permission::Declined,
        k.spec_declined_message().len() > 0,
{
    reveal_strlit("User declined to execute Python code");
    reveal_strlit("User declined to execute command");
    reveal_strlit("User declined to write file");
}

/// The documented tools are exactly the registered ones: `datetime`,
/// `fs_list_dir`, `fs_read_file`, `fs_grep_files`, `fs_search_dirs`,
/// `fs_write_file`, `exec_python`, `exec_shell`, `memory`, `web_extract`,
/// `web_search` and `doc_convert`.
pub open spec fn documented(k: ToolKind) -> bool {
    match k {
        ToolKind::DocCreate | ToolKind::FileList | ToolKind::FileSearch | ToolKind::FileWriter
        | ToolKind::Shell => false,
        _ => true,
    }
}

/// After registering the tools, looking up a documented tool by its own
/// function name finds it, and its emoji is the tool's; the name of any
/// other tool finds nothing and shows a question mark.
pub proof fn law_registered_own_name(reg: ToolRegistry, k: ToolKind)
    requires
        reg.kinds() == all_kinds(),
    ensures
        documented(k) ==> reg.registered(k.spec_name()) == Some(k),
        documented(k) ==> reg.icon_answer(k.spec_name()) == k.spec_icon(),
        !documented(k) ==> reg.registered(k.spec_name()) is None,
        !documented(k) ==> reg.icon_answer(k.spec_name()) == "❓"@,
{
    law_tool_from_name_of_name(k);
    lemma_all_kinds_documented(k);
}

/// The registered tools are the documented ones.
proof fn lemma_all_kinds_documented(k: ToolKind)
    ensures
        all_kinds().contains(k) == documented(k),
{
    if documented(k) {
        let i: int = match k {
            ToolKind::DateTime => 0,
            ToolKind::FSListDir => 1,
            ToolKind::FSReadFile => 2,
            ToolKind::FSGrepFiles => 3,
            ToolKind::FSSearchDirs => 4,
            ToolKind::FSWriteFile => 5,
            ToolKind::ExecPython => 6,
            ToolKind::ExecShell => 7,
            ToolKind::Memory => 8,
            ToolKind::WebExtract => 9,
            ToolKind::WebSearch => 10,
            _ => 11,
        };
        assert(all_kinds()[i] == k);
    } else {
        assert forall|i: int| 0 <= i < all_kinds().len() implies all_kinds()[i] != k by {}
    }
}

/// No two tools share a function name.
pub proof fn lemma_tool_names_distinct(p: ToolKind, q: ToolKind)
    ensures
        p.spec_name() == q.spec_name() ==> p == q,
{
    reveal_strlit("datetime");
    reveal_strlit("doc_convert");
    reveal_strlit("doc_create");
    reveal_strlit("exec_python");
    reveal_strlit("exec_shell");
    reveal_strlit("file_list");
    reveal_strlit("file_search");
    reveal_strlit("file_write");
    reveal_strlit("fs_grep_files");
    reveal_strlit("fs_list_dir");
    reveal_strlit("fs_read_file");
    reveal_strlit("fs_search_dirs");
    reveal_strlit("fs_write_file");
    reveal_strlit("memory");
    reveal_strlit("shell");
    reveal_strlit("web_extract");
    reveal_strlit("web_search");
    if p != q {
        assert(p.spec_name()[0] != q.spec_name()[0] || p.spec_name()[1] != q.spec_name()[1]
            || p.spec_name()[3] != q.spec_name()[3] || p.spec_name().len() != q.spec_name().len());
    }
}

/// Looking a tool up by its own function name finds it again.
pub proof fn law_tool_from_name_of_name(k: ToolKind)
    ensures
        ToolKind::spec_from_name(k.spec_name()) == Some(k),
{
    lemma_tool_names_distinct(k, ToolKind::DateTime);
    lemma_tool_names_distinct(k, ToolKind::DocConvert);
    lemma_tool_names_distinct(k, ToolKind::DocCreate);
    lemma_tool_names_distinct(k, ToolKind::ExecPython);
    lemma_tool_names_distinct(k, ToolKind::ExecShell);
    lemma_tool_names_distinct(k, ToolKind::FileList);
    lemma_tool_names_distinct(k, ToolKind::FileSearch);
    lemma_tool_names_distinct(k, ToolKind::FileWriter);
    lemma_tool_names_distinct(k, ToolKind::FSGrepFiles);
    lemma_tool_names_distinct(k, ToolKind::FSListDir);
    lemma_tool_names_distinct(k, ToolKind::FSReadFile);
    lemma_tool_names_distinct(k, ToolKind::FSSearchDirs);
    lemma_tool_names_distinct(k, ToolKind::FSWriteFile);
    lemma_tool_names_distinct(k, ToolKind::Memory);
    lemma_tool_names_distinct(k, ToolKind::Shell);
    lemma_tool_names_distinct(k, ToolKind::WebExtract);
}

/// A name that finds a tool is that tool's function name.
pub proof fn lemma_from_name_names(name: Seq<char>)
    ensures
        ToolKind::spec_from_name(name) matches Some(k) ==> k.spec_name() == name,
{
}

} // verus!
