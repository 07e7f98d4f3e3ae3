//! What a tool call asks the machine to do: the program and arguments it
//! runs, and the messages it answers with. Running the program, asking the
//! user and reading files is left to the caller.
use vstd::prelude::*;
use vstd::string::StringSliceAdditionalSpecFns;
use crate::text::{owned, concat2, decimal, decimal_string, str_eq};
use crate::json_args::{
    json_str_field, json_str_list_field, json_u64_field, arg_str, arg_str_list, arg_u64, opt_view,
};
use crate::config::{joined, join_path};
use crate::tools::{
    field_or, count_or, byte_len, FSListDir, FSReadFile, FSWriteFile, DocConvert, DocCreate, ExecPython, ExecShell, FileList, FileSearch,
    FSSearchDirs, Shell, WebSearch,
};

verus! {

// ---------------------------------------------------------------------
// Home directory expansion
// ---------------------------------------------------------------------

/// `input` with a leading `~` replaced by the home directory, when the `~`
/// stands alone or before a `/` and the home directory is known.
pub open spec fn tilde_expanded(input: Seq<char>, home: Option<Seq<char>>) -> Seq<char> {
    if input.len() > 0 && input[0] == '~' && (input.len() == 1 || input[1] == '/') {
        match home {
            Some(h) => h + input.drop_first(),
            None => input,
        }
    } else {
        input
    }
}

/// The view of an optional string slice.
pub open spec fn opt_str_view(o: Option<&str>) -> Option<Seq<char>> {
    match o {
        Some(s) => Some(s@),
        None => None,
    }
}

/// Expands a leading `~` with the home directory `home`. Trusted:
/// `shellexpand::tilde_with_context` replaces the `~` of `~` or `~/...`
/// with the home directory when one is given and leaves every other input
/// as it is (`~user` forms are not expanded).
#[verifier::external_body]
pub(crate) fn expand_tilde(input: &str, home: Option<&str>) -> (r: String)
    ensures
        r@ == tilde_expanded(input@, opt_str_view(home)),
{
    shellexpand::tilde_with_context(input, || home).into_owned()
}

// ---------------------------------------------------------------------
// Commands
// ---------------------------------------------------------------------

/// A program to run with its arguments, in `working_dir` when one is given.
pub struct Command {
    pub program: String,
    pub args: Vec<String>,
    pub working_dir: Option<String>,
}

/// A command by the views of its strings.
pub open spec fn command_view(c: Command) -> (Seq<char>, Seq<Seq<char>>, Option<Seq<char>>) {
    (c.program@, c.args@.map_values(|a: String| a@), opt_view(c.working_dir))
}

/// A list of string slices by their views.
pub open spec fn strs_view(v: Seq<&str>) -> Seq<Seq<char>> {
    v.map_values(|a: &str| a@)
}

/// Fresh strings holding the given slices.
fn owned_all(parts: &[&str]) -> (r: Vec<String>)
    ensures
        r@.map_values(|a: String| a@) == strs_view(parts@),
{
    let mut out: Vec<String> = Vec::new();
    let mut i: usize = 0;
    while i < parts.len()
        invariant
            i <= parts.len(),
            out@.map_values(|a: String| a@) == strs_view(parts@.take(i as int)),
        decreases parts.len() - i,
    {
        out.push(owned(parts[i]));
        proof {
            assert(strs_view(parts@.take(i + 1)) =~= strs_view(parts@.take(i as int)).push(
                parts@[i as int]@,
            ));
            assert(out@.map_values(|a: String| a@) =~= strs_view(parts@.take(i as int)).push(
                parts@[i as int]@,
            ));
        }
        i = i + 1;
    }
    assert(parts@.take(parts.len() as int) =~= parts@);
    out
}

/// A command without a working directory.
fn command(program: &str, args: Vec<String>) -> (r: Command)
    ensures
        command_view(r) == (program@, args@.map_values(|a: String| a@), None::<Seq<char>>),
{
    Command { program: owned(program), args, working_dir: None }
}

// ---------------------------------------------------------------------
// Document conversion
// ---------------------------------------------------------------------

/// The flags a conversion may pass on to pandoc.
pub open spec fn allowed_flag(a: Seq<char>) -> bool {
    a == "--standalone"@ || a == "--toc"@ || a == "--number-sections"@ || a == "--self-contained"@
}

/// The strings among the items, in order; other items are passed over.
pub open spec fn string_items(items: Seq<Option<Seq<char>>>) -> Seq<Seq<char>>
    decreases items.len(),
{
    if items.len() == 0 {
        Seq::empty()
    } else {
        let rest = string_items(items.drop_last());
        match items.last() {
            Some(s) => rest.push(s),
            None => rest,
        }
    }
}

/// The first flag that is not allowed, if any.
pub open spec fn first_refused(flags: Seq<Seq<char>>) -> Option<Seq<char>>
    decreases flags.len(),
{
    if flags.len() == 0 {
        None
    } else {
        match first_refused(flags.drop_last()) {
            Some(a) => Some(a),
            None => if allowed_flag(flags.last()) {
                None
            } else {
                Some(flags.last())
            },
        }
    }
}

/// The extra flags asked for in the arguments: the strings of the array
/// `extra_args`, or none when there is no such array.
pub open spec fn extra_flags(args: Seq<char>) -> Seq<Seq<char>> {
    match json_str_list_field(args, "extra_args"@) {
        Some(items) => string_items(items),
        None => Seq::empty(),
    }
}

/// `--name value` when the string field `key` is present, else nothing.
pub open spec fn opt_flag(args: Seq<char>, key: Seq<char>, flag: Seq<char>) -> Seq<Seq<char>> {
    match json_str_field(args, key) {
        Some(v) => seq![flag, v],
        None => Seq::empty(),
    }
}

/// The pandoc arguments of a conversion, or the error the model gets back.
pub open spec fn convert_args(args: Seq<char>, home: Option<Seq<char>>) -> Result<
    Seq<Seq<char>>,
    Seq<char>,
> {
    match json_str_field(args, "input_path"@) {
        None => Err("input_path argument not found"@),
        Some(input) => match json_str_field(args, "output_path"@) {
            None => Err("output_path argument not found"@),
            Some(output) => match first_refused(extra_flags(args)) {
                Some(a) => Err("flag not permitted: "@ + a),
                None => Ok(
                    seq![tilde_expanded(input, home), "-o"@, tilde_expanded(output, home)]
                        + opt_flag(args, "from_format"@, "--from"@) + opt_flag(
                        args,
                        "to_format"@,
                        "--to"@,
                    ) + extra_flags(args),
                ),
            },
        },
    }
}

/// Appends `--name value` when the string field `key` is present.
fn push_opt_flag(out: &mut Vec<String>, args: &str, key: &str, flag: &str)
    ensures
        final(out)@.map_values(|a: String| a@) == old(out)@.map_values(|a: String| a@) + opt_flag(
            args@,
            key@,
            flag@,
        ),
{
    match arg_str(args, key) {
        Some(v) => {
            let ghost before = out@.map_values(|a: String| a@);
            out.push(owned(flag));
            out.push(v);
            proof {
                assert(out@.map_values(|a: String| a@) =~= before + seq![flag@, v@]);
            }
        },
        None => {
            assert(out@.map_values(|a: String| a@) =~= out@.map_values(|a: String| a@)
                + Seq::<Seq<char>>::empty());
        },
    }
}

/// Whether pandoc may be passed the flag `a`.
fn is_allowed_flag(a: &str) -> (r: bool)
    ensures
        r == allowed_flag(a@),
{
    str_eq(a, "--standalone") || str_eq(a, "--toc") || str_eq(a, "--number-sections") || str_eq(
        a,
        "--self-contained",
    )
}

impl DocConvert {
    /// The pandoc command that converts the document named in `args`, with
    /// `~` in both paths expanded with `home`; or the error the model gets
    /// back: a missing path, or the first extra flag that is not allowed.
    pub fn plan(&self, args: &str, home: Option<&str>) -> (r: Result<Command, String>)
        ensures
            match r {
                Ok(c) => convert_args(args@, opt_str_view(home)) == Ok::<Seq<Seq<char>>, Seq<char>>(
                    command_view(c).1,
                ) && c.program@ == "pandoc"@ && c.working_dir is None,
                Err(m) => convert_args(args@, opt_str_view(home)) == Err::<
                    Seq<Seq<char>>,
                    Seq<char>,
                >(m@),
            },
    {
        let input = match arg_str(args, "input_path") {
            Some(p) => expand_tilde(p.as_str(), home),
            None => return Err(owned("input_path argument not found")),
        };
        let output = match arg_str(args, "output_path") {
            Some(p) => expand_tilde(p.as_str(), home),
            None => return Err(owned("output_path argument not found")),
        };
        let mut argv: Vec<String> = Vec::new();
        argv.push(input);
        argv.push(owned("-o"));
        argv.push(output);
        proof {
            assert(argv@.map_values(|a: String| a@) =~= seq![
                tilde_expanded(json_str_field(args@, "input_path"@).unwrap(), opt_str_view(home)),
                "-o"@,
                tilde_expanded(json_str_field(args@, "output_path"@).unwrap(), opt_str_view(home)),
            ]);
        }
        push_opt_flag(&mut argv, args, "from_format", "--from");
        push_opt_flag(&mut argv, args, "to_format", "--to");
        let ghost head = argv@.map_values(|a: String| a@);
        match arg_str_list(args, "extra_args") {
            Some(items) => {
                let ghost iv = items@.map_values(|o: Option<String>| opt_view(o));
                let mut i: usize = 0;
                while i < items.len()
                    invariant
                        iv == items@.map_values(|o: Option<String>| opt_view(o)),
                        json_str_list_field(args@, "extra_args"@) == Some(iv),
                        json_str_field(args@, "input_path"@) is Some,
                        json_str_field(args@, "output_path"@) is Some,
                        i <= items.len(),
                        first_refused(string_items(iv.take(i as int))) is None,
                        argv@.map_values(|a: String| a@) == head + string_items(
                            iv.take(i as int),
                        ),
                    decreases items.len() - i,
                {
                    proof {
                        assert(iv.take(i + 1).drop_last() =~= iv.take(i as int));
                        assert(iv.take(i + 1).last() == opt_view(items@[i as int]));
                    }
                    match &items[i] {
                        Some(a) => {
                            let ghost s = string_items(iv.take(i as int));
                            proof {
                                assert(string_items(iv.take(i + 1)) == s.push(a@));
                                assert(s.push(a@).drop_last() =~= s);
                            }
                            if !is_allowed_flag(a.as_str()) {
                                proof {
                                    assert(first_refused(s.push(a@)) == Some(a@));
                                    lemma_refused_prefix(iv, i as int + 1);
                                    assert(extra_flags(args@) == string_items(iv));
                                }
                                let mut m = owned("flag not permitted: ");
                                m.append(a.as_str());
                                return Err(m);
                            }
                            let ghost before = argv@;
                            argv.push(a.clone());
                            proof {
                                assert(argv@.map_values(|a: String| a@) =~= before.map_values(
                                    |a: String| a@,
                                ).push(a@));
                                assert(argv@.map_values(|a: String| a@) =~= head + s.push(a@));
                            }
                        },
                        None => {},
                    }
                    i = i + 1;
                }
                assert(iv.take(items.len() as int) =~= iv);
            },
            None => {
                assert(argv@.map_values(|a: String| a@) =~= head + Seq::<Seq<char>>::empty());
            },
        }
        Ok(command("pandoc", argv))
    }
}

// ---------------------------------------------------------------------
// Programs run in a working directory
// ---------------------------------------------------------------------

/// The directory a command runs in: the `working_dir` argument with `~`
/// expanded, else the current directory `cwd`; an error when neither is known.
pub open spec fn work_dir(args: Seq<char>, home: Option<Seq<char>>, cwd: Option<Seq<char>>) -> Result<
    Seq<char>,
    Seq<char>,
> {
    match json_str_field(args, "working_dir"@) {
        Some(d) => Ok(tilde_expanded(d, home)),
        None => match cwd {
            Some(c) => Ok(c),
            None => Err("Failed to get current working directory"@),
        },
    }
}

/// The command of an interpreter run with `-c`, or the error the model gets
/// back: the missing argument `key`, or an unknown working directory.
pub open spec fn interpreter_run(
    program: Seq<char>,
    key: Seq<char>,
    missing: Seq<char>,
    args: Seq<char>,
    home: Option<Seq<char>>,
    cwd: Option<Seq<char>>,
) -> Result<(Seq<char>, Seq<Seq<char>>, Option<Seq<char>>), Seq<char>> {
    match json_str_field(args, key) {
        None => Err(missing),
        Some(code) => match work_dir(args, home, cwd) {
            Err(m) => Err(m),
            Ok(d) => Ok((program, seq!["-c"@, code], Some(d))),
        },
    }
}

/// The working directory of a command, or the error the model gets back.
fn working_dir(args: &str, home: Option<&str>, cwd: Option<&str>) -> (r: Result<String, String>)
    ensures
        match r {
            Ok(d) => work_dir(args@, opt_str_view(home), opt_str_view(cwd)) == Ok::<
                Seq<char>,
                Seq<char>,
            >(d@),
            Err(m) => work_dir(args@, opt_str_view(home), opt_str_view(cwd)) == Err::<
                Seq<char>,
                Seq<char>,
            >(m@),
        },
{
    match arg_str(args, "working_dir") {
        Some(d) => Ok(expand_tilde(d.as_str(), home)),
        None => match cwd {
            Some(c) => Ok(owned(c)),
            None => Err(owned("Failed to get current working directory")),
        },
    }
}

/// The command of an interpreter run with `-c` and the text of `key`.
fn interpreter_command(
    program: &str,
    key: &str,
    missing: &str,
    args: &str,
    home: Option<&str>,
    cwd: Option<&str>,
) -> (r: Result<Command, String>)
    ensures
        match r {
            Ok(c) => interpreter_run(
                program@,
                key@,
                missing@,
                args@,
                opt_str_view(home),
                opt_str_view(cwd),
            ) == Ok::<(Seq<char>, Seq<Seq<char>>, Option<Seq<char>>), Seq<char>>(command_view(c)),
            Err(m) => interpreter_run(
                program@,
                key@,
                missing@,
                args@,
                opt_str_view(home),
                opt_str_view(cwd),
            ) == Err::<(Seq<char>, Seq<Seq<char>>, Option<Seq<char>>), Seq<char>>(m@),
        },
{
    let code = match arg_str(args, key) {
        Some(c) => c,
        None => return Err(owned(missing)),
    };
    let dir = match working_dir(args, home, cwd) {
        Ok(d) => d,
        Err(m) => return Err(m),
    };
    let mut argv: Vec<String> = Vec::new();
    argv.push(owned("-c"));
    argv.push(code);
    let c = Command { program: owned(program), args: argv, working_dir: Some(dir) };
    proof {
        assert(command_view(c).1 =~= seq!["-c"@, json_str_field(args@, key@).unwrap()]);
    }
    Ok(c)
}

impl ExecShell {
    /// The bash command the call runs, in its working directory; or the
    /// error the model gets back.
    pub fn plan(&self, args: &str, home: Option<&str>, cwd: Option<&str>) -> (r: Result<
        Command,
        String,
    >)
        ensures
            match r {
                Ok(c) => interpreter_run(
                    "bash"@,
                    "command"@,
                    "command argument not found"@,
                    args@,
                    opt_str_view(home),
                    opt_str_view(cwd),
                ) == Ok::<(Seq<char>, Seq<Seq<char>>, Option<Seq<char>>), Seq<char>>(
                    command_view(c),
                ),
                Err(m) => interpreter_run(
                    "bash"@,
                    "command"@,
                    "command argument not found"@,
                    args@,
                    opt_str_view(home),
                    opt_str_view(cwd),
                ) == Err::<(Seq<char>, Seq<Seq<char>>, Option<Seq<char>>), Seq<char>>(m@),
            },
    {
        interpreter_command("bash", "command", "command argument not found", args, home, cwd)
    }
}

impl ExecPython {
    /// The python3 command the call runs, in its working directory; or the
    /// error the model gets back.
    pub fn plan(&self, args: &str, home: Option<&str>, cwd: Option<&str>) -> (r: Result<
        Command,
        String,
    >)
        ensures
            match r {
                Ok(c) => interpreter_run(
                    "python3"@,
                    "code"@,
                    "code argument not found"@,
                    args@,
                    opt_str_view(home),
                    opt_str_view(cwd),
                ) == Ok::<(Seq<char>, Seq<Seq<char>>, Option<Seq<char>>), Seq<char>>(
                    command_view(c),
                ),
                Err(m) => interpreter_run(
                    "python3"@,
                    "code"@,
                    "code argument not found"@,
                    args@,
                    opt_str_view(home),
                    opt_str_view(cwd),
                ) == Err::<(Seq<char>, Seq<Seq<char>>, Option<Seq<char>>), Seq<char>>(m@),
            },
    {
        interpreter_command("python3", "code", "code argument not found", args, home, cwd)
    }
}

impl Shell {
    /// The bash command that runs `command`.
    pub fn plan(&self, command_text: &str) -> (r: Command)
        ensures
            command_view(r) == ("bash"@, seq!["-c"@, command_text@], None::<Seq<char>>),
    {
        let argv = owned_all(&["-c", command_text]);
        proof {
            assert(strs_view(seq!["-c", command_text]) =~= seq!["-c"@, command_text@]);
        }
        command("bash", argv)
    }
}

// ---------------------------------------------------------------------
// Listing and searching
// ---------------------------------------------------------------------

impl FileList {
    /// The `ls -la` command listing the folder named in the arguments.
    pub fn plan(&self, args: &str) -> (r: Command)
        ensures
            command_view(r) == ("ls"@, seq!["-la"@, field_or(args@, "path"@, "."@)], None::<
                Seq<char>,
            >),
    {
        let mut argv: Vec<String> = Vec::new();
        argv.push(owned("-la"));
        argv.push(match arg_str(args, "path") {
            Some(p) => p,
            None => owned("."),
        });
        proof {
            assert(argv@.map_values(|a: String| a@) =~= seq![
                "-la"@,
                field_or(args@, "path"@, "."@),
            ]);
        }
        command("ls", argv)
    }
}

/// The ripgrep arguments of a content search, or the error the model gets back.
pub open spec fn search_args(args: Seq<char>) -> Result<Seq<Seq<char>>, Seq<char>> {
    match json_str_field(args, "pattern"@) {
        None => Err("pattern argument not found"@),
        Some(p) => Ok(seq![p, field_or(args, "path"@, "."@), "--smart-case"@]),
    }
}

/// The fd arguments of a file name search, or the error the model gets back.
pub open spec fn find_args(args: Seq<char>) -> Result<Seq<Seq<char>>, Seq<char>> {
    match json_str_field(args, "pattern"@) {
        None => Err("pattern argument not found"@),
        Some(p) => Ok(
            seq![
                "--color"@,
                "never"@,
                "--hyperlink"@,
                "never"@,
                "--max-depth"@,
                decimal(count_or(args, "max_depth"@, 5) as nat),
                p,
                field_or(args, "path"@, "."@),
            ],
        ),
    }
}

impl FileSearch {
    /// The `rg` command of the search, or the error the model gets back.
    pub fn plan(&self, args: &str) -> (r: Result<Command, String>)
        ensures
            match r {
                Ok(c) => c.program@ == "rg"@ && c.working_dir is None && search_args(args@)
                    == Ok::<Seq<Seq<char>>, Seq<char>>(command_view(c).1),
                Err(m) => search_args(args@) == Err::<Seq<Seq<char>>, Seq<char>>(m@),
            },
    {
        let pattern = match arg_str(args, "pattern") {
            Some(p) => p,
            None => return Err(owned("pattern argument not found")),
        };
        let mut argv: Vec<String> = Vec::new();
        argv.push(pattern);
        argv.push(match arg_str(args, "path") {
            Some(p) => p,
            None => owned("."),
        });
        argv.push(owned("--smart-case"));
        proof {
            assert(argv@.map_values(|a: String| a@) =~= search_args(args@)->Ok_0);
        }
        Ok(command("rg", argv))
    }
}

impl FSSearchDirs {
    /// The `fd` command of the search, or the error the model gets back.
    pub fn plan(&self, args: &str) -> (r: Result<Command, String>)
        ensures
            match r {
                Ok(c) => c.program@ == "fd"@ && c.working_dir is None && find_args(args@) == Ok::<
                    Seq<Seq<char>>,
                    Seq<char>,
                >(command_view(c).1),
                Err(m) => find_args(args@) == Err::<Seq<Seq<char>>, Seq<char>>(m@),
            },
    {
        let pattern = match arg_str(args, "pattern") {
            Some(p) => p,
            None => return Err(owned("pattern argument not found")),
        };
        let depth = match arg_u64(args, "max_depth") {
            Some(n) => n,
            None => 5,
        };
        let mut argv = owned_all(&["--color", "never", "--hyperlink", "never", "--max-depth"]);
        let ghost head = argv@.map_values(|a: String| a@);
        argv.push(decimal_string(depth));
        argv.push(pattern);
        argv.push(match arg_str(args, "path") {
            Some(p) => p,
            None => owned("."),
        });
        proof {
            assert(head =~= seq!["--color"@, "never"@, "--hyperlink"@, "never"@, "--max-depth"@]);
            assert(argv@.map_values(|a: String| a@) =~= find_args(args@)->Ok_0);
        }
        Ok(command("fd", argv))
    }
}

impl WebSearch {
    /// The number of results the search asks for: `max_results`, ten (the
    /// default the tool's schema and summary state) when it is missing, cut
    /// to 32 bits as `as i32` does.
    pub fn result_count(&self, args: &str) -> (r: i32)
        ensures
            r == count_or(args@, "max_results"@, 10) as i32,
    {
        let n = match arg_u64(args, "max_results") {
            Some(n) => n,
            None => 10,
        };
        n as i32
    }
}

// ---------------------------------------------------------------------
// Document creation
// ---------------------------------------------------------------------

/// The last component of the path `p`, as `Path::file_name` gives it.
pub uninterp spec fn path_file_name(p: Seq<char>) -> Option<Seq<char>>;

/// Whether the path `p` ends with the whole components of `child`, as
/// `Path::ends_with` decides it.
pub uninterp spec fn path_ends_with(p: Seq<char>, child: Seq<char>) -> bool;

/// The last component of a path. Trusted: `Path::file_name`, read back as
/// text; it depends on the path alone.
#[verifier::external_body]
fn file_name_of(p: &str) -> (r: Option<String>)
    ensures
        opt_view(r) == path_file_name(p@),
{
    std::path::Path::new(p).file_name().map(|n| n.to_string_lossy().into_owned())
}

/// Whether a path ends with the components of `child`. Trusted:
/// `Path::ends_with`; it depends on the two paths alone.
#[verifier::external_body]
fn path_ends_with_exec(p: &str, child: &str) -> (r: bool)
    ensures
        r == path_ends_with(p@, child@),
{
    std::path::Path::new(p).ends_with(child)
}

/// The document to create: its format, its text and the output path with
/// `~` expanded; or the error the model gets back.
pub open spec fn doc_request(args: Seq<char>, home: Option<Seq<char>>) -> Result<
    (Seq<char>, Seq<char>, Seq<char>),
    Seq<char>,
> {
    match json_str_field(args, "input_format"@) {
        None => Err("input_format argument not found"@),
        Some(f) => if f != "markdown"@ && f != "latex"@ {
            Err("input_format must be 'markdown' or 'latex'"@)
        } else {
            match json_str_field(args, "contents"@) {
                None => Err("content argument not found"@),
                Some(c) => match json_str_field(args, "output_file"@) {
                    None => Err("output_file argument not found"@),
                    Some(o) => Ok((f, c, tilde_expanded(o, home))),
                },
            }
        },
    }
}

/// The temporary file the text is written to before conversion.
pub open spec fn doc_input_file(fmt: Seq<char>, out: Seq<char>, temp: Seq<char>) -> Seq<char> {
    joined(temp, "mia_doc_create-"@ + path_file_name(out).unwrap() + "."@ + fmt)
}

/// The command that turns the temporary file into the output: pdflatex for
/// LaTeX when the output path ends with a `.pdf` component, pandoc otherwise.
pub open spec fn doc_command(fmt: Seq<char>, out: Seq<char>, temp: Seq<char>) -> (
    Seq<char>,
    Seq<Seq<char>>,
    Option<Seq<char>>,
) {
    let input = doc_input_file(fmt, out, temp);
    if fmt == "latex"@ && path_ends_with(out, ".pdf"@) {
        ("pdflatex"@, seq!["-output-directory="@ + temp, input, out], None)
    } else {
        ("pandoc"@, seq!["--from"@, fmt, input, "-o"@, out], None)
    }
}

/// How a document is created: the text goes to `input_file`, then
/// `command` runs.
pub struct DocCreatePlan {
    pub input_file: String,
    pub contents: String,
    pub command: Command,
}

impl DocCreate {
    /// The plan for creating the document `out` of format `fmt` from
    /// `contents`, with temporary files under `temp`.
    pub fn create_plan(&self, fmt: &str, contents: &str, out: &str, temp: &str) -> (r:
        DocCreatePlan)
        requires
            path_file_name(out@) is Some,
        ensures
            r.input_file@ == doc_input_file(fmt@, out@, temp@),
            r.contents@ == contents@,
            command_view(r.command) == doc_command(fmt@, out@, temp@),
    {
        let name = match file_name_of(out) {
            Some(n) => n,
            None => String::new(),
        };
        let mut base = owned("mia_doc_create-");
        base.append(name.as_str());
        base.append(".");
        base.append(fmt);
        let input_file = join_path(temp, base.as_str());
        let command = if str_eq(fmt, "latex") && path_ends_with_exec(out, ".pdf") {
            let dir_flag = concat2("-output-directory=", temp);
            let a = dir_flag.as_str();
            let b = input_file.as_str();
            let argv = owned_all(&[a, b, out]);
            proof {
                assert(strs_view(seq![a, b, out]) =~= doc_command(fmt@, out@, temp@).1);
            }
            command("pdflatex", argv)
        } else {
            let b = input_file.as_str();
            let argv = owned_all(&["--from", fmt, b, "-o", out]);
            proof {
                assert(strs_view(seq!["--from", fmt, b, "-o", out]) =~= doc_command(
                    fmt@,
                    out@,
                    temp@,
                ).1);
            }
            command("pandoc", argv)
        };
        DocCreatePlan { input_file, contents: owned(contents), command }
    }

    /// The plan for the document the arguments describe, or the error the
    /// model gets back; `None` when the output path names no file, where
    /// the tool stops without an answer.
    pub fn plan(&self, args: &str, home: Option<&str>, temp: &str) -> (r: Option<
        Result<DocCreatePlan, String>,
    >)
        ensures
            match doc_request(args@, opt_str_view(home)) {
                Err(m) => r matches Some(Err(e)) && e@ == m,
                Ok((f, c, o)) => match path_file_name(o) {
                    None => r is None,
                    Some(_) => r matches Some(Ok(p)) && p.input_file@ == doc_input_file(
                        f,
                        o,
                        temp@,
                    ) && p.contents@ == c && command_view(p.command) == doc_command(f, o, temp@),
                },
            },
    {
        let fmt = match arg_str(args, "input_format") {
            Some(f) => f,
            None => return Some(Err(owned("input_format argument not found"))),
        };
        if !str_eq(fmt.as_str(), "markdown") && !str_eq(fmt.as_str(), "latex") {
            return Some(Err(owned("input_format must be 'markdown' or 'latex'")));
        }
        let contents = match arg_str(args, "contents") {
            Some(c) => c,
            None => return Some(Err(owned("content argument not found"))),
        };
        let out = match arg_str(args, "output_file") {
            Some(o) => expand_tilde(o.as_str(), home),
            None => return Some(Err(owned("output_file argument not found"))),
        };
        match file_name_of(out.as_str()) {
            None => None,
            Some(_) => Some(Ok(self.create_plan(fmt.as_str(), contents.as_str(), out.as_str(), temp))),
        }
    }
}

// ---------------------------------------------------------------------
// Directory listings
// ---------------------------------------------------------------------

/// The permission string of a Unix file mode, as `unix_mode::to_string`
/// renders it (`drwxr-xr-x`).
pub uninterp spec fn mode_text(mode: u32) -> Seq<char>;

/// A byte count in human units, as `bytesize::ByteSize` displays it.
pub uninterp spec fn size_text(bytes: u64) -> Seq<char>;

/// The rows laid out as a table without borders, as `tabled` builds it.
pub uninterp spec fn table_text(rows: Seq<Seq<Seq<char>>>) -> Seq<char>;

/// The permission string of a mode. Trusted: `unix_mode::to_string`, a
/// function of the mode alone.
#[verifier::external_body]
fn mode_string(mode: u32) -> (r: String)
    ensures
        r@ == mode_text(mode),
{
    unix_mode::to_string(mode)
}

/// A byte count in human units. Trusted: `bytesize::ByteSize::b` and its
/// `Display`, a function of the count alone.
#[verifier::external_body]
fn size_string(bytes: u64) -> (r: String)
    ensures
        r@ == size_text(bytes),
{
    bytesize::ByteSize::b(bytes).to_string()
}

/// The rows laid out as a table. Trusted: `tabled::builder::Builder` fed
/// the rows in order, built with `Style::empty`; a function of the rows alone.
#[verifier::external_body]
fn render_table(rows: &Vec<Vec<String>>) -> (r: String)
    ensures
        r@ == table_text(rows@.map_values(|row: Vec<String>| row@.map_values(|c: String| c@))),
{
    tabled::builder::Builder::from_iter(rows.clone()).build().with(
        tabled::settings::Style::empty(),
    ).to_string()
}

/// What was found out about one directory entry.
pub enum DirEntryInfo {
    /// Its metadata: mode, size, owner, group, modification time and path.
    Listed { mode: u32, size: u64, owner: String, group: String, modified: String, path: String },
    /// Its path, whose metadata could not be read.
    NoMetadata { path: String },
    /// An entry that could not be read at all.
    Unreadable,
}

/// Why a directory could not be listed.
pub enum ListDirError {
    NotFound,
    PermissionDenied,
    NotADirectory,
    /// Any other failure, with its description.
    Other(String),
}

/// The heading row of a listing.
pub open spec fn listing_header() -> Seq<Seq<char>> {
    seq!["Permission"@, "Size"@, "User"@, "Group"@, "Modified"@, "Path"@]
}

/// The row a directory entry gets in a listing.
pub open spec fn entry_row(e: DirEntryInfo) -> Seq<Seq<char>> {
    match e {
        DirEntryInfo::Listed { mode, size, owner, group, modified, path } => seq![
            mode_text(mode),
            size_text(size),
            owner@,
            group@,
            modified@,
            path@,
        ],
        DirEntryInfo::NoMetadata { path } => seq![
            "[Failed to get metadata]"@,
            ""@,
            ""@,
            ""@,
            ""@,
            path@,
        ],
        DirEntryInfo::Unreadable => seq!["[Failed to read entry]"@],
    }
}

/// The rows of a listing: the heading, then one row per entry in order.
pub open spec fn listing_rows(entries: Seq<DirEntryInfo>) -> Seq<Seq<Seq<char>>> {
    seq![listing_header()] + entries.map_values(|e: DirEntryInfo| entry_row(e))
}

/// The message for a directory that could not be listed.
pub open spec fn list_error_text(path: Seq<char>, e: ListDirError) -> Seq<char> {
    match e {
        ListDirError::NotFound => "Directory not found: "@ + path,
        ListDirError::PermissionDenied => "Permission denied: "@ + path,
        ListDirError::NotADirectory => "Not a directory: "@ + path,
        ListDirError::Other(d) => "Unknown error: "@ + d@,
    }
}

/// The row of one entry.
fn entry_row_exec(e: &DirEntryInfo) -> (r: Vec<String>)
    ensures
        r@.map_values(|c: String| c@) == entry_row(*e),
{
    match e {
        DirEntryInfo::Listed { mode, size, owner, group, modified, path } => {
            let m = mode_string(*mode);
            let z = size_string(*size);
            let r = owned_all(&[m.as_str(), z.as_str(), owner.as_str(), group.as_str(), modified.as_str(), path.as_str()]);
            proof {
                assert(r@.map_values(|c: String| c@) =~= entry_row(*e));
            }
            r
        },
        DirEntryInfo::NoMetadata { path } => {
            let r = owned_all(&["[Failed to get metadata]", "", "", "", "", path.as_str()]);
            proof {
                assert(r@.map_values(|c: String| c@) =~= entry_row(*e));
            }
            r
        },
        DirEntryInfo::Unreadable => {
            let r = owned_all(&["[Failed to read entry]"]);
            proof {
                assert(r@.map_values(|c: String| c@) =~= entry_row(*e));
            }
            r
        },
    }
}

impl FSListDir {
    /// The directory the call lists: the `path` argument, `.` by default,
    /// with `~` expanded.
    pub fn target(&self, args: &str, home: Option<&str>) -> (r: String)
        ensures
            r@ == tilde_expanded(field_or(args@, "path"@, "."@), opt_str_view(home)),
    {
        let p = match arg_str(args, "path") {
            Some(p) => p,
            None => owned("."),
        };
        expand_tilde(p.as_str(), home)
    }

    /// The listing of the entries: the table text and the number of rows,
    /// heading included.
    pub fn listing(&self, entries: &Vec<DirEntryInfo>) -> (r: (String, usize))
        ensures
            r.0@ == table_text(listing_rows(entries@)),
            r.1 == listing_rows(entries@).len(),
    {
        let mut rows: Vec<Vec<String>> = Vec::new();
        let header = owned_all(&["Permission", "Size", "User", "Group", "Modified", "Path"]);
        proof {
            assert(header@.map_values(|c: String| c@) =~= listing_header());
        }
        rows.push(header);
        proof {
            assert(rows@.map_values(|row: Vec<String>| row@.map_values(|c: String| c@)) =~= seq![
                listing_header(),
            ]);
            assert(listing_rows(entries@.take(0)) =~= seq![listing_header()]);
        }
        let mut i: usize = 0;
        while i < entries.len()
            invariant
                i <= entries@.len(),
                rows@.map_values(|row: Vec<String>| row@.map_values(|c: String| c@)) == listing_rows(
                    entries@.take(i as int),
                ),
            decreases entries@.len() - i,
        {
            let ghost before = rows@;
            rows.push(entry_row_exec(&entries[i]));
            proof {
                assert(listing_rows(entries@.take(i + 1)) =~= listing_rows(entries@.take(i as int)).push(
                    entry_row(entries@[i as int]),
                ));
                assert(rows@.map_values(|row: Vec<String>| row@.map_values(|c: String| c@))
                    =~= before.map_values(|row: Vec<String>| row@.map_values(|c: String| c@)).push(
                    entry_row(entries@[i as int]),
                ));
            }
            i = i + 1;
        }
        assert(entries@.take(entries@.len() as int) =~= entries@);
        let n = rows.len();
        (render_table(&rows), n)
    }

    /// The message for a directory that could not be listed.
    pub fn error_message(&self, path: &str, e: &ListDirError) -> (r: String)
        ensures
            r@ == list_error_text(path@, *e),
    {
        match e {
            ListDirError::NotFound => concat2("Directory not found: ", path),
            ListDirError::PermissionDenied => concat2("Permission denied: ", path),
            ListDirError::NotADirectory => concat2("Not a directory: ", path),
            ListDirError::Other(d) => concat2("Unknown error: ", d.as_str()),
        }
    }
}

// ---------------------------------------------------------------------
// Reading and writing files
// ---------------------------------------------------------------------

/// The most characters a read returns.
pub open spec fn preview_limit() -> nat {
    10000
}

/// What a read returns of a text: the text itself when it has at most
/// 10000 characters, else its first 10000 characters and a note of how
/// many bytes follow them.
pub open spec fn preview_of(text: Seq<char>) -> Seq<char> {
    if text.len() > preview_limit() {
        text.take(10000) + "... "@ + decimal(byte_len(text.skip(10000)) as nat)
            + " more characters (content > 10000 characters)"@
    } else {
        text
    }
}

/// The answer to a successful read.
pub struct ReadResult {
    /// The size of the file in bytes.
    pub size: usize,
    /// The text, shortened when it is long.
    pub content: String,
    /// Whether `content` is the whole text.
    pub full_content: bool,
}

impl FSReadFile {
    /// The answer to a read of the text `content`: up to 10000 characters,
    /// a longer text cut after its 10000th character.
    pub fn read_result(&self, content: &str) -> (r: ReadResult)
        ensures
            r.size == byte_len(content@),
            r.content@ == preview_of(content@),
            r.full_content == (content@.len() <= preview_limit()),
    {
        let n = content.len();
        let count = content.unicode_len();
        if count > 10000 {
            let head = content.substring_char(0, 10000);
            let tail = content.substring_char(10000, count);
            let mut text = concat2(head, "... ");
            let more = decimal_string(tail.len() as u64);
            text.append(more.as_str());
            text.append(" more characters (content > 10000 characters)");
            ReadResult { size: n, content: text, full_content: false }
        } else {
            ReadResult { size: n, content: owned(content), full_content: true }
        }
    }
}

impl FSWriteFile {
    /// The heading of the approval request for a write.
    pub fn permission_header(&self, path: &str) -> (r: String)
        ensures
            r@ == "Write to "@ + path@,
    {
        concat2("Write to ", path)
    }

    /// The message of a successful write of `content`.
    pub fn written_message(&self, content: &str) -> (r: String)
        ensures
            r@ == "File written successfully ("@ + decimal(byte_len(content@) as nat)
                + " bytes)"@,
    {
        let n = decimal_string(content.len() as u64);
        let mut m = concat2("File written successfully (", n.as_str());
        m.append(" bytes)");
        m
    }
}

/// A refused flag among the first items is the first refused of all items.
proof fn lemma_refused_prefix(items: Seq<Option<Seq<char>>>, k: int)
    requires
        0 <= k <= items.len(),
        first_refused(string_items(items.take(k))) is Some,
    ensures
        first_refused(string_items(items)) == first_refused(string_items(items.take(k))),
    decreases items.len() - k,
{
    if k < items.len() {
        assert(items.take(k + 1).drop_last() =~= items.take(k));
        let s = string_items(items.take(k));
        match items[k] {
            Some(x) => {
                assert(string_items(items.take(k + 1)) == s.push(x));
                assert(s.push(x).drop_last() =~= s);
            },
            None => {},
        }
        lemma_refused_prefix(items, k + 1);
    } else {
        assert(items.take(k) =~= items);
    }
}

/// Every extra flag of a conversion that goes ahead is one pandoc may be
/// passed.
pub proof fn law_convert_flags_allowed(args: Seq<char>, home: Option<Seq<char>>)
    requires
        convert_args(args, home) is Ok,
    ensures
        forall|i: int| 0 <= i < extra_flags(args).len() ==> allowed_flag(#[trigger] extra_flags(args)[i]),
{
    lemma_no_refused(extra_flags(args));
}

/// When no flag is refused, every flag is allowed.
proof fn lemma_no_refused(flags: Seq<Seq<char>>)
    requires
        first_refused(flags) is None,
    ensures
        forall|i: int| 0 <= i < flags.len() ==> allowed_flag(#[trigger] flags[i]),
    decreases flags.len(),
{
    if flags.len() > 0 {
        lemma_no_refused(flags.drop_last());
        assert forall|i: int| 0 <= i < flags.len() implies allowed_flag(#[trigger] flags[i]) by {
            if i < flags.len() - 1 {
                assert(flags.drop_last()[i] == flags[i]);
            }
        }
    }
}

/// A conversion passes on the formats asked for: when the arguments hold
/// `to_format = v`, the pandoc arguments hold `--to` right before `v`, and
/// likewise `--from` before `from_format`; they start with the input path,
/// `-o` and the output path.
pub proof fn law_convert_passes_formats(args: Seq<char>, home: Option<Seq<char>>)
    requires
        convert_args(args, home) is Ok,
    ensures
        ({
            let a = convert_args(args, home)->Ok_0;
            &&& a.len() >= 3
            &&& a[0] == tilde_expanded(json_str_field(args, "input_path"@)->Some_0, home)
            &&& a[1] == "-o"@
            &&& a[2] == tilde_expanded(json_str_field(args, "output_path"@)->Some_0, home)
            &&& json_str_field(args, "to_format"@) matches Some(v) ==> exists|i: int|
                0 <= i && i + 1 < a.len() && a[i] == "--to"@ && #[trigger] a[i + 1] == v
            &&& json_str_field(args, "from_format"@) matches Some(v) ==> exists|i: int|
                0 <= i && i + 1 < a.len() && a[i] == "--from"@ && #[trigger] a[i + 1] == v
        }),
{
    let a = convert_args(args, home)->Ok_0;
    let head = seq![
        tilde_expanded(json_str_field(args, "input_path"@)->Some_0, home),
        "-o"@,
        tilde_expanded(json_str_field(args, "output_path"@)->Some_0, home),
    ];
    let from = opt_flag(args, "from_format"@, "--from"@);
    let to = opt_flag(args, "to_format"@, "--to"@);
    assert(a == head + from + to + extra_flags(args));
    if let Some(v) = json_str_field(args, "to_format"@) {
        let i: int = 3 + from.len() as int;
        assert(a[i] == "--to"@);
        assert(a[i + 1] == v);
    }
    if let Some(v) = json_str_field(args, "from_format"@) {
        assert(a[3int] == "--from"@);
        assert(a[3int + 1] == v);
    }
}

/// A file name search searches where it is asked: the last fd argument is
/// the requested path (the current directory when none is given), right
/// after the pattern; the depth is the requested one, five by default.
pub proof fn law_find_searches_requested_path(args: Seq<char>)
    requires
        find_args(args) is Ok,
    ensures
        ({
            let a = find_args(args)->Ok_0;
            &&& a.len() == 8
            &&& a[6] == json_str_field(args, "pattern"@)->Some_0
            &&& json_str_field(args, "path"@) matches Some(p) ==> a.last() == p
            &&& json_str_field(args, "path"@) is None ==> a.last() == "."@
            &&& a[4] == "--max-depth"@
            &&& json_u64_field(args, "max_depth"@) matches Some(d) ==> a[5] == decimal(d as nat)
            &&& json_u64_field(args, "max_depth"@) is None ==> a[5] == decimal(5)
        }),
{
}

/// A content search searches where it is asked: the pattern first, then
/// the requested path (the current directory when none is given).
pub proof fn law_search_searches_requested_path(args: Seq<char>)
    requires
        search_args(args) is Ok,
    ensures
        ({
            let a = search_args(args)->Ok_0;
            &&& a.len() == 3
            &&& a[0] == json_str_field(args, "pattern"@)->Some_0
            &&& json_str_field(args, "path"@) matches Some(p) ==> a[1] == p
            &&& json_str_field(args, "path"@) is None ==> a[1] == "."@
        }),
{
}

} // verus!
