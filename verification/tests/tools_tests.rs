use mia_agent::tools::{
    DocConvert, DocCreate, ExecPython, FSSearchDirs, FSWriteFile, FileSearch, Permission, Probe,
    ToolCall, ToolKind, ToolRegistry, WebSearch,
};
use mia_agent::memory::Memory;

fn full_probe() -> Probe {
    Probe { pandoc: true, pdflatex: true, python3: true, bash: true, ls: true, fd: true, tavily_key: true }
}

fn bare_probe() -> Probe {
    Probe { pandoc: false, pdflatex: false, python3: false, bash: false, ls: false, fd: false, tavily_key: false }
}

#[test]
fn registry_icons_by_name() {
    let reg = ToolRegistry::with_probe(full_probe());
    assert_eq!(reg.tool_icon("memory"), "🧠");
    assert_eq!(reg.tool_icon("fs_write_file"), "✍️");
    assert_eq!(reg.tool_icon("web_search"), "🌐");
    assert_eq!(reg.tool_icon("no_such_tool"), "❓");
}

#[test]
fn every_tool_found_by_its_own_name() {
    let reg = ToolRegistry::with_probe(bare_probe());
    for k in ToolKind::all() {
        assert_eq!(reg.lookup(k.name()), Some(k));
        assert_eq!(reg.tool_icon(k.name()), k.icon());
    }
}

#[test]
fn short_of_invalid_arguments_is_question_mark() {
    let reg = ToolRegistry::with_probe(full_probe());
    assert_eq!(reg.tool_short("fs_read_file", "{not json"), "❓");
    assert_eq!(reg.tool_short("unknown", "{}"), "❓");
}

#[test]
fn short_summaries_of_calls() {
    let reg = ToolRegistry::with_probe(full_probe());
    assert_eq!(reg.tool_short("fs_list_dir", "{}"), ".");
    assert_eq!(reg.tool_short("fs_read_file", r#"{"path":"a.txt"}"#), "a.txt");
    assert_eq!(FileSearch.short(r#"{"path":"src"}"#), "(no pattern provided) -> src");
    assert_eq!(reg.tool_short("file_search", r#"{"path":"src"}"#), "❓");
    assert_eq!(
        reg.tool_short("fs_search_dirs", r#"{"pattern":"x","max_depth":3}"#),
        "x -> . (3)"
    );
    assert_eq!(reg.tool_short("fs_search_dirs", r#"{"pattern":"x"}"#), "x -> . (5)");
    assert_eq!(reg.tool_short("web_search", r#"{"query":"rust"}"#), "rust (top: 10)");
    assert_eq!(reg.tool_short("doc_convert", r#"{"input_path":"a.md","output_path":"a.pdf"}"#), "a.md -> a.pdf");
    assert_eq!(reg.tool_short("exec_shell", r#"{"command":"ls -la"}"#), "ls -la");
    assert_eq!(reg.tool_short("exec_python", r#"{"code":"a=1\nb=2\n"}"#), "2 lines");
}

#[test]
fn byte_counts_in_summaries() {
    let reg = ToolRegistry::with_probe(full_probe());
    assert_eq!(reg.tool_short("fs_write_file", r#"{"path":"x","content":"héllo"}"#), "x (6 bytes)");
    assert_eq!(
        DocCreate.short(r#"{"input_format":"latex","contents":"abc","output_file":"o.pdf"}"#),
        "latex (3 bytes) -> o.pdf"
    );
    assert_eq!(FSWriteFile.short(r#"{}"#), " (0 bytes)");
    assert_eq!(DocCreate.short(r#"{}"#), " (0 bytes) -> ");
}

#[test]
fn memory_summary_operators() {
    assert_eq!(Memory.short(r#"{"memory_type":"user","operation":"insert","content":"likes tea"}"#), "user +likes tea");
    assert_eq!(Memory.short(r#"{"memory_type":"system","operation":"delete","content":"x"}"#), "system -x");
    assert_eq!(Memory.short(r#"{"memory_type":"user","operation":"list"}"#), "user ?");
}

#[test]
fn summaries_through_the_kinds() {
    assert_eq!(ExecPython.call_summary(r#"{}"#), "0 lines");
    assert_eq!(FileSearch.short(r#"{"pattern":"fn"}"#), "fn -> .");
    assert_eq!(FSSearchDirs.short(r#"{}"#), "(no pattern provided) -> . (5)");
    assert_eq!(WebSearch.short(r#"{"query":"q","max_results":3}"#), "q (top: 3)");
    assert_eq!(DocConvert.short(r#"{}"#), " -> ");
    assert_eq!(ToolKind::WebExtract.summary(r#"{"url":"https://a.b"}"#), "https://a.b");
}

#[test]
fn status_lines_are_sorted_and_complete() {
    let reg = ToolRegistry::with_probe(bare_probe());
    let rows = reg.tools_status();
    let names: Vec<&str> = rows.iter().map(|r| r.0.as_str()).collect();
    assert_eq!(
        names,
        vec![
            "datetime", "doc_convert", "exec_python", "exec_shell", "fs_grep_files", "fs_list_dir",
            "fs_read_file", "fs_search_dirs", "fs_write_file", "memory", "web_extract", "web_search"
        ]
    );
    let find = |n: &str| rows.iter().find(|r| r.0 == n).unwrap().clone();
    assert_eq!(find("doc_convert"), ("doc_convert".to_string(), false, "pandoc, pdflatex not found".to_string()));
    assert_eq!(find("exec_python"), ("exec_python".to_string(), false, "python3 not found".to_string()));
    assert_eq!(find("exec_shell"), ("exec_shell".to_string(), false, "bash not found".to_string()));
    assert_eq!(find("fs_grep_files"), ("fs_grep_files".to_string(), false, "no implementation".to_string()));
    assert_eq!(find("fs_search_dirs"), ("fs_search_dirs".to_string(), false, "fd not found".to_string()));
    assert_eq!(find("web_extract"), ("web_extract".to_string(), false, "TAVILY_API_KEY not found".to_string()));
    assert_eq!(find("memory"), ("memory".to_string(), true, String::new()));
}

#[test]
fn doc_tools_name_the_missing_program() {
    let p = Probe { pandoc: true, ..bare_probe() };
    assert_eq!(ToolKind::DocCreate.availability(&p), Err("pdflatex not found".to_string()));
    let q = Probe { pdflatex: true, ..bare_probe() };
    assert_eq!(ToolKind::DocConvert.availability(&q), Err("pandoc not found".to_string()));
    assert_eq!(ToolKind::DocConvert.availability(&full_probe()), Ok(()));
}

#[test]
fn available_tools_follow_the_probe() {
    let reg = ToolRegistry::with_probe(bare_probe());
    let names: Vec<&str> = reg.available_tools().iter().map(|k| k.name()).collect();
    assert_eq!(
        names,
        vec!["datetime", "fs_list_dir", "fs_read_file", "fs_write_file", "memory"]
    );
    let all = ToolRegistry::with_probe(full_probe());
    assert_eq!(all.available_tools().len(), 11);
}

#[test]
fn calls_refuse_bad_arguments_first() {
    let reg = ToolRegistry::with_probe(full_probe());
    assert_eq!(reg.call("nope", "not json"), ToolCall::InvalidArguments);
    assert_eq!(reg.call("nope", "{}"), ToolCall::Unregistered);
    assert_eq!(reg.call("memory", "{}"), ToolCall::Run(ToolKind::Memory));
    assert_eq!(ToolCall::InvalidArguments.message(), "Invalid tool arguments or malformed json");
    assert_eq!(ToolCall::Unregistered.message(), "Unregistered tool requested");
}

#[test]
fn gated_tools_need_a_yes() {
    assert_eq!(ToolKind::ExecShell.permission(Some(false)), Permission::Declined);
    assert_eq!(ToolKind::ExecShell.permission(None), Permission::Declined);
    assert_eq!(ToolKind::ExecShell.permission(Some(true)), Permission::Run);
    assert_eq!(ToolKind::FSReadFile.permission(None), Permission::Run);
    assert_eq!(ToolKind::ExecPython.declined_message(), "User declined to execute Python code");
    assert_eq!(ToolKind::FSWriteFile.declined_message(), "User declined to write file");
    assert_eq!(ToolKind::Memory.declined_message(), "");
}

#[test]
fn documented_icons() {
    let reg = ToolRegistry::with_probe(full_probe());
    assert_eq!(reg.tool_icon("fs_list_dir"), "📁");
    assert_eq!(reg.tool_icon("doc_convert"), "📄");
    assert_eq!(reg.tool_icon("fs_grep_files"), "🔍");
    assert_eq!(reg.tool_icon("datetime"), "📅");
    assert_eq!(reg.tool_icon("shell"), "❓");
    assert_eq!(reg.tool_icon("doc_create"), "❓");
}

#[test]
fn undocumented_tools_are_not_registered() {
    let reg = ToolRegistry::with_probe(full_probe());
    for n in ["file_list", "file_search", "file_write", "shell", "doc_create"] {
        assert_eq!(reg.lookup(n), None);
        assert_eq!(reg.call(n, "{}"), ToolCall::Unregistered);
    }
    assert_eq!(reg.call("fs_grep_files", "{}"), ToolCall::Run(ToolKind::FSGrepFiles));
}

#[test]
fn datetime_summary_is_rfc2822() {
    let reg = ToolRegistry::with_probe(full_probe());
    let s = reg.tool_short("datetime", "{}");
    assert!(chrono::DateTime::parse_from_rfc2822(&s).is_ok(), "{s}");
    let b = s.as_bytes();
    assert_eq!(&s[3..5], ", ");
    assert!(b[s.len() - 5] == b'+' || b[s.len() - 5] == b'-');
}
