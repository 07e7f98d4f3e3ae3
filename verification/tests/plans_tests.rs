use mia_agent::plans::{Command, DirEntryInfo, ListDirError};
use mia_agent::tools::{
    DocConvert, DocCreate, ExecPython, ExecShell, FSListDir, FSReadFile, FSSearchDirs, FSWriteFile,
    FileList, FileSearch, Shell, WebSearch,
};

fn argv(c: &Command) -> Vec<&str> {
    c.args.iter().map(|a| a.as_str()).collect()
}

#[test]
fn tilde_expands_only_alone_or_before_slash() {
    let t = |p: &str, home: Option<&str>| FSListDir.target(&format!("{{\"path\":\"{p}\"}}"), home);
    assert_eq!(t("~/notes", Some("/home/mia")), "/home/mia/notes");
    assert_eq!(t("~", Some("/home/mia")), "/home/mia");
    assert_eq!(t("~bob/x", Some("/home/mia")), "~bob/x");
    assert_eq!(t("a/~/b", Some("/home/mia")), "a/~/b");
    assert_eq!(t("~/x", None), "~/x");
}

#[test]
fn convert_builds_the_pandoc_command() {
    let args = r#"{"input_path":"~/a.docx","output_path":"b.md","from_format":"docx","extra_args":["--toc",1,"--standalone"]}"#;
    let c = DocConvert.plan(args, Some("/h")).unwrap();
    assert_eq!(c.program, "pandoc");
    assert_eq!(argv(&c), vec!["/h/a.docx", "-o", "b.md", "--from", "docx", "--toc", "--standalone"]);
    assert!(c.working_dir.is_none());
}

#[test]
fn convert_refuses_unlisted_flags() {
    let args = r#"{"input_path":"a","output_path":"b","extra_args":["--toc","--lua-filter=x.lua","--bogus"]}"#;
    assert_eq!(DocConvert.plan(args, None).err().unwrap(), "flag not permitted: --lua-filter=x.lua");
    assert_eq!(DocConvert.plan(r#"{"output_path":"b"}"#, None).err().unwrap(), "input_path argument not found");
    assert_eq!(DocConvert.plan(r#"{"input_path":"a"}"#, None).err().unwrap(), "output_path argument not found");
}

#[test]
fn shell_runs_in_the_working_directory() {
    let c = ExecShell.plan(r#"{"command":"ls","working_dir":"~/p"}"#, Some("/h"), Some("/cwd")).unwrap();
    assert_eq!(c.program, "bash");
    assert_eq!(argv(&c), vec!["-c", "ls"]);
    assert_eq!(c.working_dir.as_deref(), Some("/h/p"));
    let d = ExecShell.plan(r#"{"command":"ls"}"#, None, Some("/cwd")).unwrap();
    assert_eq!(d.working_dir.as_deref(), Some("/cwd"));
    assert_eq!(ExecShell.plan(r#"{"command":"ls"}"#, None, None).err().unwrap(), "Failed to get current working directory");
    assert_eq!(ExecShell.plan(r#"{}"#, None, Some("/")).err().unwrap(), "command argument not found");
}

#[test]
fn python_runs_its_code() {
    let c = ExecPython.plan(r#"{"code":"print(1)"}"#, None, Some("/w")).unwrap();
    assert_eq!(c.program, "python3");
    assert_eq!(argv(&c), vec!["-c", "print(1)"]);
    assert_eq!(ExecPython.plan(r#"{"cmd":"x"}"#, None, Some("/w")).err().unwrap(), "code argument not found");
    let s = Shell.plan("echo hi");
    assert_eq!(s.program, "bash");
    assert_eq!(argv(&s), vec!["-c", "echo hi"]);
}

#[test]
fn listing_and_search_commands() {
    let l = FileList.plan(r#"{}"#);
    assert_eq!(l.program, "ls");
    assert_eq!(argv(&l), vec!["-la", "."]);
    let s = FileSearch.plan(r#"{"pattern":"todo","path":"src"}"#).unwrap();
    assert_eq!(s.program, "rg");
    assert_eq!(argv(&s), vec!["todo", "src", "--smart-case"]);
    assert_eq!(FileSearch.plan(r#"{}"#).err().unwrap(), "pattern argument not found");
    let f = FSSearchDirs.plan(r#"{"pattern":"\\.rs$","max_depth":2}"#).unwrap();
    assert_eq!(f.program, "fd");
    assert_eq!(argv(&f), vec!["--color", "never", "--hyperlink", "never", "--max-depth", "2", "\\.rs$", "."]);
}

#[test]
fn web_search_size_defaults_to_five() {
    assert_eq!(WebSearch.result_count(r#"{"query":"x"}"#), 10);
    assert_eq!(WebSearch.result_count(r#"{"max_results":7}"#), 7);
    assert_eq!(WebSearch.result_count(r#"{"max_results":4294967297}"#), 1);
}

#[test]
fn doc_create_picks_pandoc_or_pdflatex() {
    let p = DocCreate
        .plan(r##"{"input_format":"markdown","contents":"# T","output_file":"~/out.docx"}"##, Some("/h"), "/tmp")
        .unwrap()
        .unwrap();
    assert_eq!(p.input_file, "/tmp/mia_doc_create-out.docx.markdown");
    assert_eq!(p.contents, "# T");
    assert_eq!(p.command.program, "pandoc");
    assert_eq!(argv(&p.command), vec!["--from", "markdown", "/tmp/mia_doc_create-out.docx.markdown", "-o", "/h/out.docx"]);
    let q = DocCreate
        .plan(r#"{"input_format":"latex","contents":"x","output_file":"dir/.pdf"}"#, None, "/tmp/")
        .unwrap()
        .unwrap();
    assert_eq!(q.command.program, "pdflatex");
    assert_eq!(argv(&q.command), vec!["-output-directory=/tmp/", "/tmp/mia_doc_create-.pdf.latex", "dir/.pdf"]);
    let r = DocCreate
        .plan(r#"{"input_format":"latex","contents":"x","output_file":"paper.pdf"}"#, None, "/tmp")
        .unwrap()
        .unwrap();
    assert_eq!(r.command.program, "pandoc");
}

#[test]
fn doc_create_errors() {
    let e = |a: &str| DocCreate.plan(a, None, "/tmp").unwrap().err().unwrap();
    assert_eq!(e(r#"{}"#), "input_format argument not found");
    assert_eq!(e(r#"{"input_format":"html"}"#), "input_format must be 'markdown' or 'latex'");
    assert_eq!(e(r#"{"input_format":"latex"}"#), "content argument not found");
    assert_eq!(e(r#"{"input_format":"latex","contents":""}"#), "output_file argument not found");
    assert!(DocCreate.plan(r#"{"input_format":"latex","contents":"","output_file":"a/.."}"#, None, "/tmp").is_none());
}

#[test]
fn read_preview_of_short_and_long_texts() {
    let r = FSReadFile.read_result("hello");
    assert_eq!(r.size, 5);
    assert_eq!(r.content, "hello");
    assert!(r.full_content);
    let long = "ab".repeat(6000);
    let r = FSReadFile.read_result(&long);
    assert_eq!(r.size, 12000);
    assert!(!r.full_content);
    assert_eq!(r.content, format!("{}... 2000 more characters (content > 10000 characters)", &long[..10000]));
}

#[test]
fn write_messages() {
    assert_eq!(FSWriteFile.permission_header("a.txt"), "Write to a.txt");
    assert_eq!(FSWriteFile.written_message("héllo"), "File written successfully (6 bytes)");
}

#[test]
fn listing_counts_the_heading() {
    let entries = vec![
        DirEntryInfo::Listed {
            mode: 0o100644,
            size: 10,
            owner: "mia".to_string(),
            group: "staff".to_string(),
            modified: "2024-01-01 00:00:00".to_string(),
            path: "./a".to_string(),
        },
        DirEntryInfo::NoMetadata { path: "./b".to_string() },
        DirEntryInfo::Unreadable,
    ];
    let (table, count) = FSListDir.listing(&entries);
    assert_eq!(count, 4);
    assert!(table.contains("Permission"));
    assert!(table.contains("-rw-r--r--"));
    assert!(table.contains("[Failed to get metadata]"));
    assert!(table.contains("[Failed to read entry]"));
    assert_eq!(FSListDir.target(r#"{}"#, Some("/h")), ".");
    assert_eq!(FSListDir.target(r#"{"path":"~/d"}"#, Some("/h")), "/h/d");
}

#[test]
fn listing_error_messages() {
    assert_eq!(FSListDir.error_message("x", &ListDirError::NotFound), "Directory not found: x");
    assert_eq!(FSListDir.error_message("x", &ListDirError::PermissionDenied), "Permission denied: x");
    assert_eq!(FSListDir.error_message("x", &ListDirError::NotADirectory), "Not a directory: x");
    assert_eq!(FSListDir.error_message("x", &ListDirError::Other("boom".to_string())), "Unknown error: boom");
}

#[test]
fn read_preview_counts_characters() {
    let mut text = "a".repeat(9999);
    text.push('é');
    text.push_str("xyz");
    let r = FSReadFile.read_result(&text);
    assert_eq!(r.size, 10004);
    assert!(!r.full_content);
    let head: String = text.chars().take(10000).collect();
    assert_eq!(r.content, format!("{head}... 3 more characters (content > 10000 characters)"));
    let exact = "é".repeat(10000);
    let r = FSReadFile.read_result(&exact);
    assert_eq!(r.size, 20000);
    assert!(r.full_content);
    assert_eq!(r.content, exact);
}

#[test]
fn web_search_asks_for_ten_by_default() {
    assert_eq!(WebSearch.result_count("{}"), 10);
    assert_eq!(WebSearch.result_count(r#"{"max_results":3}"#), 3);
}
