use mia_agent::commands::line_help_message;

#[test]
fn print_inline() {
    let output = "|---|---|
| Tool | What it would do |
|------|-----------------|
| **file_info** | Get file metadata (size, permissions, timestamps, mime type) |
| **directory_tree** | Recursive tree view of directories with sizes/permissions |
| **process_list** | List running processes, PIDs, CPU/memory usage |
| **system_info** | OS, kernel version, uptime, memory/disk stats |
| **head/tail** | Read first/last N lines of large files efficiently |
| **wc** | Count lines/words/bytes in files |
| **git_log** | Commit history, changes, blame info |
| **diff** | Compare two files or show uncommitted changes |
|---|---|";
    let skin = termimad::MadSkin::default_dark();
    skin.print_text(output);
    skin.print_text(&line_help_message());
}
