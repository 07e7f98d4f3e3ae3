use mia_agent::chat::{ChatState, Chunk, PermissionStep, Placeholder};
use mia_agent::commands::{
    classify_submission, command_action, input_highlight, is_valid_command, line_action,
    terminal_answer_is_yes, CommandAction, Highlight, LineAction, Submission,
};
use mia_agent::layout::{input_height, wrapped_string_height, wrapped_text_height, ScrollState};
use mia_agent::prompt_box::{generate_think_lines, permission_box, permission_box_checked};
use mia_agent::render::{prerender, prerender_checked, CachedLine, ScreenMessage, ScreenRole};
use mia_agent::render::{get_logo, logo_color, render_message, LogoColor, MessageLine, RenderOptions, Sender};
use mia_agent::sessions::{Message, ToolCallRequest, Usage};
use mia_agent::tools::{Probe, ToolRegistry};

fn registry() -> ToolRegistry {
    ToolRegistry::with_probe(Probe { pandoc: true, pdflatex: true, python3: true, bash: true, ls: true, fd: true, tavily_key: true })
}

fn options(width: usize) -> RenderOptions {
    RenderOptions { width, username: "ana".to_string(), show_reasoning: true, render_markdown: false }
}

#[test]
fn short_messages_take_one_line() {
    let m = Message::new("assistant", "hello");
    let lines = render_message(&m, &options(40), &registry()).unwrap();
    assert_eq!(lines.len(), 1);
    match &lines[0] {
        MessageLine::Short { sender: Sender::Assistant, text } => assert_eq!(text, "hello"),
        _ => panic!("expected a short line"),
    }
    let narrow = render_message(&m, &options(10), &registry()).unwrap();
    assert_eq!(narrow.len(), 2);
}

#[test]
fn long_messages_have_heading_reasoning_content_and_tools() {
    let mut m = Message::new("assistant", "line one\nline two");
    m.reasoning = Some("think".to_string());
    m.tool_calls = Some(vec![ToolCallRequest {
        id: "c1".to_string(),
        name: "fs_read_file".to_string(),
        arguments: r#"{"path":"x.rs"}"#.to_string(),
    }]);
    let lines = render_message(&m, &options(80), &registry()).unwrap();
    assert_eq!(lines.len(), 5);
    assert!(matches!(&lines[0], MessageLine::Header { sender: Sender::Assistant, thoughts: false }));
    assert!(matches!(&lines[1], MessageLine::Reasoning(r) if r == "think"));
    assert!(matches!(&lines[2], MessageLine::Content(c) if c == "line one"));
    assert!(matches!(&lines[3], MessageLine::Content(c) if c == "line two"));
    match &lines[4] {
        MessageLine::ToolCall { icon, name, summary } => {
            assert_eq!(icon, "📖");
            assert_eq!(name, "fs_read_file");
            assert_eq!(summary, "x.rs");
        }
        _ => panic!("expected a tool line"),
    }
}

#[test]
fn hidden_reasoning_shows_a_hint() {
    let mut m = Message::new("user", "hi");
    m.reasoning = Some("secret".to_string());
    let opts = RenderOptions { show_reasoning: false, ..options(80) };
    let lines = render_message(&m, &opts, &registry()).unwrap();
    assert_eq!(lines.len(), 2);
    assert!(matches!(&lines[0], MessageLine::Header { sender: Sender::User(u), thoughts: true } if u == "ana"));
}

#[test]
fn system_and_unknown_roles() {
    assert!(render_message(&Message::new("system", "x"), &options(80), &registry()).unwrap().is_empty());
    assert!(render_message(&Message::new("tool", "x"), &options(80), &registry()).unwrap().is_empty());
    assert_eq!(
        render_message(&Message::new("robot", "x"), &options(80), &registry()).err().unwrap(),
        "Unknown role: robot"
    );
}

#[test]
fn logo_colours() {
    assert_eq!(logo_color('█'), LogoColor::Magenta);
    assert_eq!(logo_color('╷'), LogoColor::LightGreen);
    assert_eq!(logo_color(' '), LogoColor::Plain);
    let logo = get_logo();
    assert_eq!(logo.len(), 8);
    assert!(logo[0].is_empty());
}

#[test]
fn chat_state_follows_events() {
    let mut s = ChatState::new(true);
    assert_eq!(s.placeholder.text(), "Type something...");
    s.on_status("Waiting".to_string());
    assert_eq!(s.placeholder, Placeholder::Executing);
    s.on_chunk(Chunk { role: "assistant".to_string(), reasoning_index: -1, content_index: 0, reasoning: None, content: Some("Hel".to_string()) });
    s.on_chunk(Chunk { role: "assistant".to_string(), reasoning_index: -1, content_index: 1, reasoning: None, content: Some("lo".to_string()) });
    assert_eq!(s.partial.as_ref().unwrap().content, "Hello");
    s.on_assistant_message(Some(Usage { prompt_tokens: 10, completion_tokens: 5, total_tokens: 15 }), false);
    assert!(s.partial.is_none());
    assert_eq!(s.placeholder.text(), "Type Something...");
    s.on_assistant_message(Some(Usage { prompt_tokens: 20, completion_tokens: 7, total_tokens: 27 }), true);
    assert_eq!((s.prompt_tokens, s.completion_tokens, s.total_tokens), (20, 12, 27));
    assert_eq!(s.token_text().unwrap(), "(20|12|27)");
}

#[test]
fn permission_prompts_and_yolo() {
    let mut s = ChatState::new(false);
    assert_eq!(s.on_permission_request(), PermissionStep::Ask);
    assert!(s.permission_pending);
    assert_eq!(s.status, "Permission Required");
    assert_eq!(s.placeholder.text(), "y/n, <Ctrl-C> to cancel");
    s.on_permission_answered();
    assert!(!s.permission_pending);
    assert_eq!(s.placeholder, Placeholder::Executing);
    s.toggle_yolo();
    assert_eq!(s.on_permission_request(), PermissionStep::GrantNow);
    assert!(!s.permission_pending);
}

#[test]
fn tool_output_and_cancel() {
    let mut s = ChatState::new(true);
    s.on_partial_tool_output(Some("a".to_string()), None);
    s.on_partial_tool_output(Some("b".to_string()), Some("!".to_string()));
    assert_eq!(s.tool_output.as_deref(), Some("ab!"));
    assert!(s.on_tool_output());
    assert!(s.tool_output.is_none());
    s.on_status("Calling Tools".to_string());
    s.on_cancel();
    assert!(s.status.is_empty());
    assert_eq!(s.placeholder, Placeholder::Idle);
    let mut quiet = ChatState::new(false);
    quiet.on_partial_tool_output(Some("a".to_string()), None);
    assert!(quiet.tool_output.is_none());
}

#[test]
fn status_bar_spinner_turns() {
    let mut s = ChatState::new(true);
    let (bar, next) = s.statusbar(true, 9, true, "owl");
    assert!(bar.spinner.is_none() && bar.status.is_none());
    assert_eq!(next, 9);
    s.on_status("Waiting".to_string());
    let (bar, next) = s.statusbar(false, 9, true, "owl");
    assert_eq!(bar.spinner, Some("⠏"));
    assert_eq!(next, 0);
    assert!(bar.dashed);
    assert_eq!(bar.model, "owl");
}

#[test]
fn commands_and_submissions() {
    assert!(is_valid_command("/yolo"));
    assert!(!is_valid_command("/clear"));
    assert!(is_valid_command("/"));
    assert_eq!(input_highlight("/"), Highlight::ValidCommand);
    assert_eq!(command_action("/"), CommandAction::ShowHelp);
    assert_eq!(command_action("/bye"), CommandAction::Exit);
    assert_eq!(command_action("/nope"), CommandAction::Unknown);
    assert_eq!(classify_submission("", true), Submission::Ignore);
    assert_eq!(classify_submission("/new", true), Submission::Command);
    assert_eq!(classify_submission("// not a command", false), Submission::Message);
    assert_eq!(classify_submission("yyy", true), Submission::PermissionAnswer(true));
    assert_eq!(classify_submission("no", true), Submission::PermissionAnswer(false));
    assert_eq!(input_highlight("/model"), Highlight::ValidCommand);
    assert_eq!(input_highlight("/mod"), Highlight::OtherCommand);
    assert_eq!(input_highlight("hello"), Highlight::Plain);
}

#[test]
fn plain_terminal_lines() {
    assert_eq!(line_action("  /cls "), ("/cls".to_string(), LineAction::ClearScreen));
    assert_eq!(line_action("   ").1, LineAction::Skip);
    assert_eq!(line_action("/what").1, LineAction::Invalid);
    assert!(terminal_answer_is_yes(" YES "));
    assert!(terminal_answer_is_yes("y"));
    assert!(!terminal_answer_is_yes("nope"));
    assert!(!terminal_answer_is_yes(""));
    assert!(!terminal_answer_is_yes("   \n"));
    assert!(!terminal_answer_is_yes("\n"));
    assert!(terminal_answer_is_yes("Y\n"));
    assert!(terminal_answer_is_yes("yyy"));
}

#[test]
fn wrapped_heights() {
    assert_eq!(wrapped_text_height(&vec![3, 10, 0], 4), 1 + 3 + 1);
    assert_eq!(wrapped_string_height("abcdefgh\nx", 4), 3);
    assert_eq!(input_height(&vec![], 10), 1);
    assert_eq!(input_height(&vec![0, 25], 10), 4);
}

#[test]
fn scrolling_stops_and_resumes_following() {
    let mut s = ScrollState::new();
    s.recalculate(30, 10);
    assert_eq!((s.offset, s.auto_scroll), (20, true));
    s.scroll_up(30, 10);
    assert_eq!((s.offset, s.auto_scroll), (18, false));
    s.recalculate(40, 10);
    assert_eq!(s.offset, 18);
    s.scroll_down(40, 10);
    assert_eq!(s.offset, 20);
    s.scroll_down(22, 10);
    assert_eq!((s.offset, s.auto_scroll), (12, true));
}

#[test]
fn permission_box_frames_the_question() {
    let lines = permission_box("Execute?", "ls -la", 40);
    assert_eq!(lines, vec![
        "╭─Execute?─╮".to_string(),
        "│ ls -la   │".to_string(),
        "├─Execute?─╯".to_string(),
        "╰─[y/n]: ".to_string(),
    ]);
    assert!(permission_box_checked("Execute?", "ls -la", 40).is_some());
    assert_eq!(generate_think_lines("one two three", 9), "> one two\n> three");
}

#[test]
fn plain_terminal_texts() {
    let model = mia_agent::config::ModelConfig {
        provider: "groq".to_string(),
        base_url: "https://api.groq.com/openai/v1".to_string(),
        name: "llama".to_string(),
        reasoning: "low".to_string(),
    };
    assert_eq!(
        mia_agent::commands::line_model_text(&model),
        "\nModel     : llama\nBase URL  : https://api.groq.com/openai/v1\nReasoning : low"
    );
    assert!(mia_agent::commands::line_help_message().starts_with("Commands:\n    /help"));
    assert!(mia_agent::commands::get_help_message().contains("/yolo       Toggle YOLO mode"));
}

#[test]
fn experimental_screen_cache() {
    let short = ScreenMessage::Text { role: ScreenRole::User, reasoning: String::new(), content: "hi".to_string() };
    let lines = prerender(&short, 40);
    assert_eq!(lines.len(), 1);
    assert!(matches!(&lines[0], CachedLine::Short { role: ScreenRole::User, content } if content == "hi"));
    let long = ScreenMessage::Text { role: ScreenRole::Assistant, reasoning: "a b".to_string(), content: "x\ny".to_string() };
    let lines = prerender(&long, 40);
    assert_eq!(lines.len(), 4);
    assert!(matches!(&lines[0], CachedLine::Header(ScreenRole::Assistant)));
    assert!(matches!(&lines[1], CachedLine::Reasoning(r) if r == "a b"));
    assert!(matches!(&lines[3], CachedLine::Content(c) if c == "y"));
    assert!(prerender_checked(&short, 12).is_none());
    let tool = ScreenMessage::ToolCall { icon: "🧠".to_string(), name: "memory".to_string(), shorthand: "user +x".to_string() };
    assert_eq!(prerender(&tool, 0).len(), 1);
}
