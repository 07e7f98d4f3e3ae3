use mia_agent::sessions::{last_session_id, listing_entry, History, Message, PartialSession, Session};
use mia_agent::memory::{memory_delete, memory_insert, shown_entries, Memory, MemoryKind, MemoryOp};

fn entry(id: &str, owner: &str, platform: &str, channel: &str) -> PartialSession {
    PartialSession {
        version: "2".to_string(),
        id: id.to_string(),
        title: String::new(),
        owner: owner.to_string(),
        platform: platform.to_string(),
        channel: channel.to_string(),
        created: String::new(),
        modified: String::new(),
    }
}

#[test]
fn new_session_is_empty_and_versioned() {
    let s = Session::new("user", "tui", "tui");
    assert_eq!(s.version, "2");
    assert_eq!(s.owner, "user");
    assert!(s.title.is_empty());
    assert!(s.history.messages.is_empty());
    assert_eq!(s.id.len(), 36);
}

#[test]
fn extended_session_id_format() {
    let mut s = Session::new("user", "tui", "chat");
    s.id = "0190".to_string();
    assert_eq!(s.get_extended_session_id(), "mia-agent_tui:chat_0190");
}

#[test]
fn last_session_is_the_greatest_matching_id() {
    let all = vec![
        entry("01a", "user", "tui", "tui"),
        entry("01c", "user", "tui", "other"),
        entry("01b", "user", "tui", "tui"),
        entry("019", "user", "tui", "tui"),
        entry("01z", "bob", "tui", "tui"),
    ];
    assert_eq!(last_session_id(&all, "user", "tui", "tui"), Ok("01b".to_string()));
    assert_eq!(
        last_session_id(&all, "user", "web", "x"),
        Err("No existing session found for (user, x)".to_string())
    );
}

#[test]
fn listing_keeps_current_sessions_and_marks_others() {
    let ok = listing_entry(Some(entry("a", "u", "p", "c")), "a.json", false).unwrap();
    assert_eq!(ok.id, "a");
    let mut old = entry("b", "u", "p", "c");
    old.version = "1".to_string();
    assert!(listing_entry(Some(old), "b.json", false).is_none());
    let marked = listing_entry(None, "c.json", true).unwrap();
    assert_eq!(marked.id, "INVALID SESSION: c.json");
    assert!(marked.owner.is_empty());
}

#[test]
fn history_system_prompt_is_set_once() {
    let mut h = History::new();
    h.add_message(Message::new("user", "hi"));
    h.set_system_prompt("be brief");
    assert_eq!(h.messages.len(), 2);
    assert_eq!(h.messages[0].role, "system");
    assert_eq!(h.messages[0].content.as_deref(), Some("be brief"));
    h.set_system_prompt("be kind");
    assert_eq!(h.messages.len(), 2);
    assert_eq!(h.messages[0].content.as_deref(), Some("be kind"));
    assert_eq!(h.messages[1].content.as_deref(), Some("hi"));
    let t = Message::new_tool_call_response("call_1", "done");
    assert_eq!(t.role, "tool");
    assert_eq!(t.tool_call_id.as_deref(), Some("call_1"));
}

#[test]
fn memory_insert_then_read_back() {
    let a = memory_insert("", "likes tea");
    assert_eq!(a, "likes tea");
    let b = memory_insert(&a, "uses vim");
    assert_eq!(b, "likes tea\n§\nuses vim");
    assert_eq!(shown_entries(&b), "likes tea\nuses vim");
    let c = memory_delete(&b, "likes tea");
    assert_eq!(c, "uses vim");
    assert_eq!(memory_delete("a\n§\nb\n§\na", "a"), "b");
}

#[test]
fn memory_requests_are_checked() {
    assert_eq!(Memory::parse_request("user", "insert"), Ok((MemoryKind::User, MemoryOp::Insert)));
    assert_eq!(Memory::parse_request("system", "delete"), Ok((MemoryKind::System, MemoryOp::Delete)));
    assert_eq!(
        Memory::parse_request("team", "insert"),
        Err("Invalid memory type. Use 'user' or 'system'".to_string())
    );
    assert_eq!(
        Memory::parse_request("user", "list"),
        Err("Invalid operation. Use 'insert', 'list', or 'delete'".to_string())
    );
    assert_eq!(Memory::apply(MemoryOp::Insert, "x", "y"), "x\n§\ny");
}

#[test]
fn delete_undoes_insert() {
    let f = "likes tea\n§\n\n§\nuses vim\n";
    let after = memory_delete(&memory_insert(f, "prefers rust"), "prefers rust");
    assert_eq!(after, "likes tea\n§\n\n§\nuses vim");
}

#[test]
fn new_session_ids_are_hyphenated_uuids() {
    let a = Session::new("user", "tui", "tui");
    let b = Session::new("user", "tui", "tui");
    assert_ne!(a.id, b.id);
    for id in [&a.id, &b.id] {
        assert_eq!(id.len(), 36);
        for (i, c) in id.chars().enumerate() {
            if [8, 13, 18, 23].contains(&i) {
                assert_eq!(c, '-');
            } else {
                assert!(c.is_ascii_hexdigit() && !c.is_ascii_uppercase());
            }
        }
    }
}
