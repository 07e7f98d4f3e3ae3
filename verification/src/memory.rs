//! Persistent memory files. A memory file holds one entry per line, with a
//! line holding only `§` between each two entries. The `memory` tool inserts
//! and deletes entries; the system prompt reads them back.
use vstd::prelude::*;
use crate::text::{
    has_char, intersperse_spec, join, join_spec, lemma_filter_intersperse, lemma_intersperse_items,
    lemma_lines_of_join, lemma_lines_single, lines, lines_spec, owned, parts_single_line, str_eq,
    strip_cr,
};

verus! {

/// The line that separates two entries of a memory file.
pub open spec fn marker() -> Seq<char> {
    "§"@
}

/// A line is an entry (not the separator line).
pub open spec fn is_entry(l: Seq<char>) -> bool {
    l != marker()
}

/// A line differs from `content`.
pub open spec fn differs_from(l: Seq<char>, content: Seq<char>) -> bool {
    l != content
}

/// The entries of a memory file: its lines without the separator lines.
pub open spec fn entries_of(text: Seq<char>) -> Seq<Seq<char>> {
    lines_spec(text).filter(|l: Seq<char>| is_entry(l))
}

/// The text of a memory file holding `entries`.
pub open spec fn memory_text(entries: Seq<Seq<char>>) -> Seq<char> {
    join_spec(intersperse_spec(entries, marker()), seq!['\n'])
}

/// The file after inserting `content` as the last entry.
pub open spec fn inserted(current: Seq<char>, content: Seq<char>) -> Seq<char> {
    memory_text(entries_of(current).push(content))
}

/// The file after deleting every entry equal to `content`.
pub open spec fn deleted(current: Seq<char>, content: Seq<char>) -> Seq<char> {
    memory_text(entries_of(current).filter(|l: Seq<char>| differs_from(l, content)))
}

/// What the system prompt shows of a memory file: its entries, one per line.
pub open spec fn shown(text: Seq<char>) -> Seq<char> {
    join_spec(entries_of(text), seq!['\n'])
}

/// An entry that survives a write and a read unchanged: one line, no
/// trailing carriage return, not the separator, not empty.
pub open spec fn clean_entry(e: Seq<char>) -> bool {
    &&& !has_char(e, '\n')
    &&& strip_cr(e) == e
    &&& e != marker()
    &&& e.len() > 0
}

/// Which memory file a request addresses.
#[derive(Debug, Clone, Copy, PartialEq, Eq, Structural)]
pub enum MemoryKind {
    User,
    System,
}

/// What a request does to the memory file.
#[derive(Debug, Clone, Copy, PartialEq, Eq, Structural)]
pub enum MemoryOp {
    Insert,
    Delete,
}

/// The `memory` tool: manages the user and system memory files.
#[derive(Debug)]
pub struct Memory;

/// The kind and operation a request names, or the message for a bad request.
pub open spec fn spec_parse_request(memory_type: Seq<char>, operation: Seq<char>) -> Result<
    (MemoryKind, MemoryOp),
    Seq<char>,
> {
    if memory_type != "user"@ && memory_type != "system"@ {
        Err("Invalid memory type. Use 'user' or 'system'"@)
    } else if operation != "insert"@ && operation != "delete"@ {
        Err("Invalid operation. Use 'insert', 'list', or 'delete'"@)
    } else {
        Ok(
            (
                if memory_type == "user"@ {
                    MemoryKind::User
                } else {
                    MemoryKind::System
                },
                if operation == "insert"@ {
                    MemoryOp::Insert
                } else {
                    MemoryOp::Delete
                },
            ),
        )
    }
}

impl Memory {
    /// Decides which file and which operation a request names. The memory
    /// type is checked before the operation.
    pub fn parse_request(memory_type: &str, operation: &str) -> (r: Result<
        (MemoryKind, MemoryOp),
        String,
    >)
        ensures
            match r {
                Ok(v) => spec_parse_request(memory_type@, operation@) == Ok::<
                    (MemoryKind, MemoryOp),
                    Seq<char>,
                >(v),
                Err(m) => spec_parse_request(memory_type@, operation@) == Err::<
                    (MemoryKind, MemoryOp),
                    Seq<char>,
                >(m@),
            },
    {
        let kind = if str_eq(memory_type, "user") {
            MemoryKind::User
        } else if str_eq(memory_type, "system") {
            MemoryKind::System
        } else {
            return Err(owned("Invalid memory type. Use 'user' or 'system'"));
        };
        let op = if str_eq(operation, "insert") {
            MemoryOp::Insert
        } else if str_eq(operation, "delete") {
            MemoryOp::Delete
        } else {
            return Err(owned("Invalid operation. Use 'insert', 'list', or 'delete'"));
        };
        Ok((kind, op))
    }

    /// The new text of the memory file after the operation.
    pub fn apply(op: MemoryOp, current: &str, content: &str) -> (r: String)
        ensures
            r@ == match op {
                MemoryOp::Insert => inserted(current@, content@),
                MemoryOp::Delete => deleted(current@, content@),
            },
    {
        match op {
            MemoryOp::Insert => memory_insert(current, content),
            MemoryOp::Delete => memory_delete(current, content),
        }
    }
}

/// The entries of a memory file.
pub fn entries(text: &str) -> (r: Vec<String>)
    ensures
        r@.map_values(|l: String| l@) == entries_of(text@),
{
    let ls = lines(text);
    let ghost lv = ls@.map_values(|l: String| l@);
    let mut out: Vec<String> = Vec::new();
    let mut i: usize = 0;
    while i < ls.len()
        invariant
            lv == ls@.map_values(|l: String| l@),
            lv == lines_spec(text@),
            i <= ls.len(),
            out@.map_values(|l: String| l@) == lv.take(i as int).filter(|l: Seq<char>| is_entry(l)),
        decreases ls.len() - i,
    {
        proof {
            reveal(Seq::filter);
            assert(lv.take(i + 1).drop_last() =~= lv.take(i as int));
            assert(lv.take(i + 1).last() == ls@[i as int]@);
        }
        if !str_eq(ls[i].as_str(), "§") {
            out.push(ls[i].clone());
            proof {
                assert(out@.map_values(|l: String| l@) =~= lv.take(i as int).filter(
                    |l: Seq<char>| is_entry(l),
                ).push(ls@[i as int]@));
            }
        }
        i = i + 1;
    }
    assert(lv.take(ls.len() as int) =~= lv);
    out
}

/// The items of `items` with the separator line between each two.
fn intersperse_marker(items: Vec<String>) -> (r: Vec<String>)
    ensures
        r@.map_values(|l: String| l@) == intersperse_spec(
            items@.map_values(|l: String| l@),
            marker(),
        ),
{
    let ghost iv = items@.map_values(|l: String| l@);
    let mut out: Vec<String> = Vec::new();
    let mut i: usize = 0;
    while i < items.len()
        invariant
            iv == items@.map_values(|l: String| l@),
            i <= items.len(),
            out@.map_values(|l: String| l@) == intersperse_spec(iv.take(i as int), marker()),
        decreases items.len() - i,
    {
        proof {
            assert(iv.take(i + 1).drop_last() =~= iv.take(i as int));
            assert(iv.take(i + 1).last() == items@[i as int]@);
        }
        if i > 0 {
            out.push(owned("§"));
        }
        out.push(items[i].clone());
        proof {
            if i == 0 {
                assert(iv.take(1) =~= seq![items@[0]@]);
                assert(out@.map_values(|l: String| l@) =~= seq![items@[0]@]);
            } else {
                assert(out@.map_values(|l: String| l@) =~= intersperse_spec(
                    iv.take(i as int),
                    marker(),
                ).push(marker()).push(items@[i as int]@));
            }
        }
        i = i + 1;
    }
    assert(iv.take(items.len() as int) =~= iv);
    out
}

/// The text of a memory file holding `items`.
fn render_memory(items: Vec<String>) -> (r: String)
    ensures
        r@ == memory_text(items@.map_values(|l: String| l@)),
{
    let parts = intersperse_marker(items);
    proof {
        reveal_strlit("\n");
        assert("\n"@ =~= seq!['\n']);
    }
    join(&parts, "\n")
}

/// Inserts `content` as the last entry; separator lines are rebuilt.
pub fn memory_insert(current: &str, content: &str) -> (r: String)
    ensures
        r@ == inserted(current@, content@),
{
    let mut es = entries(current);
    let ghost before = es@;
    es.push(owned(content));
    proof {
        assert(es@.map_values(|l: String| l@) =~= before.map_values(|l: String| l@).push(
            content@,
        ));
    }
    render_memory(es)
}

/// Deletes every entry equal to `content`; separator lines are rebuilt.
pub fn memory_delete(current: &str, content: &str) -> (r: String)
    ensures
        r@ == deleted(current@, content@),
{
    let es = entries(current);
    let ghost ev = es@.map_values(|l: String| l@);
    let mut kept: Vec<String> = Vec::new();
    let mut i: usize = 0;
    while i < es.len()
        invariant
            ev == es@.map_values(|l: String| l@),
            ev == entries_of(current@),
            i <= es.len(),
            kept@.map_values(|l: String| l@) == ev.take(i as int).filter(
                |l: Seq<char>| differs_from(l, content@),
            ),
        decreases es.len() - i,
    {
        proof {
            reveal(Seq::filter);
            assert(ev.take(i + 1).drop_last() =~= ev.take(i as int));
            assert(ev.take(i + 1).last() == es@[i as int]@);
        }
        if !str_eq(es[i].as_str(), content) {
            kept.push(es[i].clone());
            proof {
                assert(kept@.map_values(|l: String| l@) =~= ev.take(i as int).filter(
                    |l: Seq<char>| differs_from(l, content@),
                ).push(es@[i as int]@));
            }
        }
        i = i + 1;
    }
    assert(ev.take(es.len() as int) =~= ev);
    render_memory(kept)
}

/// What the system prompt shows of a memory file: its entries, one per line.
pub fn shown_entries(text: &str) -> (r: String)
    ensures
        r@ == shown(text@),
{
    let es = entries(text);
    proof {
        reveal_strlit("\n");
        assert("\n"@ =~= seq!['\n']);
    }
    join(&es, "\n")
}

// ---------------------------------------------------------------------
// Laws
// ---------------------------------------------------------------------

/// The separator line is a single character and no line ending.
proof fn lemma_marker_facts()
    ensures
        !has_char(marker(), '\n'),
        strip_cr(marker()) == marker(),
{
    reveal_strlit("§");
    assert(marker().len() == 1);
    assert(marker()[0] == '§');
}

/// Writing a list of clean entries and reading it back gives the list.
pub proof fn lemma_read_after_write(es: Seq<Seq<char>>)
    requires
        forall|i: int| 0 <= i < es.len() ==> clean_entry(#[trigger] es[i]),
    ensures
        entries_of(memory_text(es)) == es,
{
    lemma_marker_facts();
    let parts = intersperse_spec(es, marker());
    let p = |x: Seq<char>| !has_char(x, '\n') && strip_cr(x) == x && x.len() > 0;
    assert forall|i: int| 0 <= i < es.len() implies p(#[trigger] es[i]) by {
        assert(clean_entry(es[i]));
    }
    reveal_strlit("§");
    lemma_intersperse_items(es, marker(), p);
    assert(parts_single_line(parts)) by {
        assert forall|i: int| 0 <= i < parts.len() implies !has_char(#[trigger] parts[i], '\n') by {
            assert(p(parts[i]));
        }
    }
    lemma_lines_of_join(parts);
    let ls = lines_spec(join_spec(parts, seq!['\n']));
    if es.len() == 0 {
        assert(parts =~= Seq::<Seq<char>>::empty());
        assert(ls =~= Seq::<Seq<char>>::empty());
        reveal(Seq::filter);
        assert(ls.filter(|l: Seq<char>| is_entry(l)) =~= es);
    } else {
        assert(p(parts[parts.len() - 1]));
        assert(ls =~= parts) by {
            assert forall|i: int| 0 <= i < parts.len() - 1 implies strip_cr(#[trigger] parts[i])
                == parts[i] by {
                assert(p(parts[i]));
            }
        }
        assert forall|i: int| 0 <= i < es.len() implies es[i] != marker() by {
            assert(clean_entry(es[i]));
        }
        lemma_filter_intersperse(es, marker(), |l: Seq<char>| is_entry(l));
    }
}

/// Reading the memory after an insertion gives the entries read before,
/// with the new entry last, when every entry is clean.
pub proof fn law_read_after_insert(current: Seq<char>, content: Seq<char>)
    requires
        forall|i: int|
            0 <= i < entries_of(current).len() ==> clean_entry(#[trigger] entries_of(current)[i]),
        clean_entry(content),
    ensures
        entries_of(inserted(current, content)) == entries_of(current).push(content),
{
    let es = entries_of(current).push(content);
    assert forall|i: int| 0 <= i < es.len() implies clean_entry(#[trigger] es[i]) by {
        if i < entries_of(current).len() {
            assert(es[i] == entries_of(current)[i]);
        }
    }
    lemma_read_after_write(es);
}

/// Reading the memory after a deletion gives the entries read before,
/// without those equal to the deleted content, when every entry is clean.
pub proof fn law_read_after_delete(current: Seq<char>, content: Seq<char>)
    requires
        forall|i: int|
            0 <= i < entries_of(current).len() ==> clean_entry(#[trigger] entries_of(current)[i]),
    ensures
        entries_of(deleted(current, content)) == entries_of(current).filter(
            |l: Seq<char>| differs_from(l, content),
        ),
{
    let es = entries_of(current).filter(|l: Seq<char>| differs_from(l, content));
    assert forall|i: int| 0 <= i < es.len() implies clean_entry(#[trigger] es[i]) by {
        assert(es.contains(es[i]));
        entries_of(current).lemma_filter_contains_rev(
            |l: Seq<char>| differs_from(l, content),
            es[i],
        );
        let j = choose|j: int| 0 <= j < entries_of(current).len() && entries_of(current)[j] == es[i];
        assert(clean_entry(entries_of(current)[j]));
    }
    lemma_read_after_write(es);
}

/// After deleting `content`, no entry equals it.
pub proof fn law_delete_removes(current: Seq<char>, content: Seq<char>)
    requires
        forall|i: int|
            0 <= i < entries_of(current).len() ==> clean_entry(#[trigger] entries_of(current)[i]),
    ensures
        !entries_of(deleted(current, content)).contains(content),
{
    law_read_after_delete(current, content);
    let es = entries_of(current).filter(|l: Seq<char>| differs_from(l, content));
    if es.contains(content) {
        let i = choose|i: int| 0 <= i < es.len() && es[i] == content;
        entries_of(current).lemma_filter_pred(|l: Seq<char>| differs_from(l, content), i);
        assert(differs_from(es[i], content));
    }
}

/// Keeping the items that differ from `c` keeps all of a sequence that
/// does not hold `c`.
proof fn lemma_filter_without(es: Seq<Seq<char>>, c: Seq<char>)
    requires
        !es.contains(c),
    ensures
        es.filter(|l: Seq<char>| differs_from(l, c)) == es,
    decreases es.len(),
{
    reveal(Seq::filter);
    if es.len() == 0 {
        assert(es.filter(|l: Seq<char>| differs_from(l, c)) =~= es);
    } else {
        let init = es.drop_last();
        assert(!init.contains(c)) by {
            if init.contains(c) {
                let j = choose|j: int| 0 <= j < init.len() && init[j] == c;
                assert(es[j] == c);
            }
        }
        lemma_filter_without(init, c);
        assert(es.last() != c) by {
            assert(es[es.len() - 1] == es.last());
        }
        assert(init.push(es.last()) =~= es);
    }
}

/// Reading a memory file written from entries gives those entries back,
/// when the last entry is not empty, no entry holds a line ending or is
/// the separator, and no entry but the last ends with a carriage return.
proof fn lemma_read_after_write_last(init: Seq<Seq<char>>, c: Seq<char>)
    requires
        forall|i: int|
            0 <= i < init.len() ==> !has_char(#[trigger] init[i], '\n') && strip_cr(init[i])
                == init[i] && init[i] != marker(),
        c.len() > 0,
        !has_char(c, '\n'),
        c != marker(),
    ensures
        entries_of(memory_text(init.push(c))) == init.push(c),
{
    lemma_marker_facts();
    let es = init.push(c);
    let parts = intersperse_spec(es, marker());
    assert forall|i: int| 0 <= i < es.len() implies !has_char(#[trigger] es[i], '\n') by {
        if i < init.len() {
            assert(es[i] == init[i]);
        }
    }
    lemma_intersperse_items(es, marker(), |x: Seq<char>| !has_char(x, '\n'));
    assert(parts_single_line(parts)) by {
        assert forall|i: int| 0 <= i < parts.len() implies !has_char(#[trigger] parts[i], '\n') by {
            assert((|x: Seq<char>| !has_char(x, '\n'))(parts[i]));
        }
    }
    lemma_lines_of_join(parts);
    let ls = lines_spec(join_spec(parts, seq!['\n']));
    if init.len() == 0 {
        assert(es =~= seq![c]);
        assert(parts =~= seq![c]);
        assert(ls =~= parts);
    } else {
        let front = intersperse_spec(init, marker());
        assert(es.drop_last() =~= init);
        assert(parts == front.push(marker()).push(c));
        lemma_intersperse_items(init, marker(), |x: Seq<char>| strip_cr(x) == x);
        assert forall|i: int| 0 <= i < parts.len() - 1 implies strip_cr(#[trigger] parts[i])
            == parts[i] by {
            if i < front.len() {
                assert(parts[i] == front[i]);
                assert((|x: Seq<char>| strip_cr(x) == x)(front[i]));
            }
        }
        assert(ls =~= parts);
    }
    assert forall|i: int| 0 <= i < es.len() implies es[i] != marker() by {
        if i < init.len() {
            assert(es[i] == init[i]);
        }
    }
    lemma_filter_intersperse(es, marker(), |l: Seq<char>| is_entry(l));
}

/// Deleting an entry right after inserting it undoes the insertion: the
/// file holds its former entries, one per line with the separator line
/// between each two. The entry is not empty, is one line and is not the
/// separator, and no line of the file equals it; no line of the file ends
/// with a carriage return (a write would drop it).
pub proof fn law_delete_undoes_insert(f: Seq<char>, c: Seq<char>)
    requires
        c.len() > 0,
        !has_char(c, '\n'),
        c != marker(),
        !lines_spec(f).contains(c),
        forall|i: int| 0 <= i < lines_spec(f).len() ==> strip_cr(#[trigger] lines_spec(f)[i])
            == lines_spec(f)[i],
    ensures
        deleted(inserted(f, c), c) == memory_text(entries_of(f)),
{
    let ls = lines_spec(f);
    let e = entries_of(f);
    lemma_lines_single(f);
    assert forall|i: int| 0 <= i < e.len() implies !has_char(#[trigger] e[i], '\n') && strip_cr(
        e[i],
    ) == e[i] && e[i] != marker() by {
        assert(e.contains(e[i]));
        ls.lemma_filter_contains_rev(|l: Seq<char>| is_entry(l), e[i]);
        let j = choose|j: int| 0 <= j < ls.len() && ls[j] == e[i];
        assert(!has_char(ls[j], '\n'));
        ls.lemma_filter_pred(|l: Seq<char>| is_entry(l), i);
    }
    assert(!e.contains(c)) by {
        if e.contains(c) {
            ls.lemma_filter_contains_rev(|l: Seq<char>| is_entry(l), c);
        }
    }
    lemma_read_after_write_last(e, c);
    reveal(Seq::filter);
    assert(e.push(c).drop_last() =~= e);
    lemma_filter_without(e, c);
    assert(e.push(c).filter(|l: Seq<char>| differs_from(l, c)) == e.filter(
        |l: Seq<char>| differs_from(l, c),
    ));
}

/// A valid request names the file by its memory type alone and the
/// operation by its operation alone: `system` always addresses the system
/// memory and `user` the user memory, whatever the operation; `insert`
/// always inserts and `delete` always deletes, whichever the file. Any
/// other type or operation is refused.
pub proof fn law_request_kind_and_op(memory_type: Seq<char>, operation: Seq<char>)
    ensures
        (spec_parse_request(memory_type, operation) is Ok) <==> ((memory_type == "user"@
            || memory_type == "system"@) && (operation == "insert"@ || operation == "delete"@)),
        spec_parse_request(memory_type, operation) matches Ok((k, o)) ==> (k == MemoryKind::System
            <==> memory_type == "system"@) && (k == MemoryKind::User <==> memory_type == "user"@)
            && (o == MemoryOp::Insert <==> operation == "insert"@) && (o == MemoryOp::Delete
            <==> operation == "delete"@),
{
    reveal_strlit("user");
    reveal_strlit("system");
    reveal_strlit("insert");
    reveal_strlit("delete");
    assert("user"@ != "system"@) by {
        assert("user"@.len() != "system"@.len());
    }
    assert("insert"@ != "delete"@) by {
        assert("insert"@[0] != "delete"@[0]);
    }
}

} // verus!
