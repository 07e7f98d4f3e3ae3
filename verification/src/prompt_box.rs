//! The box the plain terminal draws around a permission question: the
//! question above and below, the wrapped content between, all as wide as
//! the widest of them. Also the quoted reasoning lines of that interface.
use vstd::prelude::*;
use crate::text::{owned, concat2, push_char};

verus! {

/// The lines `textwrap::wrap` breaks `text` into at `width` columns.
pub uninterp spec fn wrapped(text: Seq<char>, width: usize) -> Seq<Seq<char>>;

/// The columns `textwrap::core::display_width` gives `text`.
pub uninterp spec fn columns(text: Seq<char>) -> usize;

/// Breaks `text` into lines for a width of `width` columns. Trusted:
/// `textwrap::wrap`, a function of the text and the width alone.
#[verifier::external_body]
pub(crate) fn wrap_text(text: &str, width: usize) -> (r: Vec<String>)
    ensures
        r@.map_values(|l: String| l@) == wrapped(text@, width),
{
    textwrap::wrap(text, width).into_iter().map(|l| l.into_owned()).collect()
}

/// The columns `text` takes. Trusted: `textwrap::core::display_width`,
/// a function of the text alone.
#[verifier::external_body]
fn text_columns(text: &str) -> (r: usize)
    ensures
        r == columns(text@),
{
    textwrap::core::display_width(text)
}

/// The widest of the lines, in columns; zero for none.
pub open spec fn max_columns(ls: Seq<Seq<char>>) -> nat
    decreases ls.len(),
{
    if ls.len() == 0 {
        0
    } else {
        let m = max_columns(ls.drop_last());
        if columns(ls.last()) > m {
            columns(ls.last()) as nat
        } else {
            m
        }
    }
}

/// `n` copies of `c`.
pub open spec fn repeat(c: char, n: nat) -> Seq<char> {
    Seq::new(n, |_i: int| c)
}

/// The widest content a box may have in a terminal `width` columns wide.
pub open spec fn content_width(width: usize) -> nat {
    (width - 4) as nat
}

/// The inner width of the box: the wider of the question (at most the
/// content width) and the wrapped content (the content width when the
/// content gives no line).
pub open spec fn box_inner(prompt: Seq<char>, content: Seq<char>, width: usize) -> nat {
    let mcw = content_width(width);
    let pw = if columns(prompt) > mcw {
        mcw
    } else {
        columns(prompt) as nat
    };
    let ws = wrapped(content, mcw as usize);
    let cw = if ws.len() == 0 {
        mcw
    } else {
        max_columns(ws)
    };
    if pw > cw {
        pw
    } else {
        cw
    }
}

/// Every line of the wrapped question fits inside the box.
pub open spec fn box_fits(prompt: Seq<char>, content: Seq<char>, width: usize) -> bool {
    let ps = wrapped(prompt, content_width(width) as usize);
    forall|i: int| 0 <= i < ps.len() ==> columns(#[trigger] ps[i]) <= box_inner(prompt, content, width)
}

/// A line padded to the inner width with `fill`, between `left` and `right`.
pub open spec fn framed(left: Seq<char>, l: Seq<char>, fill: char, right: Seq<char>, inner: nat) -> Seq<char> {
    left + l + repeat(fill, (inner - columns(l)) as nat) + right
}

/// The lines of the box: the question on top, the content, the question
/// below, and the answer prompt.
pub open spec fn box_lines(prompt: Seq<char>, content: Seq<char>, width: usize) -> Seq<Seq<char>> {
    let mcw = content_width(width) as usize;
    let inner = box_inner(prompt, content, width);
    let ps = wrapped(prompt, mcw);
    let cs = wrapped(content, mcw);
    ps.map_values(|l: Seq<char>| framed("╭─"@, l, '─', "─╮"@, inner)) + cs.map_values(
        |l: Seq<char>| framed("│ "@, l, ' ', " │"@, inner),
    ) + ps.map_values(|l: Seq<char>| framed("├─"@, l, '─', "─╯"@, inner)) + seq!["╰─[y/n]: "@]
}

/// `n` copies of `c` appended to `s`.
fn push_repeat(s: &mut String, c: char, n: usize)
    ensures
        final(s)@ == old(s)@ + repeat(c, n as nat),
{
    let mut i: usize = 0;
    while i < n
        invariant
            i <= n,
            s@ == old(s)@ + repeat(c, i as nat),
        decreases n - i,
    {
        push_char(s, c);
        i = i + 1;
        assert(s@ =~= old(s)@ + repeat(c, i as nat));
    }
}

/// The widest of the lines, in columns.
fn widest(ls: &Vec<String>) -> (r: usize)
    ensures
        r == max_columns(ls@.map_values(|l: String| l@)),
{
    let ghost lv = ls@.map_values(|l: String| l@);
    let mut m: usize = 0;
    let mut i: usize = 0;
    while i < ls.len()
        invariant
            lv == ls@.map_values(|l: String| l@),
            i <= ls@.len(),
            m == max_columns(lv.take(i as int)),
        decreases ls@.len() - i,
    {
        proof {
            assert(lv.take(i + 1).drop_last() =~= lv.take(i as int));
            assert(lv.take(i + 1).last() == ls@[i as int]@);
        }
        let w = text_columns(ls[i].as_str());
        if w > m {
            m = w;
        }
        i = i + 1;
    }
    assert(lv.take(ls@.len() as int) =~= lv);
    m
}

/// The lines framed between `left` and `right`, padded with `fill`.
fn frame_all(ls: &Vec<String>, left: &str, fill: char, right: &str, inner: usize) -> (r: Vec<String>)
    requires
        forall|i: int| 0 <= i < ls@.len() ==> columns(#[trigger] ls@[i]@) <= inner,
    ensures
        r@.map_values(|l: String| l@) == ls@.map_values(|l: String| l@).map_values(
            |l: Seq<char>| framed(left@, l, fill, right@, inner as nat),
        ),
{
    let ghost target = ls@.map_values(|l: String| l@).map_values(
        |l: Seq<char>| framed(left@, l, fill, right@, inner as nat),
    );
    let mut out: Vec<String> = Vec::new();
    let mut i: usize = 0;
    while i < ls.len()
        invariant
            i <= ls@.len(),
            forall|k: int| 0 <= k < ls@.len() ==> columns(#[trigger] ls@[k]@) <= inner,
            target == ls@.map_values(|l: String| l@).map_values(
                |l: Seq<char>| framed(left@, l, fill, right@, inner as nat),
            ),
            out@.map_values(|l: String| l@) == target.take(i as int),
        decreases ls@.len() - i,
    {
        let w = text_columns(ls[i].as_str());
        assert(columns(ls@[i as int]@) <= inner);
        let mut line = concat2(left, ls[i].as_str());
        push_repeat(&mut line, fill, inner - w);
        line.append(right);
        let ghost before = out@;
        out.push(line);
        proof {
            assert(target.take(i + 1) =~= target.take(i as int).push(target[i as int]));
            assert(out@.map_values(|l: String| l@) =~= before.map_values(|l: String| l@).push(
                line@,
            ));
        }
        i = i + 1;
    }
    assert(target.take(ls@.len() as int) =~= target);
    out
}

/// The lines of the permission box for `prompt` and `content` in a
/// terminal `width` columns wide. Every line of the wrapped question must
/// fit inside the box.
pub fn permission_box(prompt: &str, content: &str, width: usize) -> (r: Vec<String>)
    requires
        width >= 4,
        box_fits(prompt@, content@, width),
    ensures
        r@.map_values(|l: String| l@) == box_lines(prompt@, content@, width),
{
    let mcw = width - 4;
    let ps = wrap_text(prompt, mcw);
    let cs = wrap_text(content, mcw);
    let pw0 = text_columns(prompt);
    let pw = if pw0 > mcw {
        mcw
    } else {
        pw0
    };
    let cw = if cs.len() == 0 {
        mcw
    } else {
        widest(&cs)
    };
    let inner = if pw > cw {
        pw
    } else {
        cw
    };
    proof {
        assert(inner == box_inner(prompt@, content@, width));
        lemma_widest_bounds(cs@.map_values(|l: String| l@));
        assert forall|i: int| 0 <= i < cs@.len() implies columns(#[trigger] cs@[i]@) <= inner by {
            assert(cs@.map_values(|l: String| l@)[i] == cs@[i]@);
        }
        assert forall|i: int| 0 <= i < ps@.len() implies columns(#[trigger] ps@[i]@) <= inner by {
            assert(ps@.map_values(|l: String| l@)[i] == ps@[i]@);
        }
    }
    let mut out = frame_all(&ps, "╭─", '─', "─╮", inner);
    let mut mid = frame_all(&cs, "│ ", ' ', " │", inner);
    let mut bottom = frame_all(&ps, "├─", '─', "─╯", inner);
    let ghost a = out@;
    let ghost b = mid@;
    let ghost c = bottom@;
    out.append(&mut mid);
    out.append(&mut bottom);
    out.push(owned("╰─[y/n]: "));
    proof {
        assert(out@.map_values(|l: String| l@) =~= a.map_values(|l: String| l@) + b.map_values(
            |l: String| l@,
        ) + c.map_values(|l: String| l@) + seq!["╰─[y/n]: "@]);
    }
    out
}

/// The lines of the permission box, or `None` when a line of the wrapped
/// question would not fit inside it (the terminal interface stops there).
pub fn permission_box_checked(prompt: &str, content: &str, width: usize) -> (r: Option<Vec<String>>)
    requires
        width >= 4,
    ensures
        box_fits(prompt@, content@, width) ==> (r matches Some(ls) && ls@.map_values(|l: String| l@)
            == box_lines(prompt@, content@, width)),
        !box_fits(prompt@, content@, width) ==> r is None,
{
    let mcw = width - 4;
    let ps = wrap_text(prompt, mcw);
    let cs = wrap_text(content, mcw);
    let pw0 = text_columns(prompt);
    let pw = if pw0 > mcw {
        mcw
    } else {
        pw0
    };
    let cw = if cs.len() == 0 {
        mcw
    } else {
        widest(&cs)
    };
    let inner = if pw > cw {
        pw
    } else {
        cw
    };
    let mut i: usize = 0;
    while i < ps.len()
        invariant
            i <= ps@.len(),
            inner == box_inner(prompt@, content@, width),
            ps@.map_values(|l: String| l@) == wrapped(prompt@, mcw),
            mcw == content_width(width),
            forall|k: int| 0 <= k < i ==> columns(#[trigger] ps@[k]@) <= inner,
        decreases ps@.len() - i,
    {
        if text_columns(ps[i].as_str()) > inner {
            proof {
                assert(ps@.map_values(|l: String| l@)[i as int] == ps@[i as int]@);
            }
            return None;
        }
        i = i + 1;
    }
    proof {
        let pv = wrapped(prompt@, mcw);
        assert forall|k: int| 0 <= k < pv.len() implies columns(#[trigger] pv[k]) <= box_inner(
            prompt@,
            content@,
            width,
        ) by {
            assert(ps@.map_values(|l: String| l@)[k] == ps@[k]@);
        }
    }
    Some(permission_box(prompt, content, width))
}

/// No line is wider than the widest.
proof fn lemma_widest_bounds(ls: Seq<Seq<char>>)
    ensures
        forall|i: int| 0 <= i < ls.len() ==> columns(#[trigger] ls[i]) <= max_columns(ls),
    decreases ls.len(),
{
    if ls.len() > 0 {
        lemma_widest_bounds(ls.drop_last());
        assert forall|i: int| 0 <= i < ls.len() implies columns(#[trigger] ls[i]) <= max_columns(ls) by {
            if i < ls.len() - 1 {
                assert(ls.drop_last()[i] == ls[i]);
            }
        }
    }
}

/// The reasoning as the plain terminal shows it: wrapped two columns
/// narrower than the terminal, each line quoted with `> `.
pub open spec fn think_text(thinking: Seq<char>, width: usize) -> Seq<char> {
    "> "@ + crate::text::join_spec(wrapped(thinking, (width - 2) as usize), "\n> "@)
}

/// The reasoning quoted for the plain terminal `width` columns wide.
pub fn generate_think_lines(thinking: &str, width: usize) -> (r: String)
    requires
        width >= 2,
    ensures
        r@ == think_text(thinking@, width),
{
    let ls = wrap_text(thinking, width - 2);
    let joined = crate::text::join(&ls, "\n> ");
    concat2("> ", joined.as_str())
}

} // verus!
