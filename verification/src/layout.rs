//! Layout arithmetic of the chat screen: how many rows wrapped text takes,
//! how tall the input box is, and where the chat is scrolled to.
use vstd::prelude::*;
use crate::text::{lines, lines_spec};

verus! {

/// Rows a line of `count` columns takes when wrapped at `width` columns.
pub open spec fn line_rows(count: nat, width: nat) -> nat {
    if count <= width {
        1
    } else {
        ((count + width - 1) / width as int) as nat
    }
}

/// Rows all lines of the given widths take when wrapped at `width`.
pub open spec fn rows_of(counts: Seq<nat>, width: nat) -> nat
    decreases counts.len(),
{
    if counts.len() == 0 {
        0
    } else {
        rows_of(counts.drop_last(), width) + line_rows(counts.last(), width)
    }
}

/// The widths of the lines of a string, counted in characters.
pub open spec fn line_counts(s: Seq<char>) -> Seq<nat> {
    lines_spec(s).map_values(|l: Seq<char>| l.len())
}

/// A line wider than zero columns can be wrapped only at a width above zero.
pub open spec fn wrappable(counts: Seq<nat>, width: nat) -> bool {
    width > 0 || forall|i: int| 0 <= i < counts.len() ==> counts[i] == 0
}

/// The rows of one line; at width zero only an empty line can be wrapped.
fn line_rows_exec(count: usize, width: usize) -> (r: usize)
    requires
        width > 0 || count == 0,
    ensures
        r == line_rows(count as nat, width as nat),
{
    if count <= width {
        1
    } else {
        let q = count / width;
        let r = if count % width == 0 {
            q
        } else {
            assert(q < usize::MAX) by (nonlinear_arith)
                requires
                    width > 0,
                    q == count / width,
                    count % width != 0,
                    count <= usize::MAX,
            ;
            q + 1
        };
        proof {
            let c = count as int;
            let w = width as int;
            assert(c == w * (c / w) + c % w) by (nonlinear_arith)
                requires
                    w > 0,
            ;
            assert((c + w - 1) / w == if c % w == 0 {
                c / w
            } else {
                c / w + 1
            }) by (nonlinear_arith)
                requires
                    w > 0,
                    c == w * (c / w) + c % w,
                    0 <= c % w < w,
            ;
        }
        r
    }
}

/// Rows all lines of the given widths take when wrapped at `width`.
pub fn wrapped_text_height(line_widths: &Vec<usize>, width: usize) -> (r: usize)
    requires
        wrappable(line_widths@.map_values(|c: usize| c as nat), width as nat),
        rows_of(line_widths@.map_values(|c: usize| c as nat), width as nat) <= usize::MAX,
    ensures
        r == rows_of(line_widths@.map_values(|c: usize| c as nat), width as nat),
{
    let ghost cs = line_widths@.map_values(|c: usize| c as nat);
    let mut height: usize = 0;
    let mut i: usize = 0;
    while i < line_widths.len()
        invariant
            cs == line_widths@.map_values(|c: usize| c as nat),
            wrappable(cs, width as nat),
            rows_of(cs, width as nat) <= usize::MAX,
            i <= line_widths.len(),
            height == rows_of(cs.take(i as int), width as nat),
        decreases line_widths.len() - i,
    {
        proof {
            assert(cs.take(i + 1).drop_last() =~= cs.take(i as int));
            lemma_rows_prefix(cs, i + 1, width as nat);
            assert(cs[i as int] == line_widths@[i as int]);
        }
        let rows = line_rows_exec(line_widths[i], width);
        height = height + rows;
        i = i + 1;
    }
    assert(cs.take(line_widths.len() as int) =~= cs);
    height
}

/// The rows of a prefix are at most the rows of the whole.
proof fn lemma_rows_prefix(cs: Seq<nat>, k: int, width: nat)
    requires
        0 <= k <= cs.len(),
    ensures
        rows_of(cs.take(k), width) <= rows_of(cs, width),
    decreases cs.len() - k,
{
    if k < cs.len() {
        lemma_rows_prefix(cs, k + 1, width);
        assert(cs.take(k + 1).drop_last() =~= cs.take(k));
    } else {
        assert(cs.take(k) =~= cs);
    }
}

/// Rows the lines of `s` take when wrapped at `width`, counting characters.
pub fn wrapped_string_height(s: &str, width: usize) -> (r: usize)
    requires
        wrappable(line_counts(s@), width as nat),
        rows_of(line_counts(s@), width as nat) <= usize::MAX,
    ensures
        r == rows_of(line_counts(s@), width as nat),
{
    let ls = lines(s);
    let mut widths: Vec<usize> = Vec::new();
    let mut i: usize = 0;
    while i < ls.len()
        invariant
            ls@.map_values(|l: String| l@) == lines_spec(s@),
            i <= ls.len(),
            widths@.len() == i,
            forall|j: int| 0 <= j < i ==> widths@[j] == ls@[j]@.len(),
        decreases ls.len() - i,
    {
        widths.push(ls[i].as_str().unicode_len());
        i = i + 1;
    }
    proof {
        let wv = widths@.map_values(|c: usize| c as nat);
        assert(wv =~= line_counts(s@)) by {
            assert forall|j: int| 0 <= j < wv.len() implies #[trigger] wv[j] == line_counts(
                s@,
            )[j] by {
                assert(ls@.map_values(|l: String| l@)[j] == ls@[j]@);
            }
        }
    }
    wrapped_text_height(&widths, width)
}

/// Rows of the input box: each line takes at least one row, wrapped at the
/// terminal width, and the box is at least one row tall.
pub open spec fn input_rows(counts: Seq<nat>, width: nat) -> nat
    decreases counts.len(),
{
    if counts.len() == 0 {
        0
    } else {
        input_rows(counts.drop_last(), width) + ((if counts.last() == 0 {
            1
        } else {
            counts.last()
        } + width - 1) / width as int) as nat
    }
}

/// Height of the input box for lines of the given lengths in characters.
pub fn input_height(line_lengths: &Vec<usize>, width: usize) -> (r: usize)
    requires
        width > 0,
        input_rows(line_lengths@.map_values(|c: usize| c as nat), width as nat) <= usize::MAX,
    ensures
        r == if input_rows(line_lengths@.map_values(|c: usize| c as nat), width as nat) == 0 {
            1
        } else {
            input_rows(line_lengths@.map_values(|c: usize| c as nat), width as nat)
        },
{
    let ghost cs = line_lengths@.map_values(|c: usize| c as nat);
    let mut total: usize = 0;
    let mut i: usize = 0;
    while i < line_lengths.len()
        invariant
            cs == line_lengths@.map_values(|c: usize| c as nat),
            width > 0,
            input_rows(cs, width as nat) <= usize::MAX,
            i <= line_lengths.len(),
            total == input_rows(cs.take(i as int), width as nat),
        decreases line_lengths.len() - i,
    {
        proof {
            assert(cs.take(i + 1).drop_last() =~= cs.take(i as int));
            lemma_input_rows_prefix(cs, i + 1, width as nat);
            assert(cs[i as int] == line_lengths@[i as int]);
        }
        let len = if line_lengths[i] == 0 {
            1
        } else {
            line_lengths[i]
        };
        let q = len / width;
        let rows = if len % width == 0 {
            q
        } else {
            assert(q < usize::MAX) by (nonlinear_arith)
                requires
                    width > 0,
                    q == len / width,
                    len % width != 0,
                    len <= usize::MAX,
            ;
            q + 1
        };
        proof {
            let c = len as int;
            let w = width as int;
            assert(c == w * (c / w) + c % w) by (nonlinear_arith)
                requires
                    w > 0,
            ;
            assert((c + w - 1) / w == if c % w == 0 {
                c / w
            } else {
                c / w + 1
            }) by (nonlinear_arith)
                requires
                    w > 0,
                    c == w * (c / w) + c % w,
                    0 <= c % w < w,
            ;
        }
        total = total + rows;
        i = i + 1;
    }
    assert(cs.take(line_lengths.len() as int) =~= cs);
    if total == 0 {
        1
    } else {
        total
    }
}

proof fn lemma_input_rows_prefix(cs: Seq<nat>, k: int, width: nat)
    requires
        0 <= k <= cs.len(),
    ensures
        input_rows(cs.take(k), width) <= input_rows(cs, width),
    decreases cs.len() - k,
{
    if k < cs.len() {
        lemma_input_rows_prefix(cs, k + 1, width);
        assert(cs.take(k + 1).drop_last() =~= cs.take(k));
    } else {
        assert(cs.take(k) =~= cs);
    }
}

/// Where the chat is scrolled to, and whether it follows new content.
pub struct ScrollState {
    pub offset: usize,
    pub auto_scroll: bool,
    /// The largest offset, as last computed.
    pub max_scroll: usize,
}

/// The largest offset for content of `content` rows in a viewport of `viewport` rows.
pub open spec fn max_offset(content: nat, viewport: nat) -> nat {
    if content > viewport {
        (content - viewport) as nat
    } else {
        0
    }
}

/// The scroll state is settled: within range, and following new content
/// exactly when it shows the last row.
pub open spec fn settled(s: ScrollState) -> bool {
    &&& s.offset <= s.max_scroll
    &&& s.auto_scroll <==> s.offset == s.max_scroll
}

/// The total rows of the chat: rendered messages, the message being
/// streamed, partial tool output and a pending permission prompt.
pub fn content_height(rendered: usize, partial: usize, tool_output: usize, permission: usize) -> (r:
    usize)
    requires
        rendered + partial + tool_output + permission <= usize::MAX,
    ensures
        r == rendered + partial + tool_output + permission,
{
    rendered + partial + tool_output + permission
}

impl ScrollState {
    /// The state of a fresh chat: at the top, following new content.
    pub fn new() -> (r: ScrollState)
        ensures
            r.offset == 0,
            r.auto_scroll,
            r.max_scroll == 0,
            settled(r),
    {
        ScrollState { offset: 0, auto_scroll: true, max_scroll: 0 }
    }

    /// Recomputes the largest offset for the content and viewport heights.
    /// When following, or when scrolled past the end, the view snaps to the
    /// last row and follows.
    pub fn recalculate(&mut self, content: usize, viewport: usize)
        ensures
            final(self).max_scroll == max_offset(content as nat, viewport as nat),
            (old(self).auto_scroll || old(self).offset >= final(self).max_scroll)
                ==> (final(self).offset == final(self).max_scroll && final(self).auto_scroll),
            !(old(self).auto_scroll || old(self).offset >= final(self).max_scroll)
                ==> (final(self).offset == old(self).offset && !final(self).auto_scroll),
            settled(*final(self)),
    {
        let max_scroll = content.saturating_sub(viewport);
        self.max_scroll = max_scroll;
        if self.auto_scroll {
            self.offset = max_scroll;
        }
        if self.offset >= max_scroll {
            self.offset = max_scroll;
            self.auto_scroll = true;
        }
    }

    /// Scrolls up two rows and stops following new content, unless the view
    /// is still at (or past) the last row.
    pub fn scroll_up(&mut self, content: usize, viewport: usize)
        ensures
            final(self).max_scroll == max_offset(content as nat, viewport as nat),
            ({
                let up: int = if old(self).offset >= 2 {
                    old(self).offset - 2
                } else {
                    0
                };
                if up >= final(self).max_scroll {
                    final(self).offset == final(self).max_scroll && final(self).auto_scroll
                } else {
                    final(self).offset == up && !final(self).auto_scroll
                }
            }),
            settled(*final(self)),
    {
        self.auto_scroll = false;
        self.offset = self.offset.saturating_sub(2);
        self.recalculate(content, viewport);
    }

    /// Scrolls down two rows; reaching the end follows new content again.
    pub fn scroll_down(&mut self, content: usize, viewport: usize)
        ensures
            final(self).max_scroll == max_offset(content as nat, viewport as nat),
            final(self).offset == if old(self).auto_scroll {
                final(self).max_scroll as int
            } else if old(self).offset + 2 >= final(self).max_scroll {
                final(self).max_scroll as int
            } else {
                old(self).offset + 2
            },
            settled(*final(self)),
    {
        self.offset = self.offset.saturating_add(2);
        self.recalculate(content, viewport);
    }
}

/// Recalculating twice with the same heights changes nothing the second time.
pub proof fn law_recalculate_idempotent(s: ScrollState, content: nat, viewport: nat)
    requires
        settled(s),
        s.max_scroll == max_offset(content, viewport),
    ensures
        (s.auto_scroll || s.offset >= s.max_scroll) ==> s.offset == s.max_scroll && s.auto_scroll,
        !(s.auto_scroll || s.offset >= s.max_scroll) ==> s.offset < s.max_scroll && !s.auto_scroll,
{
}

/// Each line takes at least one row, and a line takes more than one row
/// only when it is wider than the screen.
pub proof fn law_line_rows(count: nat, width: nat)
    requires
        width > 0,
    ensures
        line_rows(count, width) >= 1,
        line_rows(count, width) > 1 <==> count > width,
        line_rows(count, width) * width >= count,
{
    if count > width {
        let c = count as int;
        let w = width as int;
        assert((c + w - 1) / w >= 2) by (nonlinear_arith)
            requires
                c > w,
                w > 0,
        ;
        assert(((c + w - 1) / w) * w >= c) by (nonlinear_arith)
            requires
                w > 0,
                c >= 0,
        ;
    }
}

} // verus!
