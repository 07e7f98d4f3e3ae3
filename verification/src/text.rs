//! Text primitives with their mathematical meaning: equality, prefixes,
//! line splitting in the manner of `str::lines`, joining, trimming and
//! decimal rendering.
use vstd::prelude::*;

verus! {

// ---------------------------------------------------------------------
// Specifications
// ---------------------------------------------------------------------

/// `p` is a prefix of `s`.
pub open spec fn has_prefix(s: Seq<char>, p: Seq<char>) -> bool {
    p.len() <= s.len() && s.take(p.len() as int) == p
}

/// `p` is a suffix of `s`.
pub open spec fn has_suffix(s: Seq<char>, p: Seq<char>) -> bool {
    p.len() <= s.len() && s.skip(s.len() - p.len()) == p
}

/// Every character of `s` equals `c` (true of the empty sequence).
pub open spec fn all_chars_are(s: Seq<char>, c: char) -> bool {
    forall|i: int| 0 <= i < s.len() ==> s[i] == c
}

/// `c` occurs in `s`.
pub open spec fn has_char(s: Seq<char>, c: char) -> bool {
    exists|i: int| 0 <= i < s.len() && s[i] == c
}

/// A line ending `\r\n` leaves its carriage return on the line; this drops it.
pub open spec fn strip_cr(l: Seq<char>) -> Seq<char> {
    if l.len() > 0 && l.last() == '\r' {
        l.drop_last()
    } else {
        l
    }
}

/// The lines read so far and the unterminated line being read, after
/// reading `s` from left to right.
pub open spec fn lines_acc(s: Seq<char>) -> (Seq<Seq<char>>, Seq<char>)
    decreases s.len(),
{
    if s.len() == 0 {
        (Seq::empty(), Seq::empty())
    } else {
        let prev = lines_acc(s.drop_last());
        if s.last() == '\n' {
            (prev.0.push(strip_cr(prev.1)), Seq::empty())
        } else {
            (prev.0, prev.1.push(s.last()))
        }
    }
}

/// The lines of `s` as `str::lines` yields them: split at `\n`, a `\r`
/// right before a `\n` is dropped, and a final line ending adds no empty line.
pub open spec fn lines_spec(s: Seq<char>) -> Seq<Seq<char>> {
    let acc = lines_acc(s);
    if acc.1.len() == 0 {
        acc.0
    } else {
        acc.0.push(acc.1)
    }
}

/// The parts of `parts` with `sep` between each two neighbours.
pub open spec fn join_spec(parts: Seq<Seq<char>>, sep: Seq<char>) -> Seq<char>
    decreases parts.len(),
{
    if parts.len() == 0 {
        Seq::empty()
    } else if parts.len() == 1 {
        parts[0]
    } else {
        join_spec(parts.drop_last(), sep) + sep + parts.last()
    }
}

/// The pieces read so far and the piece being read, after reading `s` from
/// left to right and cutting at every `sep`.
pub open spec fn split_acc(s: Seq<char>, sep: char) -> (Seq<Seq<char>>, Seq<char>)
    decreases s.len(),
{
    if s.len() == 0 {
        (Seq::empty(), Seq::empty())
    } else {
        let prev = split_acc(s.drop_last(), sep);
        if s.last() == sep {
            (prev.0.push(prev.1), Seq::empty())
        } else {
            (prev.0, prev.1.push(s.last()))
        }
    }
}

/// The pieces of `s` between the occurrences of `sep`, as `str::split`
/// yields them: one more piece than there are separators.
pub open spec fn split_spec(s: Seq<char>, sep: char) -> Seq<Seq<char>> {
    let acc = split_acc(s, sep);
    acc.0.push(acc.1)
}

/// The items of `s` with `sep` placed between each two neighbours.
pub open spec fn intersperse_spec<A>(s: Seq<A>, sep: A) -> Seq<A>
    decreases s.len(),
{
    if s.len() <= 1 {
        s
    } else {
        intersperse_spec(s.drop_last(), sep).push(sep).push(s.last())
    }
}

/// The characters that `char::is_whitespace` accepts (Unicode `White_Space`).
pub open spec fn is_space(c: char) -> bool {
    let u = c as u32;
    (0x9 <= u <= 0xd) || u == 0x20 || u == 0x85 || u == 0xa0 || u == 0x1680 || (0x2000 <= u
        <= 0x200a) || u == 0x2028 || u == 0x2029 || u == 0x202f || u == 0x205f || u == 0x3000
}

/// Number of leading whitespace characters.
pub open spec fn lead_space(s: Seq<char>) -> nat
    decreases s.len(),
{
    if s.len() > 0 && is_space(s[0]) {
        1 + lead_space(s.drop_first())
    } else {
        0
    }
}

/// Number of trailing whitespace characters.
pub open spec fn trail_space(s: Seq<char>) -> nat
    decreases s.len(),
{
    if s.len() > 0 && is_space(s.last()) {
        1 + trail_space(s.drop_last())
    } else {
        0
    }
}

/// `s` without leading and trailing whitespace, as `str::trim` gives it.
pub open spec fn trim_spec(s: Seq<char>) -> Seq<char> {
    let front = s.skip(lead_space(s) as int);
    front.take(front.len() - trail_space(front))
}

/// `s` without trailing whitespace, as `str::trim_end` gives it.
pub open spec fn trim_end_spec(s: Seq<char>) -> Seq<char> {
    s.take(s.len() - trail_space(s))
}

/// The decimal digit for `d < 10`.
pub open spec fn digit_char(d: nat) -> char {
    if d == 0 {
        '0'
    } else if d == 1 {
        '1'
    } else if d == 2 {
        '2'
    } else if d == 3 {
        '3'
    } else if d == 4 {
        '4'
    } else if d == 5 {
        '5'
    } else if d == 6 {
        '6'
    } else if d == 7 {
        '7'
    } else if d == 8 {
        '8'
    } else {
        '9'
    }
}

/// The decimal rendering of `n`, as `n.to_string()` gives it.
pub open spec fn decimal(n: nat) -> Seq<char>
    decreases n,
{
    if n < 10 {
        seq![digit_char(n)]
    } else {
        decimal(n / 10).push(digit_char(n % 10))
    }
}

/// `a` sorts strictly before `b` in the order of `str`'s `Ord`: character by
/// character by scalar value, a proper prefix first.
pub open spec fn lex_lt(a: Seq<char>, b: Seq<char>) -> bool
    decreases a.len(),
{
    if b.len() == 0 {
        false
    } else if a.len() == 0 {
        true
    } else if a[0] != b[0] {
        (a[0] as int) < (b[0] as int)
    } else {
        lex_lt(a.drop_first(), b.drop_first())
    }
}

// ---------------------------------------------------------------------
// Lemmas about the order of strings
// ---------------------------------------------------------------------

/// No string sorts before itself.
pub proof fn lemma_lex_irreflexive(a: Seq<char>)
    ensures
        !lex_lt(a, a),
    decreases a.len(),
{
    if a.len() > 0 {
        lemma_lex_irreflexive(a.drop_first());
    }
}

/// The order of strings is transitive.
pub proof fn lemma_lex_transitive(a: Seq<char>, b: Seq<char>, c: Seq<char>)
    requires
        lex_lt(a, b),
        lex_lt(b, c),
    ensures
        lex_lt(a, c),
    decreases a.len(),
{
    if a.len() > 0 && a[0] == b[0] && b[0] == c[0] {
        lemma_lex_transitive(a.drop_first(), b.drop_first(), c.drop_first());
    }
}

/// Of two different strings, one sorts before the other.
pub proof fn lemma_lex_total(a: Seq<char>, b: Seq<char>)
    ensures
        a == b || lex_lt(a, b) || lex_lt(b, a),
    decreases a.len(),
{
    if a.len() > 0 && b.len() > 0 {
        if a[0] == b[0] {
            lemma_lex_total(a.drop_first(), b.drop_first());
            if a.drop_first() == b.drop_first() {
                assert(a =~= seq![a[0]] + a.drop_first());
                assert(b =~= seq![b[0]] + b.drop_first());
            }
        } else {
            assert((a[0] as int) != (b[0] as int));
        }
    } else if a.len() == 0 && b.len() == 0 {
        assert(a =~= b);
    }
}

// ---------------------------------------------------------------------
// Lemmas about lines and joins
// ---------------------------------------------------------------------

/// Reading `a` and then `b`, when `a` ends with a line ending, reads the lines
/// of `a` followed by what reading `b` alone gives.
pub proof fn lemma_lines_acc_append(a: Seq<char>, b: Seq<char>)
    requires
        lines_acc(a).1.len() == 0,
    ensures
        lines_acc(a + b).0 == lines_acc(a).0 + lines_acc(b).0,
        lines_acc(a + b).1 == lines_acc(b).1,
    decreases b.len(),
{
    if b.len() == 0 {
        assert(a + b =~= a);
    } else {
        lemma_lines_acc_append(a, b.drop_last());
        assert((a + b).drop_last() =~= a + b.drop_last());
        assert((a + b).last() == b.last());
    }
}

/// A piece without line endings is read as the unterminated line itself.
pub proof fn lemma_lines_acc_plain(s: Seq<char>)
    requires
        !has_char(s, '\n'),
    ensures
        lines_acc(s).0 == Seq::<Seq<char>>::empty(),
        lines_acc(s).1 == s,
    decreases s.len(),
{
    if s.len() > 0 {
        assert(!has_char(s.drop_last(), '\n')) by {
            if has_char(s.drop_last(), '\n') {
                let i = choose|i: int| 0 <= i < s.drop_last().len() && s.drop_last()[i] == '\n';
                assert(s[i] == '\n');
            }
        }
        lemma_lines_acc_plain(s.drop_last());
        assert(s.last() != '\n') by {
            if s.last() == '\n' {
                assert(s[s.len() - 1] == '\n');
            }
        }
        assert(s.drop_last().push(s.last()) =~= s);
    }
}

/// The lines of parts joined by `\n`: every part but the last loses a
/// trailing carriage return; the last part is kept when it is not empty.
pub open spec fn lines_of_parts(parts: Seq<Seq<char>>) -> Seq<Seq<char>> {
    if parts.len() == 0 {
        Seq::empty()
    } else {
        Seq::new((parts.len() - 1) as nat, |i: int| strip_cr(parts[i])) + if parts.last().len()
            == 0 {
            Seq::<Seq<char>>::empty()
        } else {
            seq![parts.last()]
        }
    }
}

/// No part holds a line ending.
pub open spec fn parts_single_line(parts: Seq<Seq<char>>) -> bool {
    forall|i: int| 0 <= i < parts.len() ==> !has_char(#[trigger] parts[i], '\n')
}

/// What reading parts joined by `\n` leaves: the completed lines and the
/// last part, which is still unterminated.
pub proof fn lemma_lines_acc_join(parts: Seq<Seq<char>>)
    requires
        parts.len() > 0,
        parts_single_line(parts),
    ensures
        lines_acc(join_spec(parts, seq!['\n'])).0 == Seq::new(
            (parts.len() - 1) as nat,
            |i: int| strip_cr(parts[i]),
        ),
        lines_acc(join_spec(parts, seq!['\n'])).1 == parts.last(),
    decreases parts.len(),
{
    if parts.len() == 1 {
        assert(!has_char(parts[0], '\n'));
        lemma_lines_acc_plain(parts[0]);
        assert(Seq::new(0, |i: int| strip_cr(parts[i])) =~= Seq::<Seq<char>>::empty());
    } else {
        let init = parts.drop_last();
        assert(parts_single_line(init)) by {
            assert forall|i: int| 0 <= i < init.len() implies !has_char(#[trigger] init[i], '\n') by {
                assert(init[i] == parts[i]);
            }
        }
        lemma_lines_acc_join(init);
        let j = join_spec(init, seq!['\n']);
        let last = parts.last();
        assert(!has_char(last, '\n')) by {
            assert(last == parts[parts.len() - 1]);
        }
        assert(!has_char(init.last(), '\n')) by {
            assert(init.last() == init[init.len() - 1]);
        }
        // reading `j` then the line ending
        assert(j + seq!['\n'] =~= j.push('\n'));
        assert(j.push('\n').drop_last() =~= j);
        let after_nl = lines_acc(j.push('\n'));
        assert(after_nl.1.len() == 0);
        lemma_lines_acc_plain(last);
        lemma_lines_acc_append(j.push('\n'), last);
        assert(join_spec(parts, seq!['\n']) =~= j.push('\n') + last);
        assert(lines_acc(join_spec(parts, seq!['\n'])).0 =~= Seq::new(
            (parts.len() - 1) as nat,
            |i: int| strip_cr(parts[i]),
        ));
    }
}

/// The lines of parts joined by `\n`.
pub proof fn lemma_lines_of_join(parts: Seq<Seq<char>>)
    requires
        parts_single_line(parts),
    ensures
        lines_spec(join_spec(parts, seq!['\n'])) == lines_of_parts(parts),
{
    if parts.len() == 0 {
        assert(lines_spec(Seq::empty()) =~= Seq::<Seq<char>>::empty());
    } else {
        lemma_lines_acc_join(parts);
        let ls = lines_spec(join_spec(parts, seq!['\n']));
        assert(ls =~= lines_of_parts(parts));
    }
}

/// Interspersing keeps every item and adds only the separator.
pub proof fn lemma_intersperse_items<A>(s: Seq<A>, sep: A, p: spec_fn(A) -> bool)
    requires
        forall|i: int| 0 <= i < s.len() ==> p(#[trigger] s[i]),
        p(sep),
    ensures
        forall|i: int|
            0 <= i < intersperse_spec(s, sep).len() ==> p(#[trigger] intersperse_spec(s, sep)[i]),
        s.len() > 0 ==> intersperse_spec(s, sep).len() > 0 && intersperse_spec(s, sep).last()
            == s.last(),
    decreases s.len(),
{
    if s.len() > 1 {
        let init = s.drop_last();
        assert forall|i: int| 0 <= i < init.len() implies p(#[trigger] init[i]) by {
            assert(init[i] == s[i]);
        }
        lemma_intersperse_items(init, sep, p);
        let t = intersperse_spec(init, sep);
        assert forall|i: int|
            0 <= i < intersperse_spec(s, sep).len() implies p(
            #[trigger] intersperse_spec(s, sep)[i],
        ) by {
            if i < t.len() {
                assert(intersperse_spec(s, sep)[i] == t[i]);
            } else if i == t.len() {
                assert(intersperse_spec(s, sep)[i] == sep);
            } else {
                assert(intersperse_spec(s, sep)[i] == s.last());
                assert(s.last() == s[s.len() - 1]);
            }
        }
    }
}

/// Removing the separator from an interspersed sequence gives it back,
/// when the separator is not among its items (`f` keeps exactly the items
/// that differ from the separator).
pub proof fn lemma_filter_intersperse<A>(s: Seq<A>, sep: A, f: spec_fn(A) -> bool)
    requires
        forall|x: A| #[trigger] f(x) == (x != sep),
        forall|i: int| 0 <= i < s.len() ==> s[i] != sep,
    ensures
        intersperse_spec(s, sep).filter(f) == s,
    decreases s.len(),
{
    reveal(Seq::filter);
    if s.len() == 0 {
        assert(s.filter(f) =~= s);
    } else if s.len() == 1 {
        assert(s.drop_last() =~= Seq::<A>::empty());
        assert(Seq::<A>::empty().filter(f) =~= Seq::<A>::empty());
        assert(f(s[0]));
        assert(s.filter(f) =~= Seq::<A>::empty().push(s[0]));
        assert(Seq::<A>::empty().push(s[0]) =~= s);
    } else {
        let init = s.drop_last();
        lemma_filter_intersperse(init, sep, f);
        let t = intersperse_spec(init, sep);
        let u = t.push(sep);
        let w = u.push(s.last());
        assert(w.drop_last() =~= u);
        assert(u.drop_last() =~= t);
        assert(s.last() == s[s.len() - 1]);
        assert(!f(sep));
        assert(f(s.last()));
        assert(u.filter(f) =~= t.filter(f));
        assert(w.filter(f) =~= u.filter(f).push(s.last()));
        assert(init.push(s.last()) =~= s);
    }
}

/// No line that `str::lines` yields holds a line ending.
pub proof fn lemma_lines_single(s: Seq<char>)
    ensures
        parts_single_line(lines_spec(s)),
        !has_char(lines_acc(s).1, '\n'),
{
    lemma_lines_acc_single(s);
}

proof fn lemma_lines_acc_single(s: Seq<char>)
    ensures
        parts_single_line(lines_acc(s).0),
        !has_char(lines_acc(s).1, '\n'),
        parts_single_line(lines_spec(s)),
    decreases s.len(),
{
    if s.len() > 0 {
        lemma_lines_acc_single(s.drop_last());
        let prev = lines_acc(s.drop_last());
        if s.last() == '\n' {
            let l = strip_cr(prev.1);
            assert(!has_char(l, '\n')) by {
                if has_char(l, '\n') {
                    let i = choose|i: int| 0 <= i < l.len() && l[i] == '\n';
                    assert(prev.1[i] == '\n');
                }
            }
            assert(parts_single_line(prev.0.push(l))) by {
                assert forall|i: int| 0 <= i < prev.0.push(l).len() implies !has_char(
                    #[trigger] prev.0.push(l)[i],
                    '\n',
                ) by {
                    if i < prev.0.len() {
                        assert(prev.0.push(l)[i] == prev.0[i]);
                    }
                }
            }
            assert(lines_acc(s).1 =~= Seq::<char>::empty());
        } else {
            let c = prev.1.push(s.last());
            assert(!has_char(c, '\n')) by {
                if has_char(c, '\n') {
                    let i = choose|i: int| 0 <= i < c.len() && c[i] == '\n';
                    if i < prev.1.len() {
                        assert(prev.1[i] == '\n');
                    }
                }
            }
        }
    }
    let acc = lines_acc(s);
    if acc.1.len() > 0 {
        assert forall|i: int| 0 <= i < acc.0.push(acc.1).len() implies !has_char(
            #[trigger] acc.0.push(acc.1)[i],
            '\n',
        ) by {
            if i < acc.0.len() {
                assert(acc.0.push(acc.1)[i] == acc.0[i]);
            }
        }
    }
}

// ---------------------------------------------------------------------
// Executable helpers
// ---------------------------------------------------------------------

/// Appends one character. Trusted: `String::push` adds `c` at the end.
#[verifier::external_body]
pub(crate) fn push_char(s: &mut String, c: char)
    ensures
        final(s)@ == old(s)@.push(c),
{
    s.push(c);
}

/// A fresh `String` holding the characters of `s`.
pub fn owned(s: &str) -> (r: String)
    ensures
        r@ == s@,
{
    String::from_str(s)
}

/// Character-wise equality of two string slices.
pub fn str_eq(a: &str, b: &str) -> (r: bool)
    ensures
        r == (a@ == b@),
{
    let n = a.unicode_len();
    let m = b.unicode_len();
    if n != m {
        return false;
    }
    let mut i: usize = 0;
    while i < n
        invariant
            n == a@.len(),
            m == b@.len(),
            n == m,
            i <= n,
            forall|j: int| 0 <= j < i ==> a@[j] == b@[j],
        decreases n - i,
    {
        if a.get_char(i) != b.get_char(i) {
            return false;
        }
        i = i + 1;
    }
    assert(a@ =~= b@);
    true
}

/// Whether `s` starts with `p`.
pub fn starts_with(s: &str, p: &str) -> (r: bool)
    ensures
        r == has_prefix(s@, p@),
{
    let n = s.unicode_len();
    let m = p.unicode_len();
    if m > n {
        return false;
    }
    let mut i: usize = 0;
    while i < m
        invariant
            n == s@.len(),
            m == p@.len(),
            m <= n,
            i <= m,
            forall|j: int| 0 <= j < i ==> s@[j] == p@[j],
        decreases m - i,
    {
        if s.get_char(i) != p.get_char(i) {
            assert(s@.take(m as int)[i as int] != p@[i as int]);
            return false;
        }
        i = i + 1;
    }
    assert(s@.take(m as int) =~= p@);
    true
}

/// Whether `s` ends with `p`.
pub fn ends_with(s: &str, p: &str) -> (r: bool)
    ensures
        r == has_suffix(s@, p@),
{
    let n = s.unicode_len();
    let m = p.unicode_len();
    if m > n {
        return false;
    }
    let off = n - m;
    let mut i: usize = 0;
    while i < m
        invariant
            n == s@.len(),
            m == p@.len(),
            m <= n,
            off == n - m,
            i <= m,
            forall|j: int| 0 <= j < i ==> s@[off + j] == p@[j],
        decreases m - i,
    {
        if s.get_char(off + i) != p.get_char(i) {
            assert(s@.skip(off as int)[i as int] != p@[i as int]);
            return false;
        }
        i = i + 1;
    }
    assert(s@.skip(off as int) =~= p@);
    true
}

/// Whether `c` occurs in `s`.
pub fn contains_char(s: &str, c: char) -> (r: bool)
    ensures
        r == has_char(s@, c),
{
    let n = s.unicode_len();
    let mut i: usize = 0;
    while i < n
        invariant
            n == s@.len(),
            i <= n,
            forall|j: int| 0 <= j < i ==> s@[j] != c,
        decreases n - i,
    {
        if s.get_char(i) == c {
            return true;
        }
        i = i + 1;
    }
    false
}

/// Whether every character of `s` is `c`.
pub fn every_char_is(s: &str, c: char) -> (r: bool)
    ensures
        r == all_chars_are(s@, c),
{
    let n = s.unicode_len();
    let mut i: usize = 0;
    while i < n
        invariant
            n == s@.len(),
            i <= n,
            forall|j: int| 0 <= j < i ==> s@[j] == c,
        decreases n - i,
    {
        if s.get_char(i) != c {
            return false;
        }
        i = i + 1;
    }
    true
}

/// The number of characters of `s`.
pub fn char_count(s: &str) -> (r: usize)
    ensures
        r == s@.len(),
{
    s.unicode_len()
}

/// The characters of `s` from index `from` (inclusive) to `to` (exclusive).
pub fn slice_chars(s: &str, from: usize, to: usize) -> (r: String)
    requires
        from <= to <= s@.len(),
    ensures
        r@ == s@.subrange(from as int, to as int),
{
    String::from_str(s.substring_char(from, to))
}

/// The lines of `s`, as `str::lines` yields them.
pub fn lines(s: &str) -> (r: Vec<String>)
    ensures
        r@.map_values(|l: String| l@) == lines_spec(s@),
{
    let n = s.unicode_len();
    let mut done: Vec<String> = Vec::new();
    let mut cur = String::new();
    let mut i: usize = 0;
    while i < n
        invariant
            n == s@.len(),
            i <= n,
            done@.map_values(|l: String| l@) == lines_acc(s@.take(i as int)).0,
            cur@ == lines_acc(s@.take(i as int)).1,
        decreases n - i,
    {
        let c = s.get_char(i);
        proof {
            assert(s@.take(i + 1).drop_last() =~= s@.take(i as int));
            assert(s@.take(i + 1).last() == c);
        }
        if c == '\n' {
            let k = cur.unicode_len();
            let line = if k > 0 && cur.as_str().get_char(k - 1) == '\r' {
                slice_chars(cur.as_str(), 0, k - 1)
            } else {
                cur
            };
            proof {
                if k > 0 && cur@.last() == '\r' {
                    assert(cur@.subrange(0, k - 1) =~= cur@.drop_last());
                }
            }
            done.push(line);
            cur = String::new();
            proof {
                assert(done@.map_values(|l: String| l@) =~= lines_acc(s@.take(i as int)).0.push(
                    line@,
                ));
            }
        } else {
            push_char(&mut cur, c);
        }
        i = i + 1;
    }
    assert(s@.take(n as int) =~= s@);
    if cur.unicode_len() > 0 {
        done.push(cur);
        proof {
            assert(done@.map_values(|l: String| l@) =~= lines_acc(s@).0.push(cur@));
        }
    }
    done
}

/// The pieces of `s` between the occurrences of `sep`, as `str::split` yields them.
pub fn split_on(s: &str, sep: char) -> (r: Vec<String>)
    ensures
        r@.map_values(|l: String| l@) == split_spec(s@, sep),
{
    let n = s.unicode_len();
    let mut done: Vec<String> = Vec::new();
    let mut cur = String::new();
    let mut i: usize = 0;
    while i < n
        invariant
            n == s@.len(),
            i <= n,
            done@.map_values(|l: String| l@) == split_acc(s@.take(i as int), sep).0,
            cur@ == split_acc(s@.take(i as int), sep).1,
        decreases n - i,
    {
        let c = s.get_char(i);
        proof {
            assert(s@.take(i + 1).drop_last() =~= s@.take(i as int));
            assert(s@.take(i + 1).last() == c);
        }
        if c == sep {
            let ghost before = done@;
            done.push(cur);
            cur = String::new();
            proof {
                assert(done@.map_values(|l: String| l@) =~= before.map_values(|l: String| l@).push(
                    split_acc(s@.take(i as int), sep).1,
                ));
            }
        } else {
            push_char(&mut cur, c);
        }
        i = i + 1;
    }
    assert(s@.take(n as int) =~= s@);
    let ghost before = done@;
    done.push(cur);
    proof {
        assert(done@.map_values(|l: String| l@) =~= before.map_values(|l: String| l@).push(
            split_acc(s@, sep).1,
        ));
    }
    done
}

/// The parts joined with `sep` between each two neighbours.
pub fn join(parts: &Vec<String>, sep: &str) -> (r: String)
    ensures
        r@ == join_spec(parts@.map_values(|l: String| l@), sep@),
{
    let ghost views = parts@.map_values(|l: String| l@);
    let mut out = String::new();
    let mut i: usize = 0;
    while i < parts.len()
        invariant
            views == parts@.map_values(|l: String| l@),
            i <= parts.len(),
            out@ == join_spec(views.take(i as int), sep@),
        decreases parts.len() - i,
    {
        proof {
            assert(views.take(i + 1).drop_last() =~= views.take(i as int));
            assert(views.take(i + 1).last() == parts@[i as int]@);
        }
        if i == 0 {
            out = parts[i].clone();
            proof {
                assert(views.take(1).len() == 1);
            }
        } else {
            out.append(sep);
            out.append(parts[i].as_str());
        }
        i = i + 1;
    }
    assert(views.take(parts.len() as int) =~= views);
    out
}

/// `s` without leading and trailing whitespace, as `str::trim` gives it.
pub fn trim(s: &str) -> (r: String)
    ensures
        r@ == trim_spec(s@),
{
    let n = s.unicode_len();
    let mut a: usize = 0;
    assert(s@.skip(0) =~= s@);
    while a < n && is_space_exec(s.get_char(a))
        invariant
            n == s@.len(),
            a <= n,
            lead_space(s@) == a + lead_space(s@.skip(a as int)),
        decreases n - a,
    {
        proof {
            assert(s@.skip(a as int).drop_first() =~= s@.skip(a + 1));
        }
        a = a + 1;
    }
    proof {
        if a < n {
            assert(s@.skip(a as int)[0] == s@[a as int]);
        }
        assert(lead_space(s@.skip(a as int)) == 0);
    }
    let ghost front = s@.skip(a as int);
    let mut b: usize = n;
    assert(front.take(n - a) =~= front);
    while b > a && is_space_exec(s.get_char(b - 1))
        invariant
            n == s@.len(),
            a <= b <= n,
            front == s@.skip(a as int),
            trail_space(front) == (n - b) + trail_space(front.take(b - a)),
        decreases b,
    {
        proof {
            assert(front.take(b - a).drop_last() =~= front.take(b - a - 1));
            assert(front.take(b - a).last() == s@[b - 1]);
        }
        b = b - 1;
    }
    proof {
        if b > a {
            assert(front.take(b - a).last() == s@[b - 1]);
        }
        assert(trail_space(front.take(b - a)) == 0);
        assert(front.take(front.len() - trail_space(front)) =~= s@.subrange(a as int, b as int));
    }
    slice_chars(s, a, b)
}

/// `s` without trailing whitespace, as `str::trim_end` gives it.
pub fn trim_end(s: &str) -> (r: String)
    ensures
        r@ == trim_end_spec(s@),
{
    let n = s.unicode_len();
    let mut b: usize = n;
    assert(s@.take(n as int) =~= s@);
    while b > 0 && is_space_exec(s.get_char(b - 1))
        invariant
            n == s@.len(),
            b <= n,
            trail_space(s@) == (n - b) + trail_space(s@.take(b as int)),
        decreases b,
    {
        proof {
            assert(s@.take(b as int).drop_last() =~= s@.take(b - 1));
            assert(s@.take(b as int).last() == s@[b - 1]);
        }
        b = b - 1;
    }
    proof {
        if b > 0 {
            assert(s@.take(b as int).last() == s@[b - 1]);
        }
        assert(trail_space(s@.take(b as int)) == 0);
        assert(s@.take(b as int) =~= s@.subrange(0, b as int));
    }
    slice_chars(s, 0, b)
}

/// Whether `c` is a whitespace character.
pub fn is_space_exec(c: char) -> (r: bool)
    ensures
        r == is_space(c),
{
    let u = c as u32;
    (0x9 <= u && u <= 0xd) || u == 0x20 || u == 0x85 || u == 0xa0 || u == 0x1680 || (0x2000 <= u
        && u <= 0x200a) || u == 0x2028 || u == 0x2029 || u == 0x202f || u == 0x205f || u == 0x3000
}

/// The decimal digit for `d`.
fn digit_exec(d: u64) -> (c: char)
    requires
        d < 10,
    ensures
        c == digit_char(d as nat),
{
    if d == 0 {
        '0'
    } else if d == 1 {
        '1'
    } else if d == 2 {
        '2'
    } else if d == 3 {
        '3'
    } else if d == 4 {
        '4'
    } else if d == 5 {
        '5'
    } else if d == 6 {
        '6'
    } else if d == 7 {
        '7'
    } else if d == 8 {
        '8'
    } else {
        '9'
    }
}

/// The decimal rendering of `n`.
pub fn decimal_string(n: u64) -> (r: String)
    ensures
        r@ == decimal(n as nat),
    decreases n,
{
    if n < 10 {
        let mut s = String::new();
        push_char(&mut s, digit_exec(n));
        assert(s@ =~= seq![digit_char(n as nat)]);
        s
    } else {
        let mut s = decimal_string(n / 10);
        push_char(&mut s, digit_exec(n % 10));
        s
    }
}

/// Whether `a` sorts strictly before `b`, as `a < b` on `str` decides it.
pub fn str_lt(a: &str, b: &str) -> (r: bool)
    ensures
        r == lex_lt(a@, b@),
{
    let n = a.unicode_len();
    let m = b.unicode_len();
    let mut i: usize = 0;
    assert(a@.skip(0) =~= a@);
    assert(b@.skip(0) =~= b@);
    while i < n && i < m
        invariant
            n == a@.len(),
            m == b@.len(),
            i <= n,
            i <= m,
            lex_lt(a@, b@) == lex_lt(a@.skip(i as int), b@.skip(i as int)),
        decreases n - i,
    {
        let c = a.get_char(i);
        let d = b.get_char(i);
        assert(a@.skip(i as int)[0] == c);
        assert(b@.skip(i as int)[0] == d);
        if c != d {
            return (c as u32) < (d as u32);
        }
        assert(a@.skip(i as int).drop_first() =~= a@.skip(i + 1));
        assert(b@.skip(i as int).drop_first() =~= b@.skip(i + 1));
        i = i + 1;
    }
    i < m
}

/// The concatenation of two strings.
pub fn concat2(a: &str, b: &str) -> (r: String)
    ensures
        r@ == a@ + b@,
{
    let mut s = String::from_str(a);
    s.append(b);
    s
}

} // verus!
