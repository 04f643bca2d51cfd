//! Characters, lines and re-indentation of source text.

use vstd::prelude::*;

verus! {

/// What is taken on trust of `String::push`: it appends the character `c`
/// and leaves the characters before it as they were.
pub assume_specification[ String::push ](s: &mut String, c: char)
    ensures
        final(s)@ == old(s)@.push(c),
;

/// The code points that carry the Unicode `White_Space` property.
pub open spec fn is_whitespace(c: char) -> bool {
    let u = c as u32;
    ||| 0x09 <= u <= 0x0D
    ||| u == 0x20
    ||| u == 0x85
    ||| u == 0xA0
    ||| u == 0x1680
    ||| 0x2000 <= u <= 0x200A
    ||| u == 0x2028
    ||| u == 0x2029
    ||| u == 0x202F
    ||| u == 0x205F
    ||| u == 0x3000
}

/// A line is blank when trimming white space leaves nothing of it.
pub open spec fn is_blank(line: Seq<char>) -> bool {
    forall|i: int| 0 <= i < line.len() ==> is_whitespace(#[trigger] line[i])
}

/// Index of the first line feed in `s`, or the length of `s` if it holds none.
pub open spec fn first_newline(s: Seq<char>) -> nat
    decreases s.len(),
{
    if s.len() == 0 || s[0] == '\n' {
        0
    } else {
        1 + first_newline(s.drop_first())
    }
}

/// `line` without the carriage return that ends it, if one does.
pub open spec fn strip_cr(line: Seq<char>) -> Seq<char> {
    if line.len() > 0 && line.last() == '\r' {
        line.drop_last()
    } else {
        line
    }
}

/// The lines of `s`. A line ends at a line feed, or at a carriage return
/// directly followed by one; neither belongs to the line. The last line needs
/// no line ending, and a text that ends in one has no empty line after it.
pub open spec fn lines(s: Seq<char>) -> Seq<Seq<char>>
    decreases s.len(),
{
    if s.len() == 0 {
        Seq::empty()
    } else {
        let k = first_newline(s) as int;
        if k >= s.len() {
            seq![s]
        } else {
            seq![strip_cr(s.take(k))] + lines(s.skip(k + 1))
        }
    }
}

/// `count` copies of `c`.
pub open spec fn repeated(c: char, count: nat) -> Seq<char> {
    Seq::new(count, |i: int| c)
}

/// A blank line becomes empty; any other line gets `spaces` spaces in front.
pub open spec fn indent_line(line: Seq<char>, spaces: nat) -> Seq<char> {
    if is_blank(line) {
        Seq::empty()
    } else {
        repeated(' ', spaces) + line
    }
}

/// Each of `ls` re-indented by `indent_line`.
pub open spec fn indent_lines(ls: Seq<Seq<char>>, spaces: nat) -> Seq<Seq<char>> {
    ls.map_values(|l: Seq<char>| indent_line(l, spaces))
}

/// The lines `ls` in order, each with a line feed in front of it.
pub open spec fn join_tail(ls: Seq<Seq<char>>) -> Seq<char>
    decreases ls.len(),
{
    if ls.len() == 0 {
        Seq::empty()
    } else {
        seq!['\n'] + ls[0] + join_tail(ls.drop_first())
    }
}

/// The lines `ls` in order, with a line feed between neighbours.
pub open spec fn join_lines(ls: Seq<Seq<char>>) -> Seq<char> {
    if ls.len() == 0 {
        Seq::empty()
    } else {
        ls[0] + join_tail(ls.drop_first())
    }
}

/// The text `s` with every line re-indented and the lines joined again.
pub open spec fn indent_text(s: Seq<char>, spaces: nat) -> Seq<char> {
    join_lines(indent_lines(lines(s), spaces))
}

/// `first_newline` is the one index below which no line feed stands and
/// which holds a line feed itself unless it is the length.
pub proof fn lemma_first_newline(s: Seq<char>, k: int)
    requires
        0 <= k <= s.len(),
        forall|j: int| 0 <= j < k ==> s[j] != '\n',
        k < s.len() ==> s[k] == '\n',
    ensures
        first_newline(s) == k,
    decreases s.len(),
{
    if k > 0 {
        let t = s.drop_first();
        assert forall|j: int| 0 <= j < k - 1 implies t[j] != '\n' by {
            assert(t[j] == s[j + 1]);
        }
        lemma_first_newline(t, k - 1);
    }
}

/// What `lines` yields for a non-empty text: its first line, then the lines
/// of what follows that line's ending.
proof fn lemma_lines_step(s: Seq<char>, from: int, end: int)
    requires
        0 <= from < s.len(),
        from <= end <= s.len(),
        forall|j: int| from <= j < end ==> s[j] != '\n',
        end < s.len() ==> s[end] == '\n',
    ensures
        end < s.len() ==> lines(s.skip(from)) == seq![strip_cr(s.subrange(from, end))] + lines(
            s.skip(end + 1),
        ),
        end == s.len() ==> lines(s.skip(from)) == seq![s.subrange(from, end)],
{
    let rest = s.skip(from);
    lemma_first_newline(rest, end - from);
    if end < s.len() {
        assert(rest.take(end - from) =~= s.subrange(from, end));
        assert(rest.skip(end - from + 1) =~= s.skip(end + 1));
    } else {
        assert(rest =~= s.subrange(from, end));
    }
}

/// Joining after one more line in front.
proof fn lemma_join_cons(first: Seq<char>, rest: Seq<Seq<char>>)
    ensures
        join_tail(seq![first] + rest) == seq!['\n'] + first + join_tail(rest),
        join_lines(seq![first] + rest) == first + join_tail(rest),
{
    let all = seq![first] + rest;
    assert(all[0] == first);
    assert(all.drop_first() =~= rest);
}

/// Re-indenting line by line after one more line in front.
proof fn lemma_indent_cons(first: Seq<char>, rest: Seq<Seq<char>>, spaces: nat)
    ensures
        indent_lines(seq![first] + rest, spaces) == seq![indent_line(first, spaces)]
            + indent_lines(rest, spaces),
{
    assert(indent_lines(seq![first] + rest, spaces) =~= seq![indent_line(first, spaces)]
        + indent_lines(rest, spaces));
}

/// One round of re-indenting: the line that starts at `from` and stops at
/// `end`, and what its re-indented form contributes to the remaining text.
proof fn lemma_indent_step(s: Seq<char>, from: int, end: int, spaces: nat)
    requires
        0 <= from < s.len(),
        from <= end <= s.len(),
        forall|j: int| from <= j < end ==> s[j] != '\n',
        end < s.len() ==> s[end] == '\n',
    ensures
        ({
            let stop = if end < s.len() && end > from && s[end - 1] == '\r' {
                end - 1
            } else {
                end
            };
            let next = if end < s.len() {
                end + 1
            } else {
                end
            };
            let first = indent_line(s.subrange(from, stop), spaces);
            let rest = indent_lines(lines(s.skip(next)), spaces);
            let all = indent_lines(lines(s.skip(from)), spaces);
            &&& remaining_text(all, true) == seq!['\n'] + first + join_tail(rest)
            &&& remaining_text(all, false) == first + join_tail(rest)
        }),
{
    let stop = if end < s.len() && end > from && s[end - 1] == '\r' {
        end - 1
    } else {
        end
    };
    let next = if end < s.len() {
        end + 1
    } else {
        end
    };
    let line = s.subrange(from, stop);
    let rest = lines(s.skip(next));
    lemma_lines_step(s, from, end);
    let whole = s.subrange(from, end);
    if end < s.len() {
        if end > from && s[end - 1] == '\r' {
            assert(whole.last() == '\r');
            assert(whole.drop_last() =~= line);
        }
        assert(strip_cr(whole) == line);
    } else {
        assert(s.skip(next).len() == 0);
        assert(rest =~= Seq::empty());
        assert(seq![line] + rest =~= seq![line]);
    }
    assert(lines(s.skip(from)) == seq![line] + rest);
    lemma_indent_cons(line, rest, spaces);
    lemma_join_cons(indent_line(line, spaces), indent_lines(rest, spaces));
}

/// Every line of a text of white space alone is blank.
pub proof fn lemma_lines_of_blank(s: Seq<char>)
    requires
        is_blank(s),
    ensures
        forall|i: int| 0 <= i < lines(s).len() ==> is_blank(#[trigger] lines(s)[i]),
    decreases s.len(),
{
    if s.len() > 0 {
        let k = first_newline(s) as int;
        if k < s.len() {
            let first = strip_cr(s.take(k));
            let rest = s.skip(k + 1);
            assert forall|j: int| 0 <= j < first.len() implies is_whitespace(
                #[trigger] first[j],
            ) by {
                assert(first[j] == s[j]);
            }
            assert forall|j: int| 0 <= j < rest.len() implies is_whitespace(#[trigger] rest[j]) by {
                assert(rest[j] == s[j + k + 1]);
            }
            lemma_lines_of_blank(rest);
            assert forall|i: int| 0 <= i < lines(s).len() implies is_blank(
                #[trigger] lines(s)[i],
            ) by {
                if i > 0 {
                    assert(lines(s)[i] == lines(rest)[i - 1]);
                }
            }
        }
    }
}

/// Empty lines, each after a line feed, make a text of line feeds alone.
proof fn lemma_join_tail_of_empty_lines(ls: Seq<Seq<char>>)
    requires
        forall|i: int| 0 <= i < ls.len() ==> (#[trigger] ls[i]).len() == 0,
    ensures
        join_tail(ls) == repeated('\n', ls.len()),
    decreases ls.len(),
{
    if ls.len() > 0 {
        let rest = ls.drop_first();
        assert forall|i: int| 0 <= i < rest.len() implies (#[trigger] rest[i]).len() == 0 by {
            assert(rest[i] == ls[i + 1]);
        }
        lemma_join_tail_of_empty_lines(rest);
        assert(ls[0].len() == 0);
        assert(join_tail(ls) =~= repeated('\n', ls.len()));
    } else {
        assert(join_tail(ls) =~= repeated('\n', ls.len()));
    }
}

/// Code of white space alone adds nothing to a program but the line feeds
/// between its lines.
pub proof fn lemma_indent_of_blank(s: Seq<char>, spaces: nat)
    requires
        is_blank(s),
    ensures
        lines(s).len() == 0 ==> indent_text(s, spaces).len() == 0,
        lines(s).len() > 0 ==> indent_text(s, spaces) == repeated(
            '\n',
            (lines(s).len() - 1) as nat,
        ),
{
    lemma_lines_of_blank(s);
    let ls = indent_lines(lines(s), spaces);
    if ls.len() > 0 {
        let rest = ls.drop_first();
        assert(is_blank(lines(s)[0]));
        assert(ls[0].len() == 0);
        assert forall|i: int| 0 <= i < rest.len() implies (#[trigger] rest[i]).len() == 0 by {
            assert(rest[i] == ls[i + 1]);
            assert(is_blank(lines(s)[i + 1]));
        }
        lemma_join_tail_of_empty_lines(rest);
        assert(indent_text(s, spaces) =~= repeated('\n', (lines(s).len() - 1) as nat));
    }
}

/// Re-indenting keeps the number of lines and treats each line by itself: a
/// blank line becomes empty, and any other line stands unchanged behind the
/// spaces put in front of it.
pub proof fn lemma_indent_line_by_line(s: Seq<char>, spaces: nat)
    ensures
        indent_lines(lines(s), spaces).len() == lines(s).len(),
        forall|i: int|
            0 <= i < lines(s).len() && is_blank(lines(s)[i]) ==> (#[trigger] indent_lines(
                lines(s),
                spaces,
            )[i]).len() == 0,
        forall|i: int|
            0 <= i < lines(s).len() && !is_blank(lines(s)[i]) ==> {
                let line = #[trigger] indent_lines(lines(s), spaces)[i];
                &&& line.take(spaces as int) == repeated(' ', spaces)
                &&& line.skip(spaces as int) == lines(s)[i]
            },
{
    assert forall|i: int| 0 <= i < lines(s).len() && !is_blank(lines(s)[i]) implies {
        let line = #[trigger] indent_lines(lines(s), spaces)[i];
        &&& line.take(spaces as int) == repeated(' ', spaces)
        &&& line.skip(spaces as int) == lines(s)[i]
    } by {
        let line = repeated(' ', spaces) + lines(s)[i];
        assert(line.take(spaces as int) =~= repeated(' ', spaces));
        assert(line.skip(spaces as int) =~= lines(s)[i]);
    }
}

/// Tells whether `c` is a Unicode white-space character.
pub fn char_is_whitespace(c: char) -> (white: bool)
    ensures
        white == is_whitespace(c),
{
    let u: u32 = c as u32;
    (0x09 <= u && u <= 0x0D) || u == 0x20 || u == 0x85 || u == 0xA0 || u == 0x1680 || (0x2000 <= u
        && u <= 0x200A) || u == 0x2028 || u == 0x2029 || u == 0x202F || u == 0x205F || u == 0x3000
}

/// The characters of `s`, in order.
pub fn chars_of(s: &str) -> (chars: Vec<char>)
    ensures
        chars@ == s@,
{
    let mut chars: Vec<char> = Vec::new();
    for c in it: s.chars()
        invariant
            chars@ == it.seq().take(it.index() as int),
            it.seq() == s@,
    {
        chars.push(c);
    }
    chars
}

/// Tells whether `a` and `b` hold the same characters.
pub fn same_text(a: &str, b: &str) -> (same: bool)
    ensures
        same == (a@ == b@),
{
    let left = chars_of(a);
    let right = chars_of(b);
    if left.len() != right.len() {
        return false;
    }
    let mut i: usize = 0;
    while i < left.len()
        invariant
            left.len() == right.len(),
            left@ == a@,
            right@ == b@,
            i <= left.len(),
            forall|j: int| 0 <= j < i ==> left@[j] == right@[j],
        decreases left.len() - i,
    {
        if left[i] != right[i] {
            return false;
        }
        i += 1;
    }
    assert(left@ =~= right@);
    true
}

/// Where the line that starts at `from` stops: at its line feed, or at the end.
fn line_end(chars: &Vec<char>, from: usize) -> (end: usize)
    requires
        from <= chars.len(),
    ensures
        from <= end <= chars.len(),
        forall|j: int| from <= j < end ==> chars@[j] != '\n',
        end < chars.len() ==> chars@[end as int] == '\n',
{
    let mut end: usize = from;
    while end < chars.len() && chars[end] != '\n'
        invariant
            from <= end <= chars.len(),
            forall|j: int| from <= j < end ==> chars@[j] != '\n',
        decreases chars.len() - end,
    {
        end += 1;
    }
    end
}

/// Whether `chars[from..to]` is a blank line.
fn blank_between(chars: &Vec<char>, from: usize, to: usize) -> (blank: bool)
    requires
        from <= to <= chars.len(),
    ensures
        blank == is_blank(chars@.subrange(from as int, to as int)),
{
    let ghost line = chars@.subrange(from as int, to as int);
    let mut i: usize = from;
    while i < to
        invariant
            from <= i <= to <= chars.len(),
            line == chars@.subrange(from as int, to as int),
            forall|j: int| 0 <= j < i - from ==> is_whitespace(#[trigger] line[j]),
        decreases to - i,
    {
        if !char_is_whitespace(chars[i]) {
            assert(!is_whitespace(line[i - from]));
            return false;
        }
        i += 1;
    }
    true
}

/// Appends `count` copies of `c` to `out`.
fn push_repeated(out: &mut String, c: char, count: usize)
    ensures
        final(out)@ == old(out)@ + repeated(c, count as nat),
{
    let mut i: usize = 0;
    while i < count
        invariant
            i <= count,
            out@ == old(out)@ + repeated(c, i as nat),
        decreases count - i,
    {
        out.push(c);
        i += 1;
        assert(out@ =~= old(out)@ + repeated(c, i as nat));
    }
    assert(out@ =~= old(out)@ + repeated(c, count as nat));
}

/// Appends `chars[from..to]` to `out`.
fn push_between(out: &mut String, chars: &Vec<char>, from: usize, to: usize)
    requires
        from <= to <= chars.len(),
    ensures
        final(out)@ == old(out)@ + chars@.subrange(from as int, to as int),
{
    let mut i: usize = from;
    assert(out@ =~= old(out)@ + chars@.subrange(from as int, i as int));
    while i < to
        invariant
            from <= i <= to <= chars.len(),
            out@ == old(out)@ + chars@.subrange(from as int, i as int),
        decreases to - i,
    {
        out.push(chars[i]);
        i += 1;
        assert(out@ =~= old(out)@ + chars@.subrange(from as int, i as int));
    }
}

/// What is still to be written once the lines `ls` remain: they are joined,
/// and follow a line feed when a line has been written before them.
pub open spec fn remaining_text(ls: Seq<Seq<char>>, started: bool) -> Seq<char> {
    if started {
        join_tail(ls)
    } else {
        join_lines(ls)
    }
}

/// Re-indents `s`: every line that is not blank gets `spaces` spaces in front,
/// a blank line becomes empty, and the lines are joined by single line feeds.
pub fn indent(s: &str, spaces: usize) -> (out: String)
    ensures
        out@ == indent_text(s@, spaces as nat),
{
    let chars = chars_of(s);
    let n = chars.len();
    let mut out = String::new();
    let mut pos: usize = 0;
    let mut started = false;
    let ghost total = indent_text(s@, spaces as nat);
    proof {
        assert(chars@.skip(0) =~= s@);
        assert(out@ + total =~= total);
    }
    while pos < n
        invariant
            n == chars.len(),
            pos <= n,
            total == out@ + remaining_text(
                indent_lines(lines(chars@.skip(pos as int)), spaces as nat),
                started,
            ),
        decreases n - pos,
    {
        let end = line_end(&chars, pos);
        let stop = if end < n && end > pos && chars[end - 1] == '\r' {
            end - 1
        } else {
            end
        };
        let next = if end < n {
            end + 1
        } else {
            end
        };
        let ghost before = out@;
        let ghost first = indent_line(chars@.subrange(pos as int, stop as int), spaces as nat);
        let ghost rest = join_tail(indent_lines(lines(chars@.skip(next as int)), spaces as nat));
        proof {
            lemma_indent_step(chars@, pos as int, end as int, spaces as nat);
        }
        if started {
            out.push('\n');
        }
        let ghost middle = out@;
        if !blank_between(&chars, pos, stop) {
            push_repeated(&mut out, ' ', spaces);
            push_between(&mut out, &chars, pos, stop);
        }
        proof {
            assert(out@ =~= middle + first);
            if started {
                assert(out@ + rest =~= before + (seq!['\n'] + first + rest));
            } else {
                assert(out@ + rest =~= before + (first + rest));
            }
        }
        started = true;
        pos = next;
    }
    proof {
        assert(chars@.skip(n as int).len() == 0);
        assert(out@ + Seq::<char>::empty() =~= out@);
    }
    out
}

} // verus!
