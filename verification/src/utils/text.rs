//! Line-oriented helpers over text, stated over sequences of characters.

use vstd::prelude::*;

verus! {

/// `String::push` appends one character to the end of the string.
pub assume_specification[ String::push ](s: &mut String, c: char)
    ensures
        final(s)@ == old(s)@.push(c),
;

/// The views of a sequence of strings, in order.
pub open spec fn views_of(strings: Seq<String>) -> Seq<Seq<char>> {
    strings.map_values(|s: String| s@)
}

/// The pieces put together, in order, with nothing between them.
pub open spec fn concat_all(parts: Seq<Seq<char>>) -> Seq<char>
    decreases parts.len(),
{
    if parts.len() == 0 {
        Seq::empty()
    } else {
        concat_all(parts.drop_last()) + parts.last()
    }
}

/// What precedes the first occurrence of `c` in `s`; all of `s` when `c`
/// does not occur in it.
pub open spec fn before_first(s: Seq<char>, c: char) -> Seq<char>
    decreases s.len(),
{
    if s.len() == 0 {
        s
    } else {
        let head = before_first(s.drop_last(), c);
        if head.len() < s.len() - 1 || s.last() == c {
            head
        } else {
            s
        }
    }
}

/// `before_first` is a leading part of `s` without `c` in it, followed by
/// `c` unless it is all of `s`, which it is exactly when `c` does not occur.
pub proof fn lemma_before_first(s: Seq<char>, c: char)
    ensures
        before_first(s, c).len() <= s.len(),
        before_first(s, c) == s.take(before_first(s, c).len() as int),
        !before_first(s, c).contains(c),
        before_first(s, c).len() < s.len() ==> s[before_first(s, c).len() as int] == c,
        before_first(s, c).len() < s.len() <==> s.contains(c),
    decreases s.len(),
{
    let head = before_first(s, c);
    if s.len() == 0 {
        assert(head =~= s.take(0));
    } else {
        let front = s.drop_last();
        lemma_before_first(front, c);
        let inner = before_first(front, c);
        assert(inner == front.take(inner.len() as int));
        assert(front.take(inner.len() as int) =~= s.take(inner.len() as int));
        if inner.len() < s.len() - 1 {
            assert(front[inner.len() as int] == c);
            assert(s[inner.len() as int] == c);
        } else if s.last() == c {
            assert(s[s.len() - 1] == c);
        } else {
            assert(head =~= s.take(s.len() as int));
            assert(inner =~= front);
            if s.contains(c) {
                let k = choose|k: int| 0 <= k < s.len() && s[k] == c;
                assert(front[k] == c);
            }
        }
    }
}

/// Position just past the last line feed of `s`; zero when `s` holds none.
pub open spec fn tail_start(s: Seq<char>) -> nat
    decreases s.len(),
{
    if s.len() == 0 {
        0
    } else if s.last() == '\n' {
        s.len()
    } else {
        tail_start(s.drop_last())
    }
}

/// What follows the last line feed of `s`: the unfinished last line.
pub open spec fn line_tail(s: Seq<char>) -> Seq<char> {
    s.skip(tail_start(s) as int)
}

/// What precedes the last line feed of `s`: every finished line. Empty when
/// `s` holds no line feed.
pub open spec fn line_head(s: Seq<char>) -> Seq<char> {
    if tail_start(s) == 0 {
        Seq::empty()
    } else {
        s.take(tail_start(s) - 1)
    }
}

/// The pieces of `s` between the occurrences of `sep`. There is always at
/// least one, and a separator at the end is followed by an empty piece.
pub open spec fn pieces_of(s: Seq<char>, sep: char) -> Seq<Seq<char>>
    decreases s.len(),
{
    if s.len() == 0 {
        seq![Seq::empty()]
    } else {
        let before = pieces_of(s.drop_last(), sep);
        if s.last() == sep {
            before.push(Seq::empty())
        } else {
            before.drop_last().push(before.last().push(s.last()))
        }
    }
}

/// The lines of `s`: the pieces between its line feeds.
pub open spec fn lines_of(s: Seq<char>) -> Seq<Seq<char>> {
    pieces_of(s, '\n')
}

/// The pieces put together again, with one `sep` between neighbours.
pub open spec fn join_pieces(pieces: Seq<Seq<char>>, sep: char) -> Seq<char>
    decreases pieces.len(),
{
    if pieces.len() == 0 {
        Seq::empty()
    } else if pieces.len() == 1 {
        pieces[0]
    } else {
        join_pieces(pieces.drop_last(), sep).push(sep) + pieces.last()
    }
}

/// Number of occurrences of `c` in `s`.
pub open spec fn count_of(s: Seq<char>, c: char) -> nat
    decreases s.len(),
{
    if s.len() == 0 {
        0
    } else {
        count_of(s.drop_last(), c) + if s.last() == c {
            1nat
        } else {
            0nat
        }
    }
}

/// `tail_start` lies within `s`, sits right behind a line feed unless it is
/// zero, and no line feed follows it.
pub proof fn lemma_tail_start(s: Seq<char>)
    ensures
        tail_start(s) <= s.len(),
        tail_start(s) > 0 ==> s[tail_start(s) - 1] == '\n',
        forall|j: int| tail_start(s) <= j < s.len() ==> s[j] != '\n',
        tail_start(s) == 0 <==> !s.contains('\n'),
    decreases s.len(),
{
    if s.len() > 0 {
        let front = s.drop_last();
        lemma_tail_start(front);
        if s.last() == '\n' {
            assert(s[s.len() - 1] == '\n');
        } else {
            assert forall|j: int| tail_start(s) <= j < s.len() implies s[j] != '\n' by {
                if j < front.len() {
                    assert(front[j] == s[j]);
                }
            }
            if front.contains('\n') {
                let k = choose|k: int| 0 <= k < front.len() && front[k] == '\n';
                assert(s[k] == '\n');
            }
            if s.contains('\n') {
                let k = choose|k: int| 0 <= k < s.len() && s[k] == '\n';
                assert(front[k] == '\n');
            }
        }
    }
}

/// Splitting at the last line feed loses nothing: with a line feed in `s`,
/// head, line feed and tail make up `s`; without one, the head is empty and
/// the tail is `s`. The tail never holds a line feed.
pub proof fn lemma_line_split(s: Seq<char>)
    ensures
        s.contains('\n') ==> line_head(s).push('\n') + line_tail(s) == s,
        !s.contains('\n') ==> line_head(s) == Seq::<char>::empty() && line_tail(s) == s,
        !line_tail(s).contains('\n'),
{
    lemma_tail_start(s);
    if s.contains('\n') {
        assert(line_head(s).push('\n') + line_tail(s) =~= s);
    } else {
        assert(line_tail(s) =~= s);
    }
    if line_tail(s).contains('\n') {
        let k = choose|k: int| 0 <= k < line_tail(s).len() && line_tail(s)[k] == '\n';
        assert(s[tail_start(s) + k] == '\n');
    }
}

/// The pieces of `s` are one more than the separators in it, none of them
/// holds the separator, and joined again they give `s`.
pub proof fn lemma_pieces_of(s: Seq<char>, sep: char)
    ensures
        pieces_of(s, sep).len() == count_of(s, sep) + 1,
        forall|k: int|
            0 <= k < pieces_of(s, sep).len() ==> !(#[trigger] pieces_of(s, sep)[k]).contains(sep),
        join_pieces(pieces_of(s, sep), sep) == s,
    decreases s.len(),
{
    let lines = pieces_of(s, sep);
    if s.len() == 0 {
        assert(join_pieces(lines, sep) =~= s);
        assert(!lines[0].contains(sep));
    } else {
        let front = s.drop_last();
        let before = pieces_of(front, sep);
        lemma_pieces_of(front, sep);
        if s.last() == sep {
            assert(lines.drop_last() =~= before);
            assert(join_pieces(lines, sep) =~= s);
            assert forall|k: int| 0 <= k < lines.len() implies !(#[trigger] lines[k]).contains(
                sep,
            ) by {
                if k < before.len() {
                    assert(lines[k] == before[k]);
                }
            }
        } else {
            let grown = before.last().push(s.last());
            assert(lines.last() == grown);
            if grown.contains(sep) {
                let j = choose|j: int| 0 <= j < grown.len() && grown[j] == sep;
                assert(before.last()[j] == sep);
            }
            assert forall|k: int| 0 <= k < lines.len() implies !(#[trigger] lines[k]).contains(
                sep,
            ) by {
                if k < before.len() - 1 {
                    assert(lines[k] == before[k]);
                }
            }
            if before.len() == 1 {
                assert(join_pieces(before, sep) == before[0]);
                assert(join_pieces(lines, sep) =~= s);
            } else {
                let joined = join_pieces(before.drop_last(), sep).push(sep);
                assert(lines.drop_last() =~= before.drop_last());
                assert(join_pieces(before, sep) == joined + before.last());
                assert(join_pieces(lines, sep) == joined + grown);
                assert(joined + grown =~= (joined + before.last()).push(s.last()));
                assert(join_pieces(lines, sep) =~= s);
            }
        }
    }
}

/// Whether the text holds a line feed anywhere.
pub fn has_newline(text: &str) -> (found: bool)
    ensures
        found == text@.contains('\n'),
{
    let mut found = false;
    for c in it: text.chars()
        invariant
            it.seq() == text@,
            found == exists|k: int| 0 <= k < it.index() && text@[k] == '\n',
    {
        if c == '\n' {
            found = true;
        }
    }
    found
}

/// Splits the text at its last line feed into the finished lines before it
/// and the unfinished line after it. The line feed itself belongs to neither.
/// Without a line feed the head is empty and the tail is the whole text.
pub fn split_line_tail(text: &str) -> (parts: (String, String))
    ensures
        parts.0@ == line_head(text@),
        parts.1@ == line_tail(text@),
{
    let mut head = String::new();
    let mut tail = String::new();
    let mut seen = false;
    for c in it: text.chars()
        invariant
            it.seq() == text@,
            head@ == line_head(text@.take(it.index() as int)),
            tail@ == line_tail(text@.take(it.index() as int)),
            seen == (tail_start(text@.take(it.index() as int)) > 0),
    {
        let ghost before = text@.take(it.index() as int);
        let ghost after = text@.take(it.index() + 1);
        proof {
            lemma_tail_start(before);
            assert(after.drop_last() =~= before);
            assert(after.last() == c);
        }
        if c == '\n' {
            if seen {
                head.push('\n');
                head.append(tail.as_str());
            } else {
                head = tail;
            }
            seen = true;
            tail = String::new();
            proof {
                assert(head@ =~= before);
                assert(line_head(after) =~= before);
                assert(line_tail(after) =~= Seq::<char>::empty());
            }
        } else {
            tail.push(c);
            proof {
                assert(line_tail(after) =~= line_tail(before).push(c));
                assert(line_head(after) =~= line_head(before));
            }
        }
    }
    proof {
        assert(text@.take(text@.len() as int) =~= text@);
    }
    (head, tail)
}

/// What precedes the first occurrence of `c` in the text, and whether `c`
/// occurs in it at all.
pub fn split_before_first(text: &str, c: char) -> (parts: (String, bool))
    ensures
        parts.0@ == before_first(text@, c),
        parts.1 == text@.contains(c),
{
    let mut head = String::new();
    let mut found = false;
    for ch in it: text.chars()
        invariant
            it.seq() == text@,
            head@ == before_first(text@.take(it.index() as int), c),
            found == (head@.len() < it.index()),
            head@.len() <= it.index(),
    {
        proof {
            assert(text@.take(it.index() + 1).drop_last() =~= text@.take(it.index() as int));
            assert(text@.take(it.index() + 1) =~= text@.take(it.index() as int).push(ch));
            lemma_before_first(text@.take(it.index() as int), c);
            if !found {
                assert(head@ =~= text@.take(it.index() as int));
            }
        }
        if !found {
            if ch == c {
                found = true;
            } else {
                head.push(ch);
            }
        }
    }
    proof {
        assert(text@.take(text@.len() as int) =~= text@);
        lemma_before_first(text@, c);
    }
    (head, found)
}

/// The pieces of the text between the occurrences of `sep`, in order: one
/// more than the separators in the text, none of them with a separator in
/// it, and the text again when joined by separators.
pub fn split_on(text: &str, sep: char) -> (lines: Vec<String>)
    ensures
        views_of(lines@) == pieces_of(text@, sep),
        lines.len() == count_of(text@, sep) + 1,
        forall|k: int| 0 <= k < lines.len() ==> !(#[trigger] lines[k])@.contains(sep),
        join_pieces(views_of(lines@), sep) == text@,
{
    let mut lines: Vec<String> = Vec::new();
    let mut current = String::new();
    for c in it: text.chars()
        invariant
            it.seq() == text@,
            views_of(lines@).push(current@) == pieces_of(text@.take(it.index() as int), sep),
    {
        let ghost before = text@.take(it.index() as int);
        let ghost after = text@.take(it.index() + 1);
        let ghost done = views_of(lines@);
        proof {
            assert(after.drop_last() =~= before);
            assert(after.last() == c);
            assert(done.push(current@).drop_last() =~= done);
        }
        if c == sep {
            lines.push(current);
            current = String::new();
            proof {
                assert(views_of(lines@) =~= pieces_of(before, sep));
            }
        } else {
            current.push(c);
        }
    }
    proof {
        assert(text@.take(text@.len() as int) =~= text@);
    }
    let ghost done = views_of(lines@);
    lines.push(current);
    proof {
        assert(views_of(lines@) =~= done.push(current@));
        lemma_pieces_of(text@, sep);
        assert forall|k: int| 0 <= k < lines.len() implies !(#[trigger] lines[k])@.contains(
            sep,
        ) by {
            assert(views_of(lines@)[k] == lines[k]@);
        }
    }
    lines
}

/// The lines of the text, in order.
pub fn split_lines(text: &str) -> (lines: Vec<String>)
    ensures
        views_of(lines@) == lines_of(text@),
        lines.len() == count_of(text@, '\n') + 1,
{
    split_on(text, '\n')
}

} // verus!
