//! Indentation of multi-line text.

use vstd::prelude::*;
use vstd::std_specs::iter::IteratorSpec;

verus! {

/// `String::push`: appends the scalar `c` to the string.
pub assume_specification[ String::push ](s: &mut String, c: char)
    ensures
        final(s)@ == old(s)@.push(c),
;

/// The pieces of `s` between its line feeds: one more than there are line
/// feeds, and the last one is what stands after the last line feed.
pub open spec fn pieces(s: Seq<char>) -> Seq<Seq<char>>
    decreases s.len(),
{
    if s.len() == 0 {
        seq![Seq::<char>::empty()]
    } else if s.last() == '\n' {
        pieces(s.drop_last()).push(Seq::<char>::empty())
    } else {
        pieces(s.drop_last()).drop_last().push(pieces(s.drop_last()).last().push(s.last()))
    }
}

/// A piece that a line feed ends, without the carriage return that may
/// stand before the line feed.
pub open spec fn without_carriage_return(piece: Seq<char>) -> Seq<char> {
    if piece.len() > 0 && piece.last() == '\r' {
        piece.drop_last()
    } else {
        piece
    }
}

/// The lines of `s`. A line ends with a line feed, or with a carriage
/// return and a line feed, neither of which belongs to the line. What
/// stands after the last line feed is a line too, unless it is empty; a
/// carriage return at its end stays.
pub open spec fn lines_of(s: Seq<char>) -> Seq<Seq<char>> {
    let ended = Seq::new(
        (pieces(s).len() - 1) as nat,
        |i: int| without_carriage_return(pieces(s)[i]),
    );
    if pieces(s).last().len() == 0 {
        ended
    } else {
        ended.push(pieces(s).last())
    }
}

/// The lines, each after `spaces` spaces, with a line feed between one and
/// the next.
pub open spec fn indented(spaces: nat, lines: Seq<Seq<char>>) -> Seq<char>
    decreases lines.len(),
{
    if lines.len() == 0 {
        Seq::<char>::empty()
    } else if lines.len() == 1 {
        Seq::new(spaces, |i: int| ' ') + lines[0]
    } else {
        indented(spaces, lines.drop_last()) + seq!['\n'] + Seq::new(spaces, |i: int| ' ')
            + lines.last()
    }
}

/// Splits `string` into its lines.
fn split_lines(string: &str) -> (lines: Vec<Vec<char>>)
    ensures
        lines@.len() == lines_of(string@).len(),
        forall|i: int| 0 <= i < lines@.len() ==> (#[trigger] lines@[i])@ == lines_of(string@)[i],
{
    broadcast use vstd::string::group_string_axioms;

    let mut lines: Vec<Vec<char>> = Vec::new();
    let mut cur: Vec<char> = Vec::new();
    let ghost text = string@;
    proof {
        assert(text.take(0) =~= Seq::<char>::empty());
    }
    for c in it: string.chars()
        invariant
            it.seq() == text,
            pieces(text.take(it.index() as int)).len() == lines@.len() + 1,
            pieces(text.take(it.index() as int)).last() == cur@,
            forall|i: int|
                0 <= i < lines@.len() ==> (#[trigger] lines@[i])@ == without_carriage_return(
                    pieces(text.take(it.index() as int))[i],
                ),
    {
        let ghost k = it.index() as int;
        let ghost before = pieces(text.take(k));
        proof {
            assert(text.take(k + 1).drop_last() =~= text.take(k));
            assert(text.take(k + 1).last() == c);
        }
        if c == '\n' {
            let n = cur.len();
            if n > 0 && cur[n - 1] == '\r' {
                let _ = cur.pop();
            }
            proof {
                assert(cur@ =~= without_carriage_return(before.last()));
            }
            lines.push(cur);
            cur = Vec::new();
            proof {
                let after = pieces(text.take(k + 1));
                assert(after =~= before.push(Seq::<char>::empty()));
                assert(cur@ =~= after.last());
            }
        } else {
            cur.push(c);
            proof {
                let after = pieces(text.take(k + 1));
                assert(after =~= before.drop_last().push(before.last().push(c)));
            }
        }
    }
    proof {
        assert(text.take(text.len() as int) =~= text);
    }
    if cur.len() > 0 {
        lines.push(cur);
    }
    lines
}

/// Indents a multi-line `string` slice with the given number of `spaces`.
///
/// Each line of the text comes after `spaces` spaces. A line feed stands
/// between one line and the next, and none after the last.
pub fn indent(spaces: usize, string: &str) -> (r: String)
    ensures
        r@ == indented(spaces as nat, lines_of(string@)),
{
    let lines = split_lines(string);
    let ghost all = lines_of(string@);
    let mut out = String::new();
    let mut i: usize = 0;
    proof {
        assert(all.take(0) =~= Seq::<Seq<char>>::empty());
    }
    while i < lines.len()
        invariant
            i <= lines@.len(),
            lines@.len() == all.len(),
            forall|k: int| 0 <= k < lines@.len() ==> (#[trigger] lines@[k])@ == all[k],
            out@ == indented(spaces as nat, all.take(i as int)),
        decreases lines@.len() - i,
    {
        let ghost start = out@;
        if i > 0 {
            out.push('\n');
        }
        let ghost sep = out@;
        let mut j: usize = 0;
        while j < spaces
            invariant
                j <= spaces,
                out@ == sep + Seq::new(j as nat, |k: int| ' '),
            decreases spaces - j,
        {
            out.push(' ');
            j = j + 1;
            proof {
                assert(out@ =~= sep + Seq::new(j as nat, |k: int| ' '));
            }
        }
        let ghost lead = out@;
        let line = &lines[i];
        let mut m: usize = 0;
        while m < line.len()
            invariant
                m <= line@.len(),
                out@ == lead + line@.take(m as int),
            decreases line@.len() - m,
        {
            out.push(line[m]);
            m = m + 1;
            proof {
                assert(out@ =~= lead + line@.take(m as int));
            }
        }
        proof {
            assert(line@.take(m as int) =~= line@);
            let next = all.take(i + 1);
            assert(next.drop_last() =~= all.take(i as int));
            assert(next.last() == line@);
            if i == 0 {
                assert(start =~= Seq::<char>::empty());
                assert(out@ =~= Seq::new(spaces as nat, |k: int| ' ') + next[0]);
            } else {
                assert(out@ =~= start + seq!['\n'] + Seq::new(spaces as nat, |k: int| ' ')
                    + next.last());
            }
        }
        i = i + 1;
    }
    proof {
        assert(all.take(i as int) =~= all);
    }
    out
}

} // verus!
