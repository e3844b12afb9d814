use vstd::prelude::*;
use crate::text::{chars_of, string_of_chars, trim, trim_bounds};

verus! {

/// The pieces of `s` between newline characters, left to right: a text
/// with `n` newlines has `n + 1` pieces.
pub open spec fn split_lines(s: Seq<char>) -> Seq<Seq<char>>
    decreases s.len(),
{
    if s.len() == 0 {
        seq![Seq::empty()]
    } else {
        let head = split_lines(s.drop_last());
        if s.last() == '\n' {
            head.push(Seq::empty())
        } else {
            head.update(head.len() - 1, head.last().push(s.last()))
        }
    }
}

/// The trimmed lines that are not blank, in order.
pub open spec fn nonblank_trimmed(lines: Seq<Seq<char>>) -> Seq<Seq<char>>
    decreases lines.len(),
{
    if lines.len() == 0 {
        Seq::empty()
    } else {
        let rest = nonblank_trimmed(lines.drop_last());
        let t = trim(lines.last());
        if t.len() == 0 {
            rest
        } else {
            rest.push(t)
        }
    }
}

/// The records of a newline-delimited body: each line trimmed, blank lines
/// left out.
pub open spec fn frames(body: Seq<char>) -> Seq<Seq<char>> {
    nonblank_trimmed(split_lines(body))
}

/// What a list of strings holds, as character sequences.
pub open spec fn texts(v: Seq<String>) -> Seq<Seq<char>> {
    v.map_values(|s: String| s@)
}

/// Appends the trimmed `chars[from..to]` to `out` unless it is blank.
fn push_trimmed(out: &mut Vec<String>, chars: &Vec<char>, from: usize, to: usize)
    requires
        from <= to <= chars@.len(),
    ensures
        ({
            let t = trim(chars@.subrange(from as int, to as int));
            texts(final(out)@) == if t.len() == 0 {
                texts(old(out)@)
            } else {
                texts(old(out)@).push(t)
            }
        }),
{
    let (a, b) = trim_bounds(chars, from, to);
    if a < b {
        let line = string_of_chars(chars, a, b);
        out.push(line);
        assert(texts(out@) == texts(old(out)@).push(line@));
    }
}

/// Splits a body into its newline-delimited records: each line is trimmed
/// and blank lines are skipped.
pub fn ndjson_frames(body: &str) -> (r: Vec<String>)
    ensures
        texts(r@) == frames(body@),
{
    let chars = chars_of(body);
    let n = chars.len();
    let mut out: Vec<String> = Vec::new();
    let ghost done: Seq<Seq<char>> = Seq::empty();
    let mut start: usize = 0;
    let mut i: usize = 0;
    assert(chars@.subrange(0, 0) == Seq::<char>::empty());
    assert(texts(out@) == Seq::<Seq<char>>::empty());
    while i < n
        invariant
            n == chars@.len(),
            start <= i <= n,
            split_lines(chars@.subrange(0, i as int)) == done.push(chars@.subrange(start as int, i as int)),
            texts(out@) == nonblank_trimmed(done),
        decreases n - i,
    {
        let ghost prefix = chars@.subrange(0, i + 1);
        assert(prefix.drop_last() == chars@.subrange(0, i as int));
        assert(prefix.last() == chars@[i as int]);
        if chars[i] == '\n' {
            push_trimmed(&mut out, &chars, start, i);
            proof {
                let seg = chars@.subrange(start as int, i as int);
                assert(done.push(seg).drop_last() == done);
                done = done.push(seg);
                assert(chars@.subrange(i + 1, i + 1) == Seq::<char>::empty());
            }
            start = i + 1;
        } else {
            proof {
                let seg = chars@.subrange(start as int, i as int);
                assert(seg.push(chars@[i as int]) == chars@.subrange(start as int, i + 1));
                assert(done.push(seg).update(done.len() as int, seg.push(chars@[i as int]))
                    == done.push(chars@.subrange(start as int, i + 1)));
            }
        }
        i = i + 1;
    }
    let ghost last = chars@.subrange(start as int, n as int);
    push_trimmed(&mut out, &chars, start, n);
    proof {
        assert(chars@.subrange(0, n as int) == body@);
        assert(done.push(last).drop_last() == done);
    }
    out
}

} // verus!
