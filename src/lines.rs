//! Input text in any of its usual forms, brought to one owned list of lines.
use vstd::prelude::*;

verus! {

/// The lines of `s`, split at each newline: `k` newlines give `k + 1` lines, the newlines
/// themselves dropped.
pub open spec fn split_lines(s: Seq<char>) -> Seq<Seq<char>>
    decreases s.len(),
{
    if s.len() == 0 {
        seq![seq![]]
    } else {
        let prev = split_lines(s.drop_last());
        if s.last() == '\n' {
            prev.push(seq![])
        } else {
            prev.update(prev.len() - 1, prev.last().push(s.last()))
        }
    }
}

pub proof fn lemma_split_lines_nonempty(s: Seq<char>)
    ensures
        split_lines(s).len() >= 1,
    decreases s.len(),
{
    if s.len() > 0 {
        lemma_split_lines_nonempty(s.drop_last());
    }
}

pub open spec fn strings_view(v: Seq<String>) -> Seq<Seq<char>> {
    v.map_values(|s: String| s@)
}

/// Text that can be brought to a list of owned lines.
pub trait IntoLines: Sized {
    /// The lines this value stands for.
    spec fn line_seq(&self) -> Seq<Seq<char>>;

    fn into_lines(self) -> (r: Vec<String>)
        ensures
            strings_view(r@) == self.line_seq(),
    ;
}

/// Splits `s` at each newline.
pub fn split_newlines(s: &str) -> (r: Vec<String>)
    ensures
        strings_view(r@) == split_lines(s@),
{
    let n = s.unicode_len();
    let mut out: Vec<String> = Vec::new();
    let mut start: usize = 0;
    let mut i: usize = 0;
    assert(s@.subrange(0, 0) =~= Seq::<char>::empty());
    assert(s@.take(0) =~= Seq::<char>::empty());
    assert(strings_view(out@).push(s@.subrange(0, 0)) =~= split_lines(s@.take(0)));
    while i < n
        invariant
            n == s@.len(),
            start <= i <= n,
            strings_view(out@).push(s@.subrange(start as int, i as int)) == split_lines(
                s@.take(i as int),
            ),
        decreases n - i,
    {
        let c = s.get_char(i);
        let ghost prev_out = strings_view(out@);
        let ghost piece = s@.subrange(start as int, i as int);
        proof {
            assert(s@.take(i + 1).drop_last() =~= s@.take(i as int));
            assert(s@.take(i + 1).last() == c);
        }
        if c == '\n' {
            out.push(String::from_str(s.substring_char(start, i)));
            start = i + 1;
            assert(strings_view(out@) =~= prev_out.push(piece));
            assert(s@.subrange(start as int, i + 1) =~= Seq::<char>::empty());
            assert(strings_view(out@).push(s@.subrange(start as int, i + 1)) =~= split_lines(
                s@.take(i + 1),
            ));
        } else {
            assert(piece.push(c) =~= s@.subrange(start as int, i + 1));
            assert(prev_out.push(piece).update(prev_out.len() as int, piece.push(c))
                =~= prev_out.push(s@.subrange(start as int, i + 1)));
            assert(strings_view(out@).push(s@.subrange(start as int, i + 1)) =~= split_lines(
                s@.take(i + 1),
            ));
        }
        i = i + 1;
    }
    let ghost prev_out = strings_view(out@);
    out.push(String::from_str(s.substring_char(start, n)));
    assert(s@.take(n as int) =~= s@);
    assert(strings_view(out@) =~= prev_out.push(s@.subrange(start as int, n as int)));
    out
}

impl IntoLines for Vec<String> {
    open spec fn line_seq(&self) -> Seq<Seq<char>> {
        strings_view(self@)
    }

    fn into_lines(self) -> (r: Vec<String>) {
        self
    }
}

impl<'a> IntoLines for Vec<&'a str> {
    open spec fn line_seq(&self) -> Seq<Seq<char>> {
        self@.map_values(|s: &'a str| s@)
    }

    fn into_lines(self) -> (r: Vec<String>) {
        let mut out: Vec<String> = Vec::new();
        let mut i: usize = 0;
        while i < self.len()
            invariant
                i <= self@.len(),
                strings_view(out@) =~= self@.take(i as int).map_values(|s: &'a str| s@),
            decreases self@.len() - i,
        {
            let ghost prev = strings_view(out@);
            out.push(String::from_str(self[i]));
            assert(strings_view(out@) =~= prev.push(self@[i as int]@));
            assert(self@.take(i + 1) =~= self@.take(i as int).push(self@[i as int]));
            i = i + 1;
        }
        assert(self@.take(i as int) =~= self@);
        out
    }
}

impl IntoLines for String {
    open spec fn line_seq(&self) -> Seq<Seq<char>> {
        split_lines(self@)
    }

    fn into_lines(self) -> (r: Vec<String>) {
        split_newlines(self.as_str())
    }
}

impl<'a> IntoLines for &'a str {
    open spec fn line_seq(&self) -> Seq<Seq<char>> {
        split_lines(self@)
    }

    fn into_lines(self) -> (r: Vec<String>) {
        split_newlines(self)
    }
}

} // verus!
