//! Small string operations the line composer needs: decimal numbers, runs of spaces, and the
//! trailing newline that tokenizers want and renderers must not see.
use vstd::prelude::*;

verus! {

pub open spec fn digit_char(d: nat) -> char {
    if d == 0 { '0' }
    else if d == 1 { '1' }
    else if d == 2 { '2' }
    else if d == 3 { '3' }
    else if d == 4 { '4' }
    else if d == 5 { '5' }
    else if d == 6 { '6' }
    else if d == 7 { '7' }
    else if d == 8 { '8' }
    else { '9' }
}

/// The decimal digits of `n`, most significant first, without leading zeros.
pub open spec fn decimal(n: nat) -> Seq<char>
    decreases n,
{
    if n < 10 {
        seq![digit_char(n)]
    } else {
        decimal(n / 10).push(digit_char(n % 10))
    }
}

pub open spec fn spaces(k: nat) -> Seq<char> {
    Seq::new(k, |i: int| ' ')
}

/// `s` without its last character, where that is a newline.
pub open spec fn strip_newline(s: Seq<char>) -> Seq<char> {
    if s.len() > 0 && s.last() == '\n' {
        s.drop_last()
    } else {
        s
    }
}

/// `s` with a newline at its end, where it has none.
pub open spec fn with_newline(s: Seq<char>) -> Seq<char> {
    if s.len() > 0 && s.last() == '\n' {
        s
    } else {
        s.push('\n')
    }
}

fn digit_str(d: usize) -> (r: &'static str)
    requires
        d < 10,
    ensures
        r@ == seq![digit_char(d as nat)],
{
    proof {
        reveal_strlit("0");
        reveal_strlit("1");
        reveal_strlit("2");
        reveal_strlit("3");
        reveal_strlit("4");
        reveal_strlit("5");
        reveal_strlit("6");
        reveal_strlit("7");
        reveal_strlit("8");
        reveal_strlit("9");
    }
    match d {
        0 => "0",
        1 => "1",
        2 => "2",
        3 => "3",
        4 => "4",
        5 => "5",
        6 => "6",
        7 => "7",
        8 => "8",
        _ => "9",
    }
}

/// The decimal form of `n`.
pub fn decimal_string(n: usize) -> (r: String)
    ensures
        r@ == decimal(n as nat),
{
    let mut m: usize = n;
    let mut s = String::new();
    loop
        invariant_except_break
            decimal(n as nat) =~= decimal(m as nat) + s@,
        ensures
            s@ =~= decimal(n as nat),
        decreases m,
    {
        let d = m % 10;
        let head = String::from_str(digit_str(d));
        let ghost old_s = s@;
        s = head.concat(s.as_str());
        if m < 10 {
            assert(decimal(m as nat) == seq![digit_char(d as nat)]);
            break ;
        }
        assert(decimal(m as nat) == decimal((m / 10) as nat).push(digit_char(d as nat)));
        m = m / 10;
        assert(decimal(n as nat) =~= decimal(m as nat) + s@);
    }
    s
}

/// A run of `k` spaces.
pub fn space_string(k: usize) -> (r: String)
    ensures
        r@ == spaces(k as nat),
{
    let mut s = String::new();
    let mut i: usize = 0;
    while i < k
        invariant
            i <= k,
            s@ =~= spaces(i as nat),
        decreases k - i,
    {
        proof {
            reveal_strlit(" ");
        }
        s.append(" ");
        i = i + 1;
    }
    s
}

/// The text of `s` with one trailing newline taken off.
pub fn without_newline(s: &str) -> (r: String)
    ensures
        r@ == strip_newline(s@),
{
    let n = s.unicode_len();
    if n > 0 && s.get_char(n - 1) == '\n' {
        String::from_str(s.substring_char(0, n - 1))
    } else {
        String::from_str(s)
    }
}

/// The text of `s` ending in a newline.
pub fn ending_in_newline(s: &str) -> (r: String)
    ensures
        r@ == with_newline(s@),
{
    let n = s.unicode_len();
    if n > 0 && s.get_char(n - 1) == '\n' {
        String::from_str(s)
    } else {
        proof {
            reveal_strlit("\n");
        }
        String::from_str(s).concat("\n")
    }
}

} // verus!
