//! Small functions on text that the views share: counting lines, writing a
//! number in decimal, cutting a string to a width.

use vstd::prelude::*;

verus! {

/// The number of line feeds in `s`.
pub open spec fn newlines(s: Seq<char>) -> nat
    decreases s.len(),
{
    if s.len() == 0 {
        0
    } else {
        newlines(s.drop_last()) + if s.last() == '\n' {
            1nat
        } else {
            0nat
        }
    }
}

/// The number of lines of `s`: each line feed ends a line, and what follows
/// the last line feed is one more line unless it is empty.
pub open spec fn line_count(s: Seq<char>) -> nat {
    newlines(s) + if s.len() > 0 && s.last() != '\n' {
        1nat
    } else {
        0nat
    }
}

proof fn lemma_newlines_bound(s: Seq<char>)
    ensures
        newlines(s) <= s.len(),
        s.len() > 0 && s.last() != '\n' ==> newlines(s) < s.len(),
    decreases s.len(),
{
    if s.len() > 0 {
        lemma_newlines_bound(s.drop_last());
    }
}

/// Counts the lines of `s`.
pub fn count_lines(s: &str) -> (n: usize)
    ensures
        n == line_count(s@),
{
    let len = s.unicode_len();
    let mut count: usize = 0;
    let mut open_line = false;
    for c in it: s.chars()
        invariant
            it.seq() == s@,
            len == s@.len(),
            count == newlines(s@.take(it.index())),
            open_line == (it.index() > 0 && s@[it.index() - 1] != '\n'),
    {
        proof {
            lemma_newlines_bound(s@.take(it.index() + 1));
            assert(s@.take(it.index() + 1).drop_last() == s@.take(it.index()));
        }
        if c == '\n' {
            count = count + 1;
            open_line = false;
        } else {
            open_line = true;
        }
    }
    proof {
        assert(s@.take(s@.len() as int) == s@);
        lemma_newlines_bound(s@);
    }
    if open_line {
        count + 1
    } else {
        count
    }
}

/// Contract of `std::string::String::push`, taken from its documentation and
/// not proved here: the character is appended to the string.
pub assume_specification[ String::push ](s: &mut String, ch: char)
    ensures
        final(s)@ == old(s)@.push(ch),
;

/// Contract of `std::string::String::pop`, taken from its documentation and
/// not proved here: the last character is removed and returned; an empty
/// string stays empty, and `None` is returned.
pub assume_specification[ String::pop ](s: &mut String) -> (ch: Option<char>)
    ensures
        old(s)@.len() == 0 ==> ch is None && final(s)@ == old(s)@,
        old(s)@.len() > 0 ==> ch == Some(old(s)@.last()) && final(s)@ == old(s)@.drop_last(),
;

/// The character of a decimal digit.
pub open spec fn digit(d: nat) -> char {
    if d == 0 {
        '0'
    } else if d == 1 {
        '1'
    } else if d == 2 {
        '2'
    } else if d == 3 {
        '3'
    } else if d == 4 {
        '4'
    } else if d == 5 {
        '5'
    } else if d == 6 {
        '6'
    } else if d == 7 {
        '7'
    } else if d == 8 {
        '8'
    } else {
        '9'
    }
}

/// The decimal notation of `n`, without leading zeros.
pub open spec fn decimal(n: nat) -> Seq<char>
    decreases n,
{
    if n < 10 {
        seq![digit(n)]
    } else {
        decimal(n / 10).push(digit(n % 10))
    }
}

fn digit_char(d: usize) -> (c: char)
    requires
        d < 10,
    ensures
        c == digit(d as nat),
{
    if d == 0 {
        '0'
    } else if d == 1 {
        '1'
    } else if d == 2 {
        '2'
    } else if d == 3 {
        '3'
    } else if d == 4 {
        '4'
    } else if d == 5 {
        '5'
    } else if d == 6 {
        '6'
    } else if d == 7 {
        '7'
    } else if d == 8 {
        '8'
    } else {
        '9'
    }
}

/// Writes `n` in decimal.
pub fn decimal_string(n: usize) -> (s: String)
    ensures
        s@ == decimal(n as nat),
    decreases n,
{
    if n < 10 {
        let mut s = String::new();
        s.push(digit_char(n));
        s
    } else {
        let mut s = decimal_string(n / 10);
        s.push(digit_char(n % 10));
        s
    }
}

/// `n` spaces.
pub open spec fn spaces(n: nat) -> Seq<char> {
    Seq::new(n, |i: int| ' ')
}

/// `s` cut to at most `width` characters.
pub open spec fn clip(s: Seq<char>, width: nat) -> Seq<char> {
    if s.len() <= width {
        s
    } else {
        s.take(width as int)
    }
}

/// `s` cut or filled up with spaces to exactly `width` characters.
pub open spec fn fit(s: Seq<char>, width: nat) -> Seq<char> {
    if s.len() <= width {
        s + spaces((width - s.len()) as nat)
    } else {
        s.take(width as int)
    }
}

/// Cuts `s` to at most `width` characters.
pub fn clip_text(s: &str, width: usize) -> (cut: String)
    ensures
        cut@ == clip(s@, width as nat),
{
    if s.unicode_len() <= width {
        String::from_str(s)
    } else {
        String::from_str(s.substring_char(0, width))
    }
}

/// Cuts `s` or fills it up with spaces to exactly `width` characters.
pub fn fit_text(s: &str, width: usize) -> (field: String)
    ensures
        field@ == fit(s@, width as nat),
{
    let len = s.unicode_len();
    if len <= width {
        let mut field = String::from_str(s);
        let mut k: usize = len;
        while k < width
            invariant
                len <= k <= width,
                len == s@.len(),
                field@ == s@ + spaces((k - len) as nat),
            decreases width - k,
        {
            field.push(' ');
            k = k + 1;
        }
        field
    } else {
        String::from_str(s.substring_char(0, width))
    }
}

} // verus!
