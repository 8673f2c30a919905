//! Small helpers on text that the rest of the crate builds on: characters of
//! a string, decimal numbers, separators, surrounding whitespace and lines.

use vstd::prelude::*;
use vstd::string::*;
use vstd::std_specs::iter::IteratorSpec;

verus! {

/// Whether two string slices hold the same characters.
pub(crate) fn same_text(a: &str, b: &str) -> (r: bool)
    ensures
        r == (a@ == b@),
{
    a.to_owned() == b.to_owned()
}

/// Whether the standard library counts a character as whitespace
/// (`char::is_whitespace`, the Unicode property `White_Space`).
pub uninterp spec fn white_space(c: char) -> bool;

/// `char::is_whitespace` of the standard library: its answer depends on the
/// character alone, and `white_space` is the name of that answer.
pub assume_specification[ char::is_whitespace ](c: char) -> (r: bool)
    ensures
        r == white_space(c),
;

/// `String::push` of the standard library appends one character.
pub assume_specification[ String::push ](s: &mut String, c: char)
    ensures
        final(s)@ == old(s)@.push(c),
;

/// The characters of each string of a list.
pub open spec fn texts(items: Seq<String>) -> Seq<Seq<char>> {
    Seq::new(items.len(), |i: int| items[i]@)
}

/// The characters of a string slice, in order.
pub fn chars_of(s: &str) -> (chars: Vec<char>)
    ensures
        chars@ == s@,
{
    broadcast use group_string_axioms;

    let mut it = s.chars();
    let mut chars: Vec<char> = Vec::new();
    loop
        invariant
            chars@ + it.remaining() == s@,
        ensures
            chars@ == s@,
        decreases s@.len() - chars@.len(),
    {
        let ghost before = it;
        match it.next() {
            Some(c) => {
                assert(it.remaining() == before.remaining().drop_first());
                assert(chars@.push(c) + it.remaining() =~= chars@ + before.remaining());
                assert(s@.len() == chars@.len() + before.remaining().len());
                chars.push(c);
            },
            None => {
                assert(before.remaining().len() == 0);
                assert(chars@ =~= chars@ + before.remaining());
                break ;
            },
        }
    }
    chars
}

/// The string made of the characters `chars[from..to]`.
pub fn string_of(chars: &Vec<char>, from: usize, to: usize) -> (s: String)
    requires
        from <= to <= chars.len(),
    ensures
        s@ == chars@.subrange(from as int, to as int),
{
    let mut s = String::new();
    let mut i: usize = from;
    while i < to
        invariant
            from <= i <= to <= chars.len(),
            s@ == chars@.subrange(from as int, i as int),
        decreases to - i,
    {
        s.push(chars[i]);
        i += 1;
        assert(s@ =~= chars@.subrange(from as int, i as int));
    }
    s
}

/// The decimal digit for a value below ten.
pub open spec fn digit_char(d: int) -> char {
    if d == 0 {
        '0'
    } else if d == 1 {
        '1'
    } else if d == 2 {
        '2'
    } else if d == 3 {
        '3'
    } else if d == 4 {
        '4'
    } else if d == 5 {
        '5'
    } else if d == 6 {
        '6'
    } else if d == 7 {
        '7'
    } else if d == 8 {
        '8'
    } else {
        '9'
    }
}

/// A number in decimal, without sign, padding or leading zeros.
pub open spec fn decimal(n: nat) -> Seq<char>
    decreases n,
{
    if n < 10 {
        seq![digit_char(n as int)]
    } else {
        decimal(n / 10).push(digit_char((n % 10) as int))
    }
}

fn digit(d: usize) -> (c: char)
    requires
        d < 10,
    ensures
        c == digit_char(d as int),
{
    if d == 0 {
        '0'
    } else if d == 1 {
        '1'
    } else if d == 2 {
        '2'
    } else if d == 3 {
        '3'
    } else if d == 4 {
        '4'
    } else if d == 5 {
        '5'
    } else if d == 6 {
        '6'
    } else if d == 7 {
        '7'
    } else if d == 8 {
        '8'
    } else {
        '9'
    }
}

/// Appends a number in decimal to a string.
pub fn push_decimal(out: &mut String, n: usize)
    ensures
        final(out)@ == old(out)@ + decimal(n as nat),
    decreases n,
{
    if n >= 10 {
        push_decimal(out, n / 10);
    }
    out.push(digit(n % 10));
    assert(final(out)@ =~= old(out)@ + decimal(n as nat));
}

/// A line made of one character repeated.
pub open spec fn rule(c: char, width: nat) -> Seq<char> {
    Seq::new(width, |i: int| c)
}

/// A line of `width` copies of `c`.
pub fn rule_line(c: char, width: usize) -> (line: String)
    ensures
        line@ == rule(c, width as nat),
{
    let mut line = String::new();
    let mut i: usize = 0;
    while i < width
        invariant
            i <= width,
            line@ == rule(c, i as nat),
        decreases width - i,
    {
        line.push(c);
        i += 1;
        assert(line@ =~= rule(c, i as nat));
    }
    line
}

/// Lines joined into one text, a line feed between each two of them and none
/// after the last.
pub open spec fn join_lines(lines: Seq<Seq<char>>) -> Seq<char>
    decreases lines.len(),
{
    if lines.len() == 0 {
        Seq::empty()
    } else if lines.len() == 1 {
        lines[0]
    } else {
        join_lines(lines.drop_last()) + seq!['\n'] + lines.last()
    }
}

/// Joins lines into one text, a line feed between each two of them.
pub fn join(lines: &Vec<String>) -> (text: String)
    ensures
        text@ == join_lines(texts(lines@)),
{
    let mut text = String::new();
    let mut i: usize = 0;
    while i < lines.len()
        invariant
            i <= lines.len(),
            text@ == join_lines(texts(lines@).take(i as int)),
        decreases lines.len() - i,
    {
        if i > 0 {
            text.push('\n');
        }
        text.append(lines[i].as_str());
        i += 1;
        proof {
            let now = texts(lines@).take(i as int);
            assert(now.drop_last() =~= texts(lines@).take(i - 1));
            assert(now.last() == lines@[i - 1]@);
            if i > 1 {
                assert(text@ =~= join_lines(now.drop_last()) + seq!['\n'] + now.last());
            } else {
                assert(text@ =~= now[0]);
            }
        }
    }
    assert(texts(lines@).take(i as int) =~= texts(lines@));
    text
}

/// A copy of a list of strings.
pub fn copy_texts(items: &Vec<String>) -> (copy: Vec<String>)
    ensures
        texts(copy@) == texts(items@),
        copy.len() == items.len(),
{
    let mut copy: Vec<String> = Vec::new();
    let mut i: usize = 0;
    while i < items.len()
        invariant
            i <= items.len(),
            copy.len() == i,
            texts(copy@) == texts(items@).take(i as int),
        decreases items.len() - i,
    {
        copy.push(items[i].clone());
        i += 1;
        assert(texts(copy@) =~= texts(items@).take(i as int));
    }
    assert(texts(items@).take(i as int) =~= texts(items@));
    copy
}

/// The characters of a list that is made of two lists are those of the first
/// followed by those of the second.
pub proof fn lemma_texts_of_joined_lists(a: Seq<String>, b: Seq<String>)
    ensures
        texts(a + b) == texts(a) + texts(b),
{
    assert(texts(a + b) =~= texts(a) + texts(b));
}

/// Moves the lines of `more` to the end of `lines`.
pub fn append_lines(lines: &mut Vec<String>, more: Vec<String>)
    ensures
        texts(final(lines)@) == texts(old(lines)@) + texts(more@),
{
    let mut more = more;
    proof {
        lemma_texts_of_joined_lists(lines@, more@);
    }
    lines.append(&mut more);
}

} // verus!
