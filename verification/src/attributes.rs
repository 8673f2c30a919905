//! The list of attribute names that a search asks for.

use vstd::prelude::*;
use vstd::string::*;
use crate::text::{chars_of, string_of, texts, white_space};

verus! {

/// A text cut at every comma. Every comma ends one piece and starts the next,
/// so a text with `k` commas has `k + 1` pieces, some of them possibly empty.
pub open spec fn split_at_commas(s: Seq<char>) -> Seq<Seq<char>>
    decreases s.len(),
{
    if s.len() == 0 {
        seq![Seq::empty()]
    } else {
        let before = split_at_commas(s.drop_last());
        if s.last() == ',' {
            before.push(Seq::empty())
        } else {
            before.drop_last().push(before.last().push(s.last()))
        }
    }
}

/// A text without its leading whitespace.
pub open spec fn trim_start(s: Seq<char>) -> Seq<char>
    decreases s.len(),
{
    if s.len() > 0 && white_space(s[0]) {
        trim_start(s.drop_first())
    } else {
        s
    }
}

/// A text without its trailing whitespace.
pub open spec fn trim_end(s: Seq<char>) -> Seq<char>
    decreases s.len(),
{
    if s.len() > 0 && white_space(s.last()) {
        trim_end(s.drop_last())
    } else {
        s
    }
}

/// A text without the whitespace that surrounds it.
pub open spec fn trimmed(s: Seq<char>) -> Seq<char> {
    trim_end(trim_start(s))
}

/// Every piece of a list, trimmed.
pub open spec fn trim_each(pieces: Seq<Seq<char>>) -> Seq<Seq<char>> {
    Seq::new(pieces.len(), |i: int| trimmed(pieces[i]))
}

/// The attribute selector that asks for every attribute.
pub open spec fn all_attributes() -> Seq<Seq<char>> {
    seq![seq!['*']]
}

/// The attribute names that a comma-separated list stands for: without a list
/// the wildcard alone, else the pieces between the commas, each trimmed, in
/// their order, repetitions and empty names kept.
pub open spec fn attribute_names(csv: Option<Seq<char>>) -> Seq<Seq<char>> {
    match csv {
        None => all_attributes(),
        Some(s) => trim_each(split_at_commas(s)),
    }
}

/// A split text has at least one piece.
pub proof fn lemma_split_is_not_empty(s: Seq<char>)
    ensures
        split_at_commas(s).len() >= 1,
    decreases s.len(),
{
    if s.len() > 0 {
        lemma_split_is_not_empty(s.drop_last());
    }
}

/// Pieces joined into one text, a comma between each two of them.
pub open spec fn joined_by_commas(pieces: Seq<Seq<char>>) -> Seq<char>
    decreases pieces.len(),
{
    if pieces.len() == 0 {
        Seq::empty()
    } else if pieces.len() == 1 {
        pieces[0]
    } else {
        joined_by_commas(pieces.drop_last()) + seq![','] + pieces.last()
    }
}

/// Cutting a text at its commas loses nothing but the commas: the pieces,
/// joined by commas again, are the text, and no piece holds a comma.
pub proof fn lemma_split_rejoins(s: Seq<char>)
    ensures
        joined_by_commas(split_at_commas(s)) == s,
        forall|i: int, j: int|
            0 <= i < split_at_commas(s).len() && 0 <= j < split_at_commas(s)[i].len()
                ==> split_at_commas(s)[i][j] != ',',
    decreases s.len(),
{
    let pieces = split_at_commas(s);
    if s.len() == 0 {
        assert(joined_by_commas(pieces) =~= s);
    } else {
        let before = split_at_commas(s.drop_last());
        lemma_split_rejoins(s.drop_last());
        lemma_split_is_not_empty(s.drop_last());
        if s.last() == ',' {
            assert(pieces.drop_last() =~= before);
            assert(joined_by_commas(pieces) =~= s);
        } else {
            let grown = before.last().push(s.last());
            assert(pieces.drop_last() =~= before.drop_last());
            assert(pieces.last() == grown);
            if before.len() == 1 {
                assert(joined_by_commas(pieces) =~= s);
            } else {
                assert(joined_by_commas(pieces) =~= joined_by_commas(before).push(s.last()));
                assert(joined_by_commas(pieces) =~= s);
            }
        }
    }
}

/// A text with its leading whitespace cut off is empty or starts with a
/// character that is no whitespace, and it is the end of the text it came
/// from.
pub proof fn lemma_trim_start_is_tight(s: Seq<char>)
    ensures
        trim_start(s).len() > 0 ==> !white_space(trim_start(s).first()),
        trim_start(s).len() <= s.len(),
        trim_start(s) == s.skip(s.len() - trim_start(s).len()),
        forall|i: int| 0 <= i < s.len() - trim_start(s).len() ==> white_space(s[i]),
    decreases s.len(),
{
    if s.len() > 0 && white_space(s[0]) {
        let rest = s.drop_first();
        lemma_trim_start_is_tight(rest);
        let cut = rest.len() - trim_start(rest).len();
        assert(rest.skip(cut) =~= s.skip(cut + 1));
        assert forall|i: int| 0 <= i < s.len() - trim_start(s).len() implies white_space(s[i]) by {
            if i > 0 {
                assert(s[i] == rest[i - 1]);
            }
        }
    } else {
        assert(s.skip(0) =~= s);
    }
}

/// A text with its trailing whitespace cut off is empty or ends with a
/// character that is no whitespace, and it is the start of the text it came
/// from.
pub proof fn lemma_trim_end_is_tight(s: Seq<char>)
    ensures
        trim_end(s).len() > 0 ==> !white_space(trim_end(s).last()),
        trim_end(s).len() <= s.len(),
        trim_end(s) == s.take(trim_end(s).len() as int),
        forall|i: int| trim_end(s).len() <= i < s.len() ==> white_space(s[i]),
    decreases s.len(),
{
    if s.len() > 0 && white_space(s.last()) {
        let rest = s.drop_last();
        lemma_trim_end_is_tight(rest);
        assert(rest.take(trim_end(rest).len() as int) =~= s.take(trim_end(rest).len() as int));
        assert forall|i: int| trim_end(s).len() <= i < s.len() implies white_space(s[i]) by {
            if i < s.len() - 1 {
                assert(s[i] == rest[i]);
            }
        }
    } else {
        assert(s.take(s.len() as int) =~= s);
    }
}

/// A trimmed text neither starts nor ends with whitespace, and it is the part
/// of the text between a run of whitespace at its start and one at its end.
pub proof fn lemma_trimmed_is_tight(s: Seq<char>)
    ensures
        trimmed(s).len() > 0 ==> !white_space(trimmed(s).first()) && !white_space(
            trimmed(s).last(),
        ),
        exists|a: int, b: int|
            {
                &&& 0 <= a <= b <= s.len()
                &&& trimmed(s) == #[trigger] s.subrange(a, b)
                &&& forall|i: int| 0 <= i < a ==> white_space(s[i])
                &&& forall|i: int| b <= i < s.len() ==> white_space(s[i])
            },
{
    let t = trim_start(s);
    lemma_trim_start_is_tight(s);
    lemma_trim_end_is_tight(t);
    let a = s.len() - t.len();
    let b = a + trimmed(s).len();
    assert(trimmed(s) =~= s.subrange(a, b));
    assert forall|i: int| b <= i < s.len() implies white_space(s[i]) by {
        assert(s[i] == t[i - a]);
    }
    if trimmed(s).len() > 0 {
        assert(trimmed(s).first() == t.first());
    }
}

/// The characters `chars[from..to]` without surrounding whitespace.
pub fn trimmed_string(chars: &Vec<char>, from: usize, to: usize) -> (s: String)
    requires
        from <= to <= chars.len(),
    ensures
        s@ == trimmed(chars@.subrange(from as int, to as int)),
{
    let mut a: usize = from;
    while a < to && chars[a].is_whitespace()
        invariant
            from <= a <= to <= chars.len(),
            trim_start(chars@.subrange(from as int, to as int)) == trim_start(
                chars@.subrange(a as int, to as int),
            ),
        decreases to - a,
    {
        assert(chars@.subrange(a as int, to as int).drop_first() =~= chars@.subrange(
            a + 1,
            to as int,
        ));
        a += 1;
    }
    let mut b: usize = to;
    while b > a && chars[b - 1].is_whitespace()
        invariant
            a <= b <= to <= chars.len(),
            trim_end(chars@.subrange(a as int, to as int)) == trim_end(
                chars@.subrange(a as int, b as int),
            ),
        decreases b - a,
    {
        assert(chars@.subrange(a as int, b as int).drop_last() =~= chars@.subrange(
            a as int,
            b - 1,
        ));
        b -= 1;
    }
    string_of(chars, a, b)
}

/// Resolves the attribute list of a search. Without a list the result is the
/// wildcard `*` alone. With one, it is cut at the commas and each piece is
/// trimmed; order, repetitions and empty pieces stay as they are, and no name
/// is checked.
pub fn resolve_attributes(csv: Option<&str>) -> (names: Vec<String>)
    ensures
        texts(names@) == attribute_names(
            match csv {
                Some(s) => Some(s@),
                None => None,
            },
        ),
{
    let mut names: Vec<String> = Vec::new();
    match csv {
        None => {
            let mut star = String::new();
            star.push('*');
            names.push(star);
            assert(texts(names@) =~= all_attributes());
        },
        Some(s) => {
            let chars = chars_of(s);
            let n: usize = chars.len();
            let ghost mut raw: Seq<Seq<char>> = Seq::empty();
            let mut start: usize = 0;
            let mut i: usize = 0;
            assert(chars@.take(0).len() == 0);
            assert(chars@.subrange(0, 0) =~= Seq::<char>::empty());
            assert(split_at_commas(chars@.take(0)) =~= raw.push(chars@.subrange(0, 0)));
            assert(texts(names@) =~= trim_each(raw));
            while i < n
                invariant
                    start <= i <= n,
                    n == chars.len(),
                    split_at_commas(chars@.take(i as int)) == raw.push(
                        chars@.subrange(start as int, i as int),
                    ),
                    texts(names@) == trim_each(raw),
                decreases n - i,
            {
                let ghost upto = chars@.take(i + 1);
                let ghost piece = chars@.subrange(start as int, i as int);
                assert(upto.drop_last() =~= chars@.take(i as int));
                assert(upto.last() == chars@[i as int]);
                if chars[i] == ',' {
                    let name = trimmed_string(&chars, start, i);
                    let ghost names_before = names@;
                    let ghost raw_before = raw;
                    names.push(name);
                    proof {
                        raw = raw.push(piece);
                        assert(texts(names_before).len() == trim_each(raw_before).len());
                        assert forall|j: int| 0 <= j < names@.len() implies texts(names@)[j]
                            == trim_each(raw)[j] by {
                            if j < names_before.len() {
                                assert(texts(names_before)[j] == trim_each(raw_before)[j]);
                            }
                        }
                        assert(texts(names@) =~= trim_each(raw));
                        assert(chars@.subrange(i + 1, i + 1) =~= Seq::<char>::empty());
                    }
                    start = i + 1;
                } else {
                    assert(raw.push(piece).drop_last() =~= raw);
                    assert(piece.push(chars@[i as int]) =~= chars@.subrange(
                        start as int,
                        i + 1,
                    ));
                }
                i += 1;
            }
            assert(chars@.take(n as int) =~= chars@);
            let name = trimmed_string(&chars, start, n);
            let ghost names_before = names@;
            names.push(name);
            proof {
                let pieces = raw.push(chars@.subrange(start as int, n as int));
                assert forall|j: int| 0 <= j < names@.len() implies texts(names@)[j] == trim_each(
                    pieces,
                )[j] by {
                    if j < names_before.len() {
                        assert(texts(names_before)[j] == trim_each(raw)[j]);
                    }
                }
                assert(texts(names@) =~= trim_each(pieces));
            }
        },
    }
    names
}

} // verus!
