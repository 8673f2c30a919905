//! Result entries as indented, human-readable text blocks.

use vstd::prelude::*;
use vstd::string::*;
use crate::entry::{
    attributes_view, entries_view, Attribute, AttributeView, EntryView, ResultEntry,
};
use crate::text::{append_lines, decimal, join, join_lines, push_decimal, rule, rule_line, texts};

verus! {

/// One bullet line for each value of a list.
pub open spec fn bullet_lines(values: Seq<Seq<char>>) -> Seq<Seq<char>> {
    Seq::new(values.len(), |i: int| "    - "@ + values[i])
}

/// The lines of one attribute: `name: value` on one line where it has exactly
/// one value, else `name:` followed by one bullet line for each value.
pub open spec fn attribute_lines(a: AttributeView) -> Seq<Seq<char>> {
    if a.values.len() == 1 {
        seq!["  "@ + a.name + ": "@ + a.values[0]]
    } else {
        seq!["  "@ + a.name + ":"@] + bullet_lines(a.values)
    }
}

/// The lines of a list of attributes, one attribute after the other.
pub open spec fn attributes_lines(attributes: Seq<AttributeView>) -> Seq<Seq<char>>
    decreases attributes.len(),
{
    if attributes.len() == 0 {
        Seq::empty()
    } else {
        attributes_lines(attributes.drop_last()) + attribute_lines(attributes.last())
    }
}

/// The block of one entry: its position and name, a rule of 40 hyphens, its
/// attributes, and an empty line.
pub open spec fn entry_block(position: nat, e: EntryView) -> Seq<Seq<char>> {
    seq!["Entry #"@ + decimal(position) + ": "@ + e.dn, rule('-', 40)] + attributes_lines(
        e.attributes,
    ) + seq![Seq::empty()]
}

/// The blocks of a list of entries, numbered from one in the order given.
pub open spec fn entry_blocks(entries: Seq<EntryView>) -> Seq<Seq<char>>
    decreases entries.len(),
{
    if entries.len() == 0 {
        Seq::empty()
    } else {
        entry_blocks(entries.drop_last()) + entry_block(entries.len(), entries.last())
    }
}

/// The lines of the table: for no entry the one line `No entries found.`,
/// else a line with the count, a rule of 80 equals signs, and the blocks.
pub open spec fn table_lines(entries: Seq<EntryView>) -> Seq<Seq<char>> {
    if entries.len() == 0 {
        seq!["No entries found."@]
    } else {
        seq!["Found "@ + decimal(entries.len()) + " entries:"@, rule('=', 80)] + entry_blocks(
            entries,
        )
    }
}

/// The lines of one attribute.
pub fn render_attribute(a: &Attribute) -> (lines: Vec<String>)
    ensures
        texts(lines@) == attribute_lines(a@),
{
    let values = a.values();
    let mut lines: Vec<String> = Vec::new();
    if values.len() == 1 {
        let mut line = String::from_str("  ");
        line.append(a.name());
        line.append(": ");
        line.append(values[0].as_str());
        lines.push(line);
        assert(texts(lines@) =~= attribute_lines(a@));
    } else {
        let mut head = String::from_str("  ");
        head.append(a.name());
        head.append(":");
        lines.push(head);
        let ghost first = texts(lines@);
        let mut k: usize = 0;
        while k < values.len()
            invariant
                k <= values.len(),
                texts(values@) == a@.values,
                texts(lines@) == first + bullet_lines(a@.values.take(k as int)),
            decreases values.len() - k,
        {
            let ghost before = texts(lines@);
            let mut bullet = String::from_str("    - ");
            bullet.append(values[k].as_str());
            lines.push(bullet);
            k += 1;
            proof {
                assert(texts(values@)[k - 1] == values@[k - 1]@);
                assert(texts(lines@) =~= before.push(bullet@));
                assert(bullet_lines(a@.values.take(k as int)) =~= bullet_lines(
                    a@.values.take(k - 1),
                ).push(bullet@));
            }
        }
        assert(a@.values.take(k as int) =~= a@.values);
        assert(texts(lines@) =~= attribute_lines(a@));
    }
    lines
}

/// The block of the entry at a position, counted from one.
pub fn render_entry(position: usize, e: &ResultEntry) -> (lines: Vec<String>)
    ensures
        texts(lines@) == entry_block(position as nat, e@),
{
    let mut head = String::from_str("Entry #");
    push_decimal(&mut head, position);
    head.append(": ");
    head.append(e.dn());
    let mut lines: Vec<String> = Vec::new();
    lines.push(head);
    lines.push(rule_line('-', 40));
    let ghost first = texts(lines@);
    assert(first =~= seq!["Entry #"@ + decimal(position as nat) + ": "@ + e@.dn, rule('-', 40)]);
    let attributes = e.attributes();
    let mut j: usize = 0;
    while j < attributes.len()
        invariant
            j <= attributes.len(),
            attributes_view(attributes@) == e@.attributes,
            texts(lines@) == first + attributes_lines(e@.attributes.take(j as int)),
        decreases attributes.len() - j,
    {
        let more = render_attribute(&attributes[j]);
        append_lines(&mut lines, more);
        j += 1;
        proof {
            let upto = e@.attributes.take(j as int);
            assert(upto.drop_last() =~= e@.attributes.take(j - 1));
            assert(upto.last() == attributes@[j - 1]@);
            assert(texts(lines@) =~= first + attributes_lines(upto));
        }
    }
    assert(e@.attributes.take(j as int) =~= e@.attributes);
    lines.push(String::new());
    assert(texts(lines@) =~= entry_block(position as nat, e@));
    lines
}

/// The lines of the table for a list of entries.
pub fn render_table_lines(entries: &Vec<ResultEntry>) -> (lines: Vec<String>)
    ensures
        texts(lines@) == table_lines(entries_view(entries@)),
{
    let mut lines: Vec<String> = Vec::new();
    if entries.len() == 0 {
        lines.push(String::from_str("No entries found."));
        assert(texts(lines@) =~= table_lines(entries_view(entries@)));
        return lines;
    }
    let mut head = String::from_str("Found ");
    push_decimal(&mut head, entries.len());
    head.append(" entries:");
    lines.push(head);
    lines.push(rule_line('=', 80));
    let ghost first = texts(lines@);
    let ghost all = entries_view(entries@);
    assert(first =~= seq!["Found "@ + decimal(all.len()) + " entries:"@, rule('=', 80)]);
    let mut i: usize = 0;
    while i < entries.len()
        invariant
            i <= entries.len(),
            all == entries_view(entries@),
            texts(lines@) == first + entry_blocks(all.take(i as int)),
        decreases entries.len() - i,
    {
        let more = render_entry(i + 1, &entries[i]);
        append_lines(&mut lines, more);
        i += 1;
        proof {
            let upto = all.take(i as int);
            assert(upto.drop_last() =~= all.take(i - 1));
            assert(upto.last() == entries@[i - 1]@);
            assert(texts(lines@) =~= first + entry_blocks(upto));
        }
    }
    assert(all.take(i as int) =~= all);
    lines
}

/// The table as one text: its lines, a line feed between each two of them.
pub fn render_table(entries: &Vec<ResultEntry>) -> (text: String)
    ensures
        text@ == join_lines(table_lines(entries_view(entries@))),
{
    let lines = render_table_lines(entries);
    join(&lines)
}

} // verus!
