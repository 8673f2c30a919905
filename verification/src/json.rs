//! Result entries as a pretty-printed JSON array of `{dn, attributes}`
//! objects.
//!
//! The document is laid out here, line by line; each string in it is encoded
//! by `serde_json`.

use vstd::prelude::*;
use vstd::string::*;
use crate::entry::{
    attributes_view, entries_view, Attribute, AttributeView, EntryView, ResultEntry,
};
use crate::error::{ClientError, ErrorKind};
use crate::text::{join, join_lines, texts};

verus! {

/// The JSON string literal for a text, quotes included, as `serde_json`
/// writes it.
pub uninterp spec fn json_string(s: Seq<char>) -> Seq<char>;

/// `serde_json::to_string` on a string slice. It always succeeds: the encoder
/// writes into a byte vector, whose writes do not fail, and a string slice
/// has neither a serializer of its own that could give up nor map keys that
/// could be refused. The text it returns depends on the characters of the
/// slice alone; `json_string` is the name of that text.
#[verifier::external_body]
fn quote(s: &str) -> (r: Option<String>)
    ensures
        r is Some,
        r matches Some(q) ==> q@ == json_string(s@),
{
    serde_json::to_string(s).ok()
}

/// A comma where more items follow, nothing after the last item.
pub open spec fn comma(more: bool) -> Seq<char> {
    if more {
        seq![',']
    } else {
        Seq::empty()
    }
}

/// The lines of the items of an array of strings, each given as a literal.
pub open spec fn value_lines(values: Seq<Seq<char>>) -> Seq<Seq<char>> {
    Seq::new(values.len(), |i: int| "        "@ + values[i] + comma(i + 1 < values.len()))
}

/// The lines of one member of the `attributes` object: the name and the array
/// of its values, name and values given as literals.
pub open spec fn member_lines(a: AttributeView, more: bool) -> Seq<Seq<char>> {
    if a.values.len() == 0 {
        seq!["      "@ + a.name + ": []"@ + comma(more)]
    } else {
        seq!["      "@ + a.name + ": ["@] + value_lines(a.values) + seq!["      ]"@ + comma(more)]
    }
}

/// The lines of the first `count` members of the `attributes` object.
pub open spec fn members_lines(attributes: Seq<AttributeView>, count: nat) -> Seq<Seq<char>>
    decreases count,
{
    if count == 0 {
        Seq::empty()
    } else {
        members_lines(attributes, (count - 1) as nat) + member_lines(
            attributes[count - 1],
            count < attributes.len(),
        )
    }
}

/// The lines of the `attributes` member of an entry's object.
pub open spec fn attributes_member_lines(attributes: Seq<AttributeView>) -> Seq<Seq<char>> {
    if attributes.len() == 0 {
        seq!["    \"attributes\": {}"@]
    } else {
        seq!["    \"attributes\": {"@] + members_lines(attributes, attributes.len()) + seq![
            "    }"@,
        ]
    }
}

/// The lines of the object of one entry, `dn` before `attributes`, every
/// string of the entry given as a literal.
pub open spec fn object_lines(e: EntryView, more: bool) -> Seq<Seq<char>> {
    seq!["  {"@, "    \"dn\": "@ + e.dn + ","@] + attributes_member_lines(e.attributes) + seq![
        "  }"@ + comma(more),
    ]
}

/// The lines of the objects of the first `count` entries.
pub open spec fn objects_lines(entries: Seq<EntryView>, count: nat) -> Seq<Seq<char>>
    decreases count,
{
    if count == 0 {
        Seq::empty()
    } else {
        objects_lines(entries, (count - 1) as nat) + object_lines(
            entries[count - 1],
            count < entries.len(),
        )
    }
}

/// The lines of the document: `[]` for no entry, else the objects of the
/// entries between brackets, indented by two spaces a level.
pub open spec fn document_lines(entries: Seq<EntryView>) -> Seq<Seq<char>> {
    if entries.len() == 0 {
        seq!["[]"@]
    } else {
        seq!["["@] + objects_lines(entries, entries.len()) + seq!["]"@]
    }
}

/// Each text of a list as a JSON string literal.
pub open spec fn quoted_texts(items: Seq<Seq<char>>) -> Seq<Seq<char>> {
    Seq::new(items.len(), |i: int| json_string(items[i]))
}

/// An attribute with its name and values as JSON string literals.
pub open spec fn quoted_attribute(a: AttributeView) -> AttributeView {
    AttributeView { name: json_string(a.name), values: quoted_texts(a.values) }
}

/// An entry with every string of it as a JSON string literal.
pub open spec fn quoted_entry(e: EntryView) -> EntryView {
    EntryView {
        dn: json_string(e.dn),
        attributes: Seq::new(e.attributes.len(), |i: int| quoted_attribute(e.attributes[i])),
    }
}

/// Every entry of a list with its strings as JSON string literals.
pub open spec fn quoted_entries(entries: Seq<EntryView>) -> Seq<EntryView> {
    Seq::new(entries.len(), |i: int| quoted_entry(entries[i]))
}

/// The JSON document for a list of entries.
pub open spec fn json_text(entries: Seq<EntryView>) -> Seq<char> {
    join_lines(document_lines(quoted_entries(entries)))
}

fn push_comma(line: &mut String, more: bool)
    ensures
        final(line)@ == old(line)@ + comma(more),
{
    if more {
        line.push(',');
    }
    assert(final(line)@ =~= old(line)@ + comma(more));
}

/// Lays out one member of the `attributes` object from literals.
pub fn layout_member(a: &Attribute, more: bool) -> (lines: Vec<String>)
    ensures
        texts(lines@) == member_lines(a@, more),
{
    let values = a.values();
    let mut lines: Vec<String> = Vec::new();
    let mut head = String::from_str("      ");
    head.append(a.name());
    head.append(": [");
    lines.push(head);
    let ghost first = texts(lines@);
    let mut k: usize = 0;
    while k < values.len()
        invariant
            k <= values.len(),
            texts(values@) == a@.values,
            texts(lines@) == first + value_lines(a@.values).take(k as int),
        decreases values.len() - k,
    {
        let ghost before = texts(lines@);
        let mut line = String::from_str("        ");
        line.append(values[k].as_str());
        push_comma(&mut line, k + 1 < values.len());
        lines.push(line);
        k += 1;
        proof {
            assert(texts(values@)[k - 1] == values@[k - 1]@);
            assert(texts(lines@) =~= before.push(line@));
            assert(value_lines(a@.values).take(k as int) =~= value_lines(a@.values).take(
                k - 1,
            ).push(line@));
        }
    }
    assert(value_lines(a@.values).take(k as int) =~= value_lines(a@.values));
    let ghost body = texts(lines@);
    let mut tail = String::from_str("      ]");
    push_comma(&mut tail, more);
    lines.push(tail);
    proof {
        assert(texts(values@).len() == values.len());
        assert(first =~= seq!["      "@ + a@.name + ": ["@]);
        assert(texts(lines@) =~= body.push(tail@));
        assert(texts(lines@) =~= member_lines(a@, more));
    }
    lines
}

/// Lays out the object of one entry from literals.
pub fn layout_object(e: &ResultEntry, more: bool) -> (lines: Vec<String>)
    ensures
        texts(lines@) == object_lines(e@, more),
{
    let mut lines: Vec<String> = Vec::new();
    lines.push(String::from_str("  {"));
    let mut name = String::from_str("    \"dn\": ");
    name.append(e.dn());
    name.append(",");
    lines.push(name);
    let attributes = e.attributes();
    let ghost first = texts(lines@);
    assert(first =~= seq!["  {"@, "    \"dn\": "@ + e@.dn + ","@]);
    if attributes.len() == 0 {
        lines.push(String::from_str("    \"attributes\": {}"));
        proof {
            assert(attributes_view(attributes@).len() == attributes.len());
            assert(texts(lines@) =~= first.push("    \"attributes\": {}"@));
            assert(texts(lines@) =~= first + attributes_member_lines(e@.attributes));
        }
    } else {
        lines.push(String::from_str("    \"attributes\": {"));
        let ghost opened = texts(lines@);
        let mut j: usize = 0;
        while j < attributes.len()
            invariant
                j <= attributes.len(),
                attributes_view(attributes@) == e@.attributes,
                texts(lines@) == opened + members_lines(e@.attributes, j as nat),
            decreases attributes.len() - j,
        {
            let more_members = j + 1 < attributes.len();
            let member = layout_member(&attributes[j], more_members);
            crate::text::append_lines(&mut lines, member);
            j += 1;
            proof {
                assert(e@.attributes[j - 1] == attributes@[j - 1]@);
                assert(texts(lines@) =~= opened + members_lines(e@.attributes, j as nat));
            }
        }
        let ghost body = texts(lines@);
        lines.push(String::from_str("    }"));
        proof {
            assert(attributes_view(attributes@).len() == attributes.len());
            assert(opened =~= first.push("    \"attributes\": {"@));
            assert(texts(lines@) =~= body.push("    }"@));
            assert(texts(lines@) =~= first + attributes_member_lines(e@.attributes));
        }
    }
    let ghost body = texts(lines@);
    let mut tail = String::from_str("  }");
    push_comma(&mut tail, more);
    lines.push(tail);
    proof {
        assert(texts(lines@) =~= body.push(tail@));
        assert(texts(lines@) =~= object_lines(e@, more));
    }
    lines
}

/// Lays out the lines of the document from entries whose strings are JSON
/// string literals already: they are written as they are.
pub fn layout_json_lines(entries: &Vec<ResultEntry>) -> (lines: Vec<String>)
    ensures
        texts(lines@) == document_lines(entries_view(entries@)),
{
    let mut lines: Vec<String> = Vec::new();
    let ghost all = entries_view(entries@);
    if entries.len() == 0 {
        lines.push(String::from_str("[]"));
        assert(texts(lines@) =~= document_lines(all));
        return lines;
    }
    lines.push(String::from_str("["));
    let ghost first = texts(lines@);
    let mut i: usize = 0;
    while i < entries.len()
        invariant
            i <= entries.len(),
            all == entries_view(entries@),
            texts(lines@) == first + objects_lines(all, i as nat),
        decreases entries.len() - i,
    {
        let object = layout_object(&entries[i], i + 1 < entries.len());
        crate::text::append_lines(&mut lines, object);
        i += 1;
        proof {
            assert(all[i - 1] == entries@[i - 1]@);
            assert(texts(lines@) =~= first + objects_lines(all, i as nat));
        }
    }
    let ghost body = texts(lines@);
    lines.push(String::from_str("]"));
    proof {
        assert(all.len() == entries.len());
        assert(first =~= seq!["["@]);
        assert(texts(lines@) =~= body.push("]"@));
        assert(texts(lines@) =~= document_lines(all));
    }
    lines
}

/// Lays out the document from entries whose strings are JSON string literals
/// already.
pub fn layout_json(entries: &Vec<ResultEntry>) -> (text: String)
    ensures
        text@ == join_lines(document_lines(entries_view(entries@))),
{
    let lines = layout_json_lines(entries);
    join(&lines)
}

fn quote_texts(items: &Vec<String>) -> (r: Option<Vec<String>>)
    ensures
        r matches Some(q) && texts(q@) == quoted_texts(texts(items@)) && q.len() == items.len(),
{
    let mut quoted: Vec<String> = Vec::new();
    let mut i: usize = 0;
    while i < items.len()
        invariant
            i <= items.len(),
            quoted.len() == i,
            texts(quoted@) == quoted_texts(texts(items@)).take(i as int),
        decreases items.len() - i,
    {
        assert(texts(items@)[i as int] == items@[i as int]@);
        match quote(items[i].as_str()) {
            Some(q) => {
                let ghost before = texts(quoted@);
                quoted.push(q);
                assert(texts(quoted@) =~= before.push(q@));
            },
            None => {
                return None;
            },
        }
        i += 1;
        assert(texts(quoted@) =~= quoted_texts(texts(items@)).take(i as int));
    }
    assert(quoted_texts(texts(items@)).take(i as int) =~= quoted_texts(texts(items@)));
    Some(quoted)
}

fn quote_attribute(a: &Attribute) -> (r: Option<Attribute>)
    ensures
        r matches Some(q) && q@ == quoted_attribute(a@),
{
    let name = match quote(a.name()) {
        Some(name) => name,
        None => {
            return None;
        },
    };
    let values = match quote_texts(a.values()) {
        Some(values) => values,
        None => {
            return None;
        },
    };
    Attribute::new(name.as_str(), &values)
}

fn quote_entry(e: &ResultEntry) -> (r: Option<ResultEntry>)
    ensures
        r matches Some(q) && q@ == quoted_entry(e@),
{
    let dn = match quote(e.dn()) {
        Some(dn) => dn,
        None => {
            return None;
        },
    };
    let attributes = e.attributes();
    let mut quoted: Vec<Attribute> = Vec::new();
    let mut j: usize = 0;
    while j < attributes.len()
        invariant
            j <= attributes.len(),
            attributes_view(attributes@) == e@.attributes,
            attributes_view(quoted@) == quoted_entry(e@).attributes.take(j as int),
        decreases attributes.len() - j,
    {
        assert(e@.attributes[j as int] == attributes@[j as int]@);
        match quote_attribute(&attributes[j]) {
            Some(q) => {
                let ghost before = attributes_view(quoted@);
                quoted.push(q);
                assert(attributes_view(quoted@) =~= before.push(q@));
            },
            None => {
                return None;
            },
        }
        j += 1;
        assert(attributes_view(quoted@) =~= quoted_entry(e@).attributes.take(j as int));
    }
    assert(quoted_entry(e@).attributes.take(j as int) =~= quoted_entry(e@).attributes);
    let q = ResultEntry::new(dn.as_str(), quoted);
    assert(q@ == quoted_entry(e@));
    Some(q)
}

/// Renders entries as a JSON array, one object for each entry in the order
/// given, `dn` before `attributes`, the attributes and their values in their
/// order. It does not fail: the encoder gives a literal for every string.
pub fn render_json(entries: &Vec<ResultEntry>) -> (r: Result<String, ClientError>)
    ensures
        r matches Ok(text) && text@ == json_text(entries_view(entries@)),
{
    let ghost all = entries_view(entries@);
    let mut quoted: Vec<ResultEntry> = Vec::new();
    let mut i: usize = 0;
    while i < entries.len()
        invariant
            i <= entries.len(),
            all == entries_view(entries@),
            entries_view(quoted@) == quoted_entries(all).take(i as int),
        decreases entries.len() - i,
    {
        assert(all[i as int] == entries@[i as int]@);
        match quote_entry(&entries[i]) {
            Some(q) => {
                let ghost before = entries_view(quoted@);
                quoted.push(q);
                assert(entries_view(quoted@) =~= before.push(q@));
            },
            None => {
                // Never taken: the encoder gives a literal for every string.
                return Err(
                    ClientError::plain(
                        ErrorKind::Unexpected,
                        String::from_str("Failed to encode the result as JSON"),
                    ),
                );
            },
        }
        i += 1;
        assert(entries_view(quoted@) =~= quoted_entries(all).take(i as int));
    }
    assert(quoted_entries(all).take(i as int) =~= quoted_entries(all));
    Ok(layout_json(&quoted))
}

} // verus!
