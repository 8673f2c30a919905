//! Result entries: a distinguished name and its attributes, each attribute a
//! name with one or more values, all in the order in which they were given.

use vstd::prelude::*;
use vstd::string::*;
use crate::text::{copy_texts, texts};

verus! {

/// What an attribute holds: its name and its values, in order.
pub struct AttributeView {
    pub name: Seq<char>,
    pub values: Seq<Seq<char>>,
}

/// What a result entry holds: its distinguished name and its attributes, in
/// order.
pub struct EntryView {
    pub dn: Seq<char>,
    pub attributes: Seq<AttributeView>,
}

/// A named attribute of an entry. It always holds at least one value.
#[derive(Debug, PartialEq, Eq)]
pub struct Attribute {
    name: String,
    values: Vec<String>,
}

/// One entry of a search result.
#[derive(Debug, PartialEq, Eq)]
pub struct ResultEntry {
    dn: String,
    attributes: Vec<Attribute>,
}

impl View for Attribute {
    type V = AttributeView;

    closed spec fn view(&self) -> AttributeView {
        AttributeView { name: self.name@, values: texts(self.values@) }
    }
}

/// What each attribute of a list holds.
pub open spec fn attributes_view(items: Seq<Attribute>) -> Seq<AttributeView> {
    Seq::new(items.len(), |i: int| items[i]@)
}

impl View for ResultEntry {
    type V = EntryView;

    closed spec fn view(&self) -> EntryView {
        EntryView { dn: self.dn@, attributes: attributes_view(self.attributes@) }
    }
}

/// What each entry of a list holds.
pub open spec fn entries_view(items: Seq<ResultEntry>) -> Seq<EntryView> {
    Seq::new(items.len(), |i: int| items[i]@)
}

/// A raw attribute as a directory client hands it over: a name and a list of
/// values that may be empty.
pub open spec fn pair_view(pair: (String, Vec<String>)) -> AttributeView {
    AttributeView { name: pair.0@, values: texts(pair.1@) }
}

/// What each raw attribute of a list holds.
pub open spec fn pairs_view(pairs: Seq<(String, Vec<String>)>) -> Seq<AttributeView> {
    Seq::new(pairs.len(), |i: int| pair_view(pairs[i]))
}

/// The attributes of a list that hold at least one value, in their order.
pub open spec fn with_values(raw: Seq<AttributeView>) -> Seq<AttributeView>
    decreases raw.len(),
{
    if raw.len() == 0 {
        Seq::empty()
    } else if raw.last().values.len() > 0 {
        with_values(raw.drop_last()).push(raw.last())
    } else {
        with_values(raw.drop_last())
    }
}

impl Clone for Attribute {
    fn clone(&self) -> (copy: Attribute) {
        self.copy()
    }
}

impl Clone for ResultEntry {
    fn clone(&self) -> (copy: ResultEntry) {
        self.copy()
    }
}

impl Attribute {
    #[verifier::type_invariant]
    spec fn holds_a_value(&self) -> bool {
        self.values.len() >= 1
    }

    /// An attribute with the given name and values. There is none without a
    /// value.
    pub fn new(name: &str, values: &Vec<String>) -> (r: Option<Attribute>)
        ensures
            r is Some <==> values.len() >= 1,
            r matches Some(a) ==> a@.name == name@ && a@.values == texts(values@),
    {
        if values.len() == 0 {
            None
        } else {
            Some(Attribute { name: String::from_str(name), values: copy_texts(values) })
        }
    }

    /// A copy that holds the same name and values.
    pub fn copy(&self) -> (copy: Attribute)
        ensures
            copy@ == self@,
    {
        proof {
            use_type_invariant(self);
        }
        Attribute { name: self.name.clone(), values: copy_texts(&self.values) }
    }

    /// The attribute's name.
    pub fn name(&self) -> (name: &str)
        ensures
            name@ == self@.name,
    {
        self.name.as_str()
    }

    /// The attribute's values, of which there is at least one.
    pub fn values(&self) -> (values: &Vec<String>)
        ensures
            texts(values@) == self@.values,
            values.len() >= 1,
    {
        proof {
            use_type_invariant(self);
        }
        &self.values
    }
}

impl ResultEntry {
    /// An entry with the given name and attributes.
    pub fn new(dn: &str, attributes: Vec<Attribute>) -> (e: ResultEntry)
        ensures
            e@.dn == dn@,
            e@.attributes == attributes_view(attributes@),
    {
        ResultEntry { dn: String::from_str(dn), attributes }
    }

    /// Builds an entry from a name and raw attributes. Attributes without a
    /// value are left out; the others keep their order and their values.
    pub fn normalize(dn: &str, raw: &Vec<(String, Vec<String>)>) -> (e: ResultEntry)
        ensures
            e@.dn == dn@,
            e@.attributes == with_values(pairs_view(raw@)),
    {
        let mut attributes: Vec<Attribute> = Vec::new();
        let mut i: usize = 0;
        while i < raw.len()
            invariant
                i <= raw.len(),
                attributes_view(attributes@) == with_values(pairs_view(raw@).take(i as int)),
            decreases raw.len() - i,
        {
            let ghost upto = pairs_view(raw@).take(i + 1);
            assert(upto.drop_last() =~= pairs_view(raw@).take(i as int));
            assert(upto.last() == pair_view(raw@[i as int]));
            let ghost before = attributes@;
            match Attribute::new(raw[i].0.as_str(), &raw[i].1) {
                Some(a) => {
                    attributes.push(a);
                    assert(attributes_view(attributes@) =~= attributes_view(before).push(a@));
                },
                None => {},
            }
            i += 1;
        }
        assert(pairs_view(raw@).take(i as int) =~= pairs_view(raw@));
        ResultEntry { dn: String::from_str(dn), attributes }
    }

    /// A copy that holds the same name and attributes.
    pub fn copy(&self) -> (copy: ResultEntry)
        ensures
            copy@ == self@,
    {
        let mut attributes: Vec<Attribute> = Vec::new();
        let mut i: usize = 0;
        while i < self.attributes.len()
            invariant
                i <= self.attributes.len(),
                attributes_view(attributes@) == attributes_view(self.attributes@).take(i as int),
            decreases self.attributes.len() - i,
        {
            let ghost before = attributes@;
            let a = self.attributes[i].copy();
            attributes.push(a);
            i += 1;
            assert(attributes_view(attributes@) =~= attributes_view(before).push(a@));
            assert(attributes_view(attributes@) =~= attributes_view(self.attributes@).take(
                i as int,
            ));
        }
        assert(attributes_view(self.attributes@).take(i as int) =~= attributes_view(
            self.attributes@,
        ));
        ResultEntry { dn: self.dn.clone(), attributes }
    }

    /// The entry's distinguished name.
    pub fn dn(&self) -> (dn: &str)
        ensures
            dn@ == self@.dn,
    {
        self.dn.as_str()
    }

    /// The entry's attributes, in order.
    pub fn attributes(&self) -> (attributes: &Vec<Attribute>)
        ensures
            attributes_view(attributes@) == self@.attributes,
    {
        &self.attributes
    }
}

} // verus!
