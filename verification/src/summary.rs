//! The report on the traits of each collection: every distinct trait name,
//! once, under the heading of its collection.

use crate::collection::Collection;
use crate::text::texts;
use vstd::prelude::*;

verus! {

/// The heading of the report on `collection`.
pub open spec fn heading(collection: Collection) -> Seq<char> {
    match collection {
        Collection::Xalt => "XALT Traits"@,
        Collection::Xape => "XAPE Traits"@,
    }
}

/// The line of the report for one trait: its name, indented by two spaces.
pub open spec fn entry(trait_type: Seq<char>) -> Seq<char> {
    "  "@ + trait_type
}

/// The lines for `trait_types`: one for each, in their order.
pub open spec fn entries(trait_types: Seq<Seq<char>>) -> Seq<Seq<char>> {
    Seq::new(trait_types.len(), |i: int| entry(trait_types[i]))
}

/// The report on one collection: its heading, a line for each of its
/// traits, and an empty line.
pub open spec fn section(collection: Collection, trait_types: Seq<Seq<char>>) -> Seq<Seq<char>> {
    seq![heading(collection)] + entries(trait_types) + seq![Seq::<char>::empty()]
}

/// The whole report: the section of the xalt collection, then that of the
/// xape collection.
pub open spec fn report(xalt_traits: Seq<Seq<char>>, xape_traits: Seq<Seq<char>>) -> Seq<Seq<char>> {
    section(Collection::Xalt, xalt_traits) + section(Collection::Xape, xape_traits)
}

/// The report on a collection lists every trait name given, each on its
/// own line and in the order given, between the heading and an empty line.
pub proof fn lemma_section_lists_every_name(collection: Collection, trait_types: Seq<Seq<char>>, i: int)
    requires
        0 <= i < trait_types.len(),
    ensures
        section(collection, trait_types).len() == trait_types.len() + 2,
        section(collection, trait_types)[0] == heading(collection),
        section(collection, trait_types)[i + 1] == entry(trait_types[i]),
        section(collection, trait_types).last() == Seq::<char>::empty(),
{
}

/// Appends the report on one collection to `lines`.
fn push_section(lines: &mut Vec<String>, collection: Collection, trait_types: &Vec<String>)
    ensures
        texts(final(lines)@) == texts(old(lines)@) + section(collection, texts(trait_types@)),
{
    let ghost before = texts(lines@);
    let ghost names = texts(trait_types@);
    let title = match collection {
        Collection::Xalt => "XALT Traits",
        Collection::Xape => "XAPE Traits",
    };
    lines.push(title.to_owned());
    assert(texts(lines@) =~= before + seq![heading(collection)]);
    let mut i: usize = 0;
    while i < trait_types.len()
        invariant
            i <= trait_types.len(),
            names == texts(trait_types@),
            texts(lines@) == before + seq![heading(collection)] + entries(names).subrange(0, i as int),
        decreases trait_types.len() - i,
    {
        let ghost shown = texts(lines@);
        lines.push("  ".to_owned().concat(trait_types[i].as_str()));
        assert(texts(lines@) =~= shown.push(entry(names[i as int])));
        assert(entries(names).subrange(0, i + 1) =~= entries(names).subrange(0, i as int).push(
            entry(names[i as int]),
        ));
        i = i + 1;
    }
    assert(entries(names).subrange(0, trait_types.len() as int) =~= entries(names));
    let ghost shown = texts(lines@);
    lines.push(String::new());
    assert(texts(lines@) =~= shown.push(Seq::<char>::empty()));
    assert(texts(lines@) =~= before + section(collection, names));
}

/// The lines of the report on one collection, given its trait names.
pub fn summarize_collection(collection: Collection, trait_types: &Vec<String>) -> (lines: Vec<String>)
    ensures
        texts(lines@) == section(collection, texts(trait_types@)),
{
    let mut lines: Vec<String> = Vec::new();
    assert(texts(lines@) =~= Seq::empty());
    push_section(&mut lines, collection, trait_types);
    assert(texts(lines@) =~= section(collection, texts(trait_types@)));
    lines
}

/// The lines of the report on the traits of both collections, given the
/// trait names of each.
pub fn summarize(xalt_traits: &Vec<String>, xape_traits: &Vec<String>) -> (lines: Vec<String>)
    ensures
        texts(lines@) == report(texts(xalt_traits@), texts(xape_traits@)),
{
    let mut lines: Vec<String> = Vec::new();
    assert(texts(lines@) =~= Seq::empty());
    push_section(&mut lines, Collection::Xalt, xalt_traits);
    push_section(&mut lines, Collection::Xape, xape_traits);
    assert(texts(lines@) =~= report(texts(xalt_traits@), texts(xape_traits@)));
    lines
}

} // verus!
