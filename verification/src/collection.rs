//! Listings and the block of text that offers one to the picker.
//!
//! A block holds one line for each item of a listing, in the order of the
//! listing, with a newline between each two lines and none after the last.
//! The line of a stack is its name; the line of a resource is its record.

use vstd::prelude::*;
use crate::resource::{Resource, ResourceView, decoded, encoded, lemma_decode_encode};
use crate::text::{free_of, join, joined, lemma_pieces_of_joined, pieces, texts};

verus! {

/// The block of the given lines.
pub open spec fn block(lines: Seq<Seq<char>>) -> Seq<char> {
    joined(lines, seq!['\n'])
}

/// The records of the given resources, each in the place of its resource.
pub open spec fn records(resources: Seq<ResourceView>) -> Seq<Seq<char>> {
    Seq::new(resources.len(), |i: int| encoded(resources[i]))
}

/// No line is empty.
pub open spec fn all_named(lines: Seq<Seq<char>>) -> bool {
    forall|i: int| 0 <= i < lines.len() ==> (#[trigger] lines[i]).len() > 0
}

/// A block is empty exactly where it has no line, or one line that is empty.
pub proof fn lemma_block_empty(lines: Seq<Seq<char>>)
    ensures
        block(lines).len() == 0 <==> lines.len() == 0 || (lines.len() == 1 && lines[0].len()
            == 0),
{
}

/// The block of resources is empty exactly where there are none, for no
/// record is empty.
pub proof fn lemma_records_block_empty(resources: Seq<ResourceView>)
    ensures
        block(records(resources)).len() == 0 <==> resources.len() == 0,
{
    lemma_block_empty(records(resources));
    if resources.len() == 1 {
        reveal_strlit(" (");
        assert(encoded(resources[0]).len() > 0);
    }
}

/// The names of the stacks to choose from, in the order of the provider's
/// listing.
#[derive(Debug, PartialEq, Eq)]
pub struct Stacks(pub Vec<String>);

impl View for Stacks {
    type V = Seq<Seq<char>>;

    /// The names.
    open spec fn view(&self) -> Seq<Seq<char>> {
        texts(self.0@)
    }
}

impl Stacks {
    /// A stack has a name: none of the names is empty.
    pub open spec fn well_formed(&self) -> bool {
        all_named(self@)
    }

    /// The block that offers these stacks: one name on each line. No stacks
    /// give the empty block.
    pub fn encode(&self) -> (text: String)
        ensures
            text@ == block(self@),
    {
        proof {
            reveal_strlit("\n");
            assert("\n"@ =~= seq!['\n']);
        }
        join(&self.0, "\n")
    }
}

impl Into<String> for Stacks {
    /// The block that offers the stacks.
    fn into(self) -> (text: String)
        ensures
            block(self@) == String::view(&text),
    {
        self.encode()
    }
}

/// What `into` returns is stated by its `ensures`.
impl vstd::std_specs::convert::IntoSpecImpl<String> for Stacks {
    open spec fn obeys_into_spec() -> bool {
        false
    }

    open spec fn into_spec(self) -> String {
        arbitrary()
    }
}

/// The resources of a stack, in the order of the provider's listing.
#[derive(Debug, PartialEq, Eq)]
pub struct Resources(pub Vec<Resource>);

impl View for Resources {
    type V = Seq<ResourceView>;

    open spec fn view(&self) -> Seq<ResourceView> {
        Seq::new(self.0@.len(), |i: int| self.0@[i]@)
    }
}

impl Clone for Resources {
    /// A listing of the same resources in the same order.
    fn clone(&self) -> (copy: Self)
        ensures
            copy@ == self@,
    {
        let mut items: Vec<Resource> = Vec::new();
        let mut i: usize = 0;
        while i < self.0.len()
            invariant
                i <= self.0.len(),
                items@.len() == i,
                forall|k: int| 0 <= k < i ==> items@[k]@ == self.0@[k]@,
            decreases self.0.len() - i,
        {
            items.push(self.0[i].clone());
            i = i + 1;
        }
        let copy = Resources(items);
        assert(copy@ =~= self@);
        copy
    }
}

impl Resources {
    /// The listing of the given resources, in their order.
    pub fn from_iter(items: Vec<Resource>) -> (resources: Resources)
        ensures
            resources.0 == items,
    {
        Resources(items)
    }

    /// The block that offers these resources: one record on each line. No
    /// resources give the empty block.
    pub fn encode(&self) -> (text: String)
        ensures
            text@ == block(records(self@)),
    {
        let mut lines: Vec<String> = Vec::new();
        let mut i: usize = 0;
        while i < self.0.len()
            invariant
                i <= self.0.len(),
                lines@.len() == i,
                texts(lines@) == records(self@).take(i as int),
            decreases self.0.len() - i,
        {
            let ghost done = lines@;
            let line = self.0[i].encode();
            lines.push(line);
            proof {
                assert forall|k: int| 0 <= k < i + 1 implies texts(lines@)[k] == records(
                    self@,
                ).take(i + 1)[k] by {
                    if k < i {
                        assert(lines@[k] == done[k]);
                        assert(texts(done)[k] == records(self@).take(i as int)[k]);
                    } else {
                        assert(lines@[k]@ == encoded(self@[k]));
                    }
                }
                assert(texts(lines@) =~= records(self@).take(i + 1));
            }
            i = i + 1;
        }
        proof {
            assert(texts(lines@) =~= records(self@));
            reveal_strlit("\n");
            assert("\n"@ =~= seq!['\n']);
        }
        join(&lines, "\n")
    }
}

impl Into<String> for Resources {
    /// The block that offers the resources.
    fn into(self) -> (text: String)
        ensures
            block(records(self@)) == String::view(&text),
    {
        self.encode()
    }
}

/// What `into` returns is stated by its `ensures`.
impl vstd::std_specs::convert::IntoSpecImpl<String> for Resources {
    open spec fn obeys_into_spec() -> bool {
        false
    }

    open spec fn into_spec(self) -> String {
        arbitrary()
    }
}

/// The lines of a block are the lines it was made of: where no line holds a
/// newline and there is at least one, cutting the block at its newlines gives
/// the lines back in their order.
pub proof fn lemma_lines_of_block(lines: Seq<Seq<char>>)
    requires
        lines.len() > 0,
        forall|i: int| 0 <= i < lines.len() ==> free_of(#[trigger] lines[i], '\n'),
    ensures
        pieces(block(lines), '\n') == lines,
{
    lemma_pieces_of_joined(lines, '\n');
}

/// A block of resources is read back line by line: where the texts of the
/// resources hold no parenthesis, space or newline, the block has one line
/// for each resource, in the order of the listing, and each line is read as
/// its resource. The empty listing has the empty block.
pub proof fn lemma_block_round_trip(resources: Seq<ResourceView>)
    requires
        forall|i: int|
            0 <= i < resources.len() ==> (#[trigger] resources[i]).survives_record()
                && resources[i].free_of('\n'),
    ensures
        resources.len() == 0 ==> block(records(resources)) == Seq::<char>::empty(),
        resources.len() > 0 ==> pieces(block(records(resources)), '\n').len() == resources.len(),
        resources.len() > 0 ==> forall|i: int|
            0 <= i < resources.len() ==> decoded(
                #[trigger] pieces(block(records(resources)), '\n')[i],
            ) == Some(resources[i]),
{
    let lines = records(resources);
    if resources.len() > 0 {
        assert forall|i: int| 0 <= i < lines.len() implies free_of(#[trigger] lines[i], '\n') by {
            reveal_strlit(" (");
            reveal_strlit(")");
            assert(resources[i].free_of('\n'));
        }
        lemma_lines_of_block(lines);
        assert forall|i: int| 0 <= i < resources.len() implies decoded(
            #[trigger] pieces(block(lines), '\n')[i],
        ) == Some(resources[i]) by {
            assert(resources[i].survives_record());
            lemma_decode_encode(resources[i]);
        }
    }
}

} // verus!
