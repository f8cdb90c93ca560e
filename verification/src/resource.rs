//! A resource of a stack and its record: the one line that stands for it in
//! the picker.
//!
//! The record of a resource is its physical id, a space, and its type in
//! parentheses. Reading a record back drops every parenthesis, cuts the rest
//! at each space and takes the first two pieces.

use vstd::prelude::*;
use crate::error::Error;
use crate::text::{
    first_index_of, free_of, lemma_first_index_of, lemma_pieces_are_free, lemma_pieces_concat,
    lemma_pieces_of_free, pieces, split,
};

verus! {

/// One managed entity of a stack.
#[derive(Debug, PartialEq, Eq)]
pub struct Resource {
    /// The identifier by which the provider addresses the resource.
    pub resource_physical_id: String,
    /// The namespaced tag of its kind.
    pub resource_type: String,
}

/// A [`Resource`] with its two texts as character sequences.
pub struct ResourceView {
    pub physical_id: Seq<char>,
    pub resource_type: Seq<char>,
}

impl View for Resource {
    type V = ResourceView;

    open spec fn view(&self) -> ResourceView {
        ResourceView {
            physical_id: self.resource_physical_id@,
            resource_type: self.resource_type@,
        }
    }
}

impl ResourceView {
    /// A resource is valid where neither of its texts is empty.
    pub open spec fn well_formed(self) -> bool {
        self.physical_id.len() > 0 && self.resource_type.len() > 0
    }

    /// Neither text holds `c`.
    pub open spec fn free_of(self, c: char) -> bool {
        free_of(self.physical_id, c) && free_of(self.resource_type, c)
    }

    /// The record comes back as this resource: neither text holds a
    /// parenthesis, which reading drops, or a space, at which reading cuts.
    pub open spec fn survives_record(self) -> bool {
        self.free_of('(') && self.free_of(')') && self.free_of(' ')
    }
}

impl Clone for Resource {
    fn clone(&self) -> (copy: Self)
        ensures
            copy == *self,
    {
        Resource {
            resource_physical_id: self.resource_physical_id.clone(),
            resource_type: self.resource_type.clone(),
        }
    }
}

/// The characters that reading a record drops.
pub open spec fn is_paren(c: char) -> bool {
    c == '(' || c == ')'
}

/// Holds of every character but the parentheses.
pub open spec fn kept() -> spec_fn(char) -> bool {
    |c: char| !is_paren(c)
}

/// `s` with every parenthesis taken out.
pub open spec fn without_parens(s: Seq<char>) -> Seq<char> {
    s.filter(kept())
}

/// The record of a resource.
pub open spec fn encoded(resource: ResourceView) -> Seq<char> {
    resource.physical_id + " ("@ + resource.resource_type + ")"@
}

/// The pieces of a line between its spaces, once its parentheses are dropped.
pub open spec fn tokens(line: Seq<char>) -> Seq<Seq<char>> {
    pieces(without_parens(line), ' ')
}

/// The resource that a line is the record of: its first token is the physical
/// id and its second the type, whatever follows. A line of one token is the
/// record of none.
pub open spec fn decoded(line: Seq<char>) -> Option<ResourceView> {
    let found = tokens(line);
    if found.len() < 2 {
        None
    } else {
        Some(ResourceView { physical_id: found[0], resource_type: found[1] })
    }
}

/// Dropping the parentheses leaves a text without any as it is.
pub proof fn lemma_without_parens_of_free(s: Seq<char>)
    requires
        free_of(s, '('),
        free_of(s, ')'),
    ensures
        without_parens(s) == s,
    decreases s.len(),
{
    reveal(Seq::filter);
    if s.len() > 0 {
        lemma_without_parens_of_free(s.drop_last());
        assert(s.drop_last().push(s.last()) =~= s);
    }
}

/// Without its parentheses, a record is the physical id, a space and the
/// type, where neither of the two holds a parenthesis.
pub proof fn lemma_without_parens_of_encoded(resource: ResourceView)
    requires
        resource.free_of('('),
        resource.free_of(')'),
    ensures
        without_parens(encoded(resource)) == resource.physical_id + seq![' ']
            + resource.resource_type,
{
    let id = resource.physical_id;
    let tag = resource.resource_type;
    reveal_strlit(" (");
    reveal_strlit(")");
    lemma_without_parens_of_free(id);
    lemma_without_parens_of_free(tag);
    assert(without_parens(" ("@) == seq![' ']) by {
        let space = Seq::<char>::empty().push(' ');
        reveal(Seq::filter);
        Seq::<char>::empty().lemma_filter_push(' ', kept());
        space.lemma_filter_push('(', kept());
        assert(" ("@ =~= space.push('('));
        assert(space =~= seq![' ']);
    }
    assert(without_parens(")"@) == Seq::<char>::empty()) by {
        reveal(Seq::filter);
        Seq::<char>::empty().lemma_filter_push(')', kept());
        assert(")"@ =~= Seq::<char>::empty().push(')'));
    }
    Seq::filter_distributes_over_add(id, " ("@, kept());
    Seq::filter_distributes_over_add(id + " ("@, tag, kept());
    Seq::filter_distributes_over_add(id + " ("@ + tag, ")"@, kept());
    assert(id + seq![' '] + tag + Seq::<char>::empty() =~= id + seq![' '] + tag);
}

/// Reading undoes writing: the record of a resource whose texts hold neither
/// a parenthesis nor a space is read back as that resource. (This holds of
/// empty texts too.)
pub proof fn lemma_decode_encode(resource: ResourceView)
    requires
        resource.survives_record(),
    ensures
        decoded(encoded(resource)) == Some(resource),
{
    let id = resource.physical_id;
    let tag = resource.resource_type;
    lemma_without_parens_of_encoded(resource);
    lemma_pieces_concat(id, tag, ' ');
    lemma_pieces_of_free(id, ' ');
    lemma_pieces_of_free(tag, ' ');
    assert(tokens(encoded(resource)) =~= seq![id, tag]);
}

/// A line is the record of some resource exactly where a space is left in it
/// once its parentheses are dropped.
pub proof fn lemma_decoded_needs_space(line: Seq<char>)
    ensures
        decoded(line) is None <==> free_of(without_parens(line), ' '),
{
    let text = without_parens(line);
    lemma_first_index_of(text, ' ');
    let i = first_index_of(text, ' ') as int;
    if i < text.len() {
        lemma_pieces_are_free(text.skip(i + 1), ' ');
    }
}

/// What is appended to a record behind a space is not read: a line that is
/// the record of a resource is the record of the same resource with any
/// annotation after it.
pub proof fn lemma_decoded_ignores_annotation(line: Seq<char>, annotation: Seq<char>)
    requires
        decoded(line) is Some,
    ensures
        decoded(line + seq![' '] + annotation) == decoded(line),
{
    let text = without_parens(line);
    let rest = without_parens(annotation);
    assert(without_parens(seq![' ']) == seq![' ']) by {
        lemma_without_parens_of_free(seq![' ']);
    }
    Seq::filter_distributes_over_add(line, seq![' '], kept());
    Seq::filter_distributes_over_add(line + seq![' '], annotation, kept());
    lemma_pieces_concat(text, rest, ' ');
}

/// Copies `line` without its parentheses.
fn strip_parens(line: &str) -> (text: String)
    ensures
        text@ == without_parens(line@),
{
    let n = line.unicode_len();
    let mut text = String::new();
    let mut start: usize = 0;
    let mut i: usize = 0;
    proof {
        reveal(Seq::filter);
        assert(line@.take(0).filter(kept()) =~= text@ + line@.subrange(0, 0));
    }
    for c in it: line.chars()
        invariant
            it.seq() == line@,
            n == line@.len(),
            i == it.index(),
            start <= i <= n,
            without_parens(line@.take(i as int)) == text@ + line@.subrange(start as int, i as int),
    {
        let ghost before = line@.take(i as int);
        proof {
            assert(line@.take(i + 1) =~= before.push(c));
            before.lemma_filter_push(c, kept());
        }
        if c == '(' || c == ')' {
            text.append(line.substring_char(start, i));
            start = i + 1;
            assert(line@.subrange(i + 1, i + 1) =~= Seq::<char>::empty());
        } else {
            assert(line@.subrange(start as int, i + 1) =~= line@.subrange(
                start as int,
                i as int,
            ).push(c));
        }
        i = i + 1;
    }
    text.append(line.substring_char(start, i));
    assert(line@.take(i as int) =~= line@);
    text
}

impl Resource {
    /// Both texts are non-empty.
    pub open spec fn well_formed(&self) -> bool {
        self@.well_formed()
    }

    /// The resource of this physical id and type, where neither is empty;
    /// none where one is, for such a resource is not valid.
    pub fn new(resource_physical_id: String, resource_type: String) -> (made: Option<Resource>)
        ensures
            made is Some <==> resource_physical_id@.len() > 0 && resource_type@.len() > 0,
            made matches Some(resource) ==> resource.well_formed()
                && resource.resource_physical_id == resource_physical_id && resource.resource_type
                == resource_type,
    {
        if resource_physical_id.as_str().is_empty() || resource_type.as_str().is_empty() {
            None
        } else {
            Some(Resource { resource_physical_id, resource_type })
        }
    }

    /// The record of this resource.
    pub fn encode(&self) -> (line: String)
        ensures
            line@ == encoded(self@),
    {
        let mut line = self.resource_physical_id.clone();
        line.append(" (");
        line.append(self.resource_type.as_str());
        line.append(")");
        line
    }

    /// Reads a record. Succeeds exactly on the lines of two tokens or more,
    /// and ignores the tokens after the second. The type is not held against
    /// the known ones, and a token may be empty: the resource is well-formed
    /// exactly where neither of the first two tokens is.
    pub fn decode(line: &str) -> (result: Result<Resource, Error>)
        ensures
            match decoded(line@) {
                Some(resource) => result matches Ok(found) && found@ == resource,
                None => result == Err::<Resource, Error>(Error::MalformedRecord),
            },
            result matches Ok(found) ==> (found.well_formed() <==> tokens(line@)[0].len() > 0
                && tokens(line@)[1].len() > 0),
    {
        let stripped = strip_parens(line);
        let found = split(stripped.as_str(), ' ');
        if found.len() < 2 {
            return Err(Error::MalformedRecord);
        }
        Ok(Resource { resource_physical_id: found[0].clone(), resource_type: found[1].clone() })
    }
}

impl Into<String> for Resource {
    /// The record of the resource.
    fn into(self) -> (line: String)
        ensures
            encoded(self@) == String::view(&line),
    {
        self.encode()
    }
}

/// A contract knows a `String` by its view alone, so no spec function can
/// name the string that `into` returns: what it returns is stated by the
/// `ensures` of `into`.
impl vstd::std_specs::convert::IntoSpecImpl<String> for Resource {
    open spec fn obeys_into_spec() -> bool {
        false
    }

    open spec fn into_spec(self) -> String {
        arbitrary()
    }
}

impl TryFrom<String> for Resource {
    type Error = Error;

    /// Reads a record, as [`Resource::decode`] does.
    fn try_from(line: String) -> (result: Result<Resource, Error>)
        ensures
            match decoded(line@) {
                Some(resource) => result matches Ok(found) && found@ == resource,
                None => result == Err::<Resource, Error>(Error::MalformedRecord),
            },
    {
        Resource::decode(line.as_str())
    }
}

/// As for `into`: the resource that `try_from` returns is stated by its
/// `ensures`.
impl vstd::std_specs::convert::TryFromSpecImpl<String> for Resource {
    open spec fn obeys_try_from_spec() -> bool {
        false
    }

    open spec fn try_from_spec(line: String) -> Result<Resource, Error> {
        arbitrary()
    }
}

} // verus!
