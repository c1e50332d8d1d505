//! The partition record: the fields of one keyspace line's value, which has
//! the form `field=value,field=value,...`.

use crate::text::{halves, next_piece, pieces, same, split_once};
use vstd::prelude::*;
use vstd::slice::slice_to_vec;
use vstd::string::StringSliceAdditionalSpecFns;

verus! {

/// What parts the fields of a descriptor.
pub open spec fn field_mark() -> Seq<u8> {
    ",".spec_bytes()
}

/// What parts a field's name from its value.
pub open spec fn value_mark() -> Seq<u8> {
    "=".spec_bytes()
}

/// The field name of a segment, if the segment has the form `name=value`.
pub open spec fn name_in(segment: Seq<u8>) -> Option<Seq<u8>> {
    match halves(segment, value_mark()) {
        Some((name, _)) => Some(name),
        None => None,
    }
}

/// The fields that the segments give, taken from left to right: a segment is
/// cut at its first `=`, one without `=` is dropped, and a later field takes
/// the place of an earlier one of the same name.
pub open spec fn fields_of(segments: Seq<Seq<u8>>) -> Map<Seq<u8>, Seq<u8>>
    decreases segments.len(),
{
    if segments.len() == 0 {
        Map::empty()
    } else {
        let earlier = fields_of(segments.drop_last());
        match halves(segments.last(), value_mark()) {
            Some((name, value)) => earlier.insert(name, value),
            None => earlier,
        }
    }
}

/// The fields of a descriptor: those of its segments between the commas.
pub open spec fn decoded(descriptor: Seq<u8>) -> Map<Seq<u8>, Seq<u8>> {
    fields_of(pieces(descriptor, field_mark()))
}

/// No two segments have the same field name.
pub open spec fn distinct_names(segments: Seq<Seq<u8>>) -> bool {
    forall|i: int, j: int|
        0 <= i < j < segments.len() && name_in(segments[i]) is Some ==> name_in(segments[i])
            != name_in(segments[j])
}

/// The map that a list of name/value entries stands for, a later entry
/// taking the place of an earlier one of the same name.
spec fn assoc(entries: Seq<(Vec<u8>, Vec<u8>)>) -> Map<Seq<u8>, Seq<u8>>
    decreases entries.len(),
{
    if entries.len() == 0 {
        Map::empty()
    } else {
        assoc(entries.drop_last()).insert(entries.last().0@, entries.last().1@)
    }
}

proof fn lemma_assoc_absent(entries: Seq<(Vec<u8>, Vec<u8>)>, name: Seq<u8>)
    requires
        forall|j: int| 0 <= j < entries.len() ==> entries[j].0@ != name,
    ensures
        !assoc(entries).contains_key(name),
    decreases entries.len(),
{
    if entries.len() > 0 {
        lemma_assoc_absent(entries.drop_last(), name);
    }
}

proof fn lemma_assoc_last(entries: Seq<(Vec<u8>, Vec<u8>)>, name: Seq<u8>, at: int)
    requires
        0 <= at < entries.len(),
        entries[at].0@ == name,
        forall|j: int| at < j < entries.len() ==> entries[j].0@ != name,
    ensures
        assoc(entries).contains_key(name),
        assoc(entries)[name] == entries[at].1@,
    decreases entries.len(),
{
    if at < entries.len() - 1 {
        lemma_assoc_last(entries.drop_last(), name, at);
    }
}

/// The fields of one partition, by name.
#[derive(Debug)]
pub struct Partition {
    entries: Vec<(Vec<u8>, Vec<u8>)>,
}

impl View for Partition {
    type V = Map<Seq<u8>, Seq<u8>>;

    closed spec fn view(&self) -> Map<Seq<u8>, Seq<u8>> {
        assoc(self.entries@)
    }
}

impl Partition {
    /// The value of the field `name`, if the partition has such a field.
    pub fn get(&self, name: &[u8]) -> (r: Option<&[u8]>)
        ensures
            match r {
                Some(value) => self@.contains_key(name@) && self@[name@] == value@,
                None => !self@.contains_key(name@),
            },
    {
        let mut at: usize = self.entries.len();
        while at > 0
            invariant
                at <= self.entries@.len(),
                forall|j: int| at <= j < self.entries@.len() ==> self.entries@[j].0@ != name@,
            decreases at,
        {
            at = at - 1;
            if same(self.entries[at].0.as_slice(), name) {
                proof {
                    lemma_assoc_last(self.entries@, name@, at as int);
                }
                return Some(self.entries[at].1.as_slice());
            }
        }
        proof {
            lemma_assoc_absent(self.entries@, name@);
        }
        None
    }
}

/// Decodes a partition descriptor into its fields.
///
/// Nothing is an error here: a segment that is no field is passed over.
pub fn split(pairs: &[u8]) -> (fields: Partition)
    ensures
        fields@ == decoded(pairs@),
{
    let comma = ",".as_bytes();
    let equals = "=".as_bytes();
    let mut entries: Vec<(Vec<u8>, Vec<u8>)> = Vec::new();
    let mut rest: &[u8] = pairs;
    let ghost mut done: Seq<Seq<u8>> = Seq::empty();
    assert(done + pieces(rest@, comma@) =~= pieces(pairs@, comma@));
    loop
        invariant
            comma@ == field_mark(),
            equals@ == value_mark(),
            pieces(pairs@, comma@) == done + pieces(rest@, comma@),
            assoc(entries@) == fields_of(done),
        decreases rest@.len(),
    {
        let (segment, tail) = next_piece(rest, comma);
        let ghost seen = done;
        let ghost held = entries@;
        match split_once(segment, equals) {
            Some((name, value)) => {
                entries.push((slice_to_vec(name), slice_to_vec(value)));
                assert(entries@.drop_last() =~= held);
            },
            None => {},
        }
        proof {
            done = seen.push(segment@);
            assert(done.drop_last() =~= seen);
        }
        match tail {
            Some(tail) => {
                assert(done + pieces(tail@, comma@) =~= seen + pieces(rest@, comma@));
                rest = tail;
            },
            None => {
                assert(done =~= seen + pieces(rest@, comma@));
                return Partition { entries };
            },
        }
    }
}

/// The segment at `at` has the field name `name`, and no segment after it
/// has.
pub open spec fn names_last(segments: Seq<Seq<u8>>, name: Seq<u8>, at: int) -> bool {
    &&& 0 <= at < segments.len()
    &&& name_in(segments[at]) == Some(name)
    &&& forall|later: int| at < later < segments.len() ==> name_in(segments[later]) != Some(name)
}

/// Some segment has the field name `name`.
pub open spec fn names_some(segments: Seq<Seq<u8>>, name: Seq<u8>) -> bool {
    exists|at: int| 0 <= at < segments.len() && name_in(#[trigger] segments[at]) == Some(name)
}

proof fn lemma_fields_absent(segments: Seq<Seq<u8>>, name: Seq<u8>)
    requires
        !names_some(segments, name),
    ensures
        !fields_of(segments).contains_key(name),
    decreases segments.len(),
{
    if segments.len() > 0 {
        let front = segments.drop_last();
        assert forall|at: int| 0 <= at < front.len() implies name_in(#[trigger] front[at]) != Some(
            name,
        ) by {
            assert(front[at] == segments[at]);
        }
        lemma_fields_absent(front, name);
    }
}

proof fn lemma_last_named(segments: Seq<Seq<u8>>, name: Seq<u8>) -> (at: int)
    requires
        names_some(segments, name),
    ensures
        names_last(segments, name, at),
    decreases segments.len(),
{
    let last: int = segments.len() - 1;
    if name_in(segments[last]) == Some(name) {
        last
    } else {
        let front = segments.drop_last();
        let any = choose|at: int|
            0 <= at < segments.len() && name_in(#[trigger] segments[at]) == Some(name);
        assert(name_in(front[any]) == Some(name));
        let at = lemma_last_named(front, name);
        assert forall|later: int| at < later < segments.len() implies name_in(segments[later])
            != Some(name) by {
            if later < front.len() {
                assert(front[later] == segments[later]);
            }
        }
        at
    }
}

/// Last write wins: of the segments that have a field name, the last one
/// gives the field its value.
pub proof fn law_last_field_wins(segments: Seq<Seq<u8>>, name: Seq<u8>, at: int)
    requires
        names_last(segments, name, at),
    ensures
        fields_of(segments).contains_key(name),
        halves(segments[at], value_mark()) matches Some((_, value)) && fields_of(segments)[name]
            == value,
    decreases segments.len(),
{
    if at < segments.len() - 1 {
        law_last_field_wins(segments.drop_last(), name, at);
    }
}

/// A name is a field exactly where some segment has it.
pub proof fn law_field_has_segment(segments: Seq<Seq<u8>>, name: Seq<u8>)
    ensures
        fields_of(segments).contains_key(name) <==> names_some(segments, name),
{
    if names_some(segments, name) {
        let at = lemma_last_named(segments, name);
        law_last_field_wins(segments, name, at);
    } else {
        lemma_fields_absent(segments, name);
    }
}

/// Decoding does not depend on the order of the segments where no field
/// name occurs twice: a list without a repeated name, and any list that
/// holds the same segments, give the same fields.
pub proof fn law_field_order(a: Seq<Seq<u8>>, b: Seq<Seq<u8>>)
    requires
        distinct_names(a),
        forall|segment: Seq<u8>| a.contains(segment) <==> b.contains(segment),
    ensures
        fields_of(a) == fields_of(b),
{
    assert forall|name: Seq<u8>| names_some(a, name) == names_some(b, name) by {
        if names_some(a, name) {
            let at = choose|at: int| 0 <= at < a.len() && name_in(#[trigger] a[at]) == Some(name);
            assert(a.contains(a[at]));
            let to = b.index_of(a[at]);
            assert(name_in(b[to]) == Some(name));
        }
        if names_some(b, name) {
            let to = choose|to: int| 0 <= to < b.len() && name_in(#[trigger] b[to]) == Some(name);
            assert(b.contains(b[to]));
            let at = a.index_of(b[to]);
            assert(name_in(a[at]) == Some(name));
        }
    }
    assert forall|name: Seq<u8>| #[trigger]
        fields_of(a).contains_key(name) == fields_of(b).contains_key(name) by {
        law_field_has_segment(a, name);
        law_field_has_segment(b, name);
    }
    assert forall|name: Seq<u8>| #[trigger]
        fields_of(b).contains_key(name) implies fields_of(a)[name] == fields_of(b)[name] by {
        law_field_has_segment(b, name);
        if names_some(b, name) {
            let to = lemma_last_named(b, name);
            assert(b.contains(b[to]));
            let at = a.index_of(b[to]);
            assert(a[at] == b[to]);
            assert(names_last(a, name, at));
            law_last_field_wins(a, name, at);
            law_last_field_wins(b, name, to);
        }
    }
    assert(fields_of(a) =~= fields_of(b));
}

} // verus!
