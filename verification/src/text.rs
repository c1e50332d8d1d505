//! Searching and cutting byte strings.
//!
//! The status text and everything cut from it is handled as bytes. The marks
//! that it is cut at are ASCII, so a cut never falls inside the encoding of a
//! character.

use vstd::prelude::*;
use vstd::slice::slice_subrange;

verus! {

/// `mark` stands in `text` at index `at`.
pub open spec fn occurs_at(text: Seq<u8>, mark: Seq<u8>, at: int) -> bool {
    &&& 0 <= at
    &&& at + mark.len() <= text.len()
    &&& text.subrange(at, at + mark.len()) == mark
}

/// `mark` stands in `text` at `at`, and nowhere before.
pub open spec fn is_first(text: Seq<u8>, mark: Seq<u8>, at: int) -> bool {
    &&& occurs_at(text, mark, at)
    &&& forall|before: int| 0 <= before < at ==> !occurs_at(text, mark, before)
}

/// The index of the first occurrence of `mark` in `text`.
pub open spec fn first_of(text: Seq<u8>, mark: Seq<u8>) -> Option<int> {
    if exists|at: int| is_first(text, mark, at) {
        Some(choose|at: int| is_first(text, mark, at))
    } else {
        None
    }
}

/// `text` begins with `prefix`.
pub open spec fn begins_with(text: Seq<u8>, prefix: Seq<u8>) -> bool {
    occurs_at(text, prefix, 0)
}

/// What stands before and after the first occurrence of `mark` in `text`.
pub open spec fn halves(text: Seq<u8>, mark: Seq<u8>) -> Option<(Seq<u8>, Seq<u8>)> {
    match first_of(text, mark) {
        Some(at) => Some((text.subrange(0, at), text.subrange(at + mark.len(), text.len() as int))),
        None => None,
    }
}

/// The stretches of `text` between the occurrences of `mark`, taken from left
/// to right, each occurrence beginning where the one before it ends: one more
/// stretch than there are occurrences, empty stretches included. An empty
/// mark cuts nothing.
pub open spec fn pieces(text: Seq<u8>, mark: Seq<u8>) -> Seq<Seq<u8>>
    decreases text.len(),
{
    match halves(text, mark) {
        Some((head, tail)) => if tail.len() < text.len() {
            seq![head] + pieces(tail, mark)
        } else {
            seq![text]
        },
        None => seq![text],
    }
}

/// An occurrence that is the first is the one that `first_of` names.
pub proof fn lemma_first_of_some(text: Seq<u8>, mark: Seq<u8>, at: int)
    requires
        is_first(text, mark, at),
    ensures
        first_of(text, mark) == Some(at),
{
    let chosen = choose|c: int| is_first(text, mark, c);
    assert(is_first(text, mark, chosen));
    if chosen < at {
        assert(!occurs_at(text, mark, chosen));
    } else if at < chosen {
        assert(!occurs_at(text, mark, at));
    }
}

/// Where `mark` occurs nowhere, `first_of` names nothing.
pub proof fn lemma_first_of_none(text: Seq<u8>, mark: Seq<u8>)
    requires
        forall|at: int| !occurs_at(text, mark, at),
    ensures
        first_of(text, mark) is None,
{
}

/// What `first_of` names is an occurrence within `text`.
pub proof fn lemma_first_of_in_range(text: Seq<u8>, mark: Seq<u8>)
    ensures
        first_of(text, mark) matches Some(at) ==> is_first(text, mark, at),
{
}

/// Whether the two byte strings are equal.
pub fn same(a: &[u8], b: &[u8]) -> (r: bool)
    ensures
        r == (a@ == b@),
{
    if a.len() != b.len() {
        return false;
    }
    let mut i: usize = 0;
    while i < a.len()
        invariant
            a@.len() == b@.len(),
            i <= a@.len(),
            forall|j: int| 0 <= j < i ==> a@[j] == b@[j],
        decreases a@.len() - i,
    {
        if a[i] != b[i] {
            return false;
        }
        i = i + 1;
    }
    assert(a@ =~= b@);
    true
}

/// Whether `mark` stands in `text` at `at`.
pub fn stands_at(text: &[u8], mark: &[u8], at: usize) -> (r: bool)
    ensures
        r == occurs_at(text@, mark@, at as int),
{
    if at > text.len() || mark.len() > text.len() - at {
        return false;
    }
    let mut i: usize = 0;
    while i < mark.len()
        invariant
            at + mark.len() <= text.len(),
            i <= mark.len(),
            forall|j: int| 0 <= j < i ==> text@[at + j] == mark@[j],
        decreases mark@.len() - i,
    {
        if text[at + i] != mark[i] {
            assert(text@.subrange(at as int, at + mark@.len())[i as int] != mark@[i as int]);
            return false;
        }
        i = i + 1;
    }
    assert(text@.subrange(at as int, at + mark@.len()) =~= mark@);
    true
}

/// Whether `text` begins with `prefix`.
pub fn starts_with(text: &[u8], prefix: &[u8]) -> (r: bool)
    ensures
        r == begins_with(text@, prefix@),
{
    stands_at(text, prefix, 0)
}

/// The index of the first occurrence of `mark` in `text`, if it occurs.
pub fn find(text: &[u8], mark: &[u8]) -> (r: Option<usize>)
    ensures
        match r {
            Some(at) => first_of(text@, mark@) == Some(at as int),
            None => first_of(text@, mark@) is None,
        },
{
    if mark.len() > text.len() {
        proof {
            lemma_first_of_none(text@, mark@);
        }
        return None;
    }
    let last: usize = text.len() - mark.len();
    let mut at: usize = 0;
    loop
        invariant
            last == text@.len() - mark@.len(),
            at <= last,
            forall|before: int| 0 <= before < at ==> !occurs_at(text@, mark@, before),
        decreases last - at,
    {
        if stands_at(text, mark, at) {
            proof {
                lemma_first_of_some(text@, mark@, at as int);
            }
            return Some(at);
        }
        if at == last {
            proof {
                lemma_first_of_none(text@, mark@);
            }
            return None;
        }
        at = at + 1;
    }
}

/// Cuts `text` at the first occurrence of `mark`: what stands before it and
/// what stands after it, or nothing where `mark` does not occur.
pub fn split_once<'a>(text: &'a [u8], mark: &[u8]) -> (r: Option<(&'a [u8], &'a [u8])>)
    ensures
        match r {
            Some((head, tail)) => halves(text@, mark@) == Some((head@, tail@)),
            None => halves(text@, mark@) is None,
        },
{
    match find(text, mark) {
        Some(at) => {
            proof {
                lemma_first_of_in_range(text@, mark@);
            }
            assert(at + mark.len() <= text.len());
            let head = slice_subrange(text, 0, at);
            let tail = slice_subrange(text, at + mark.len(), text.len());
            Some((head, tail))
        },
        None => None,
    }
}

/// Takes the first of the `pieces` of `text` off: the piece, and the rest of
/// the text behind the mark where there is one.
pub fn next_piece<'a>(text: &'a [u8], mark: &[u8]) -> (r: (&'a [u8], Option<&'a [u8]>))
    ensures
        match r.1 {
            Some(tail) => {
                &&& pieces(text@, mark@) == seq![r.0@] + pieces(tail@, mark@)
                &&& tail@.len() < text@.len()
            },
            None => pieces(text@, mark@) == seq![r.0@],
        },
{
    match split_once(text, mark) {
        Some((head, tail)) => if tail.len() < text.len() {
            (head, Some(tail))
        } else {
            (text, None)
        },
        None => (text, None),
    }
}

} // verus!
