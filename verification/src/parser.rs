//! The status parser: from the store's status text to its key/value pairs,
//! each with the section it stands in.

use crate::text::{begins_with, halves, next_piece, pieces, split_once, starts_with};
use vstd::prelude::*;
use vstd::slice::{slice_subrange, slice_to_vec};
use vstd::string::StringSliceAdditionalSpecFns;

verus! {

/// One `key:value` line of the status text, and the section it stands in.
#[derive(Debug)]
pub struct ParsedLine {
    pub section: Vec<u8>,
    pub key: Vec<u8>,
    pub value: Vec<u8>,
}

/// A `ParsedLine` as plain byte strings.
pub struct Triple {
    pub section: Seq<u8>,
    pub key: Seq<u8>,
    pub value: Seq<u8>,
}

impl View for ParsedLine {
    type V = Triple;

    open spec fn view(&self) -> Triple {
        Triple { section: self.section@, key: self.key@, value: self.value@ }
    }
}

/// The lines as plain byte strings, in their order.
pub open spec fn triples_of(lines: Seq<ParsedLine>) -> Seq<Triple> {
    lines.map_values(|line: ParsedLine| line@)
}

/// What ends a line of the status text.
pub open spec fn line_break() -> Seq<u8> {
    "\r\n".spec_bytes()
}

/// What a line that names a section begins with.
pub open spec fn section_mark() -> Seq<u8> {
    "# ".spec_bytes()
}

/// What parts a key from its value.
pub open spec fn key_mark() -> Seq<u8> {
    ":".spec_bytes()
}

/// The pairs that `lines` hold, read from the first line on, `section` being
/// the section that the first line stands in.
///
/// A line that begins with the section mark names the section of the lines
/// after it and gives no pair. Any other line is cut at its first colon; a
/// line without a colon, an empty one too, gives nothing.
pub open spec fn scan(lines: Seq<Seq<u8>>, section: Seq<u8>) -> Seq<Triple>
    decreases lines.len(),
{
    if lines.len() == 0 {
        Seq::empty()
    } else {
        let line = lines[0];
        let rest = lines.drop_first();
        if begins_with(line, section_mark()) {
            scan(rest, line.subrange(section_mark().len() as int, line.len() as int))
        } else {
            match halves(line, key_mark()) {
                Some((key, value)) => seq![Triple { section, key, value }] + scan(rest, section),
                None => scan(rest, section),
            }
        }
    }
}

/// The pairs of a whole status text: its lines end in a carriage return and
/// a line feed, and the text begins in the section without a name.
pub open spec fn info_triples(text: Seq<u8>) -> Seq<Triple> {
    scan(pieces(text, line_break()), Seq::empty())
}

/// Reads the status text into its pairs, in the order of the text.
///
/// Nothing is an error here: a line that is no pair is passed over.
pub fn parse_info(text: &[u8]) -> (lines: Vec<ParsedLine>)
    ensures
        triples_of(lines@) == info_triples(text@),
{
    let eol = "\r\n".as_bytes();
    let sharp = "# ".as_bytes();
    let colon = ":".as_bytes();
    let mut lines: Vec<ParsedLine> = Vec::new();
    let mut section: &[u8] = slice_subrange(text, 0, 0);
    let mut rest: &[u8] = text;
    assert(section@ =~= Seq::<u8>::empty());
    assert(triples_of(lines@) =~= Seq::<Triple>::empty());
    assert(info_triples(text@) =~= triples_of(lines@) + info_triples(text@));
    loop
        invariant
            eol@ == line_break(),
            sharp@ == section_mark(),
            colon@ == key_mark(),
            info_triples(text@) == triples_of(lines@) + scan(pieces(rest@, eol@), section@),
        decreases rest@.len(),
    {
        let (line, tail) = next_piece(rest, eol);
        let ghost ahead = pieces(rest@, eol@);
        let ghost before = triples_of(lines@);
        let ghost old_section = section@;
        assert(ahead.len() > 0 && ahead[0] == line@);
        if starts_with(line, sharp) {
            section = slice_subrange(line, sharp.len(), line.len());
        } else {
            match split_once(line, colon) {
                Some((key, value)) => {
                    let parsed = ParsedLine {
                        section: slice_to_vec(section),
                        key: slice_to_vec(key),
                        value: slice_to_vec(value),
                    };
                    lines.push(parsed);
                    assert(triples_of(lines@) =~= before.push(parsed@));
                },
                None => {},
            }
        }
        proof {
            let behind = ahead.drop_first();
            assert(before + scan(ahead, old_section) =~= triples_of(lines@) + scan(
                behind,
                section@,
            ));
        }
        match tail {
            Some(tail) => {
                assert(ahead.drop_first() =~= pieces(tail@, eol@));
                rest = tail;
            },
            None => {
                assert(ahead.drop_first() =~= Seq::<Seq<u8>>::empty());
                assert(triples_of(lines@) + Seq::<Triple>::empty() =~= triples_of(lines@));
                return lines;
            },
        }
    }
}

} // verus!
