//! The number of strokes of a kanji: the accepted count, and the counts that
//! are common mistakes.

use crate::pos_error::{spec_pos, PosError};
use crate::shared::{
    children, collect, lemma_children, spec_children, spec_text_uint, text_u8, SharedError,
};
use crate::tree::{Node, Tag};
use vstd::prelude::*;
use vstd::string::StringExecFns;

verus! {

/// The number of strokes in a kanji.
#[derive(Debug, Clone, PartialEq, Eq, PartialOrd, Ord, Hash)]
pub struct StrokeCount {
    /// The accepted number of strokes.
    pub accepted: u8,
    /// Possible miscounts of the stroke count.
    pub miscounts: Vec<u8>,
}

/// What `StrokeCount` holds, as plain values.
pub struct StrokeCountView {
    pub accepted: u8,
    pub miscounts: Seq<u8>,
}

/// Why a node could not be decoded as the stroke counts.
#[derive(Debug, Clone, Copy, PartialEq, Eq, Hash)]
pub enum StrokeCountError {
    /// A node could not be read.
    Shared(SharedError),
    /// The node holds no stroke count at all.
    NoStrokeCount(PosError),
}

impl View for StrokeCount {
    type V = StrokeCountView;

    open spec fn view(&self) -> StrokeCountView {
        StrokeCountView { accepted: self.accepted, miscounts: self.miscounts@ }
    }
}

/// The count that `node` writes as its text: a decimal number of at most 255.
pub open spec fn spec_count(node: Node) -> Result<u8, SharedError> {
    match spec_text_uint(node, 10, 0xff) {
        Ok(n) => Ok(n as u8),
        Err(e) => Err(e),
    }
}

/// The stroke counts under `misc`: the first `stroke_count` child is the
/// accepted count, every later one a miscount. There must be at least one.
pub open spec fn spec_from(misc: Node) -> Result<StrokeCountView, StrokeCountError> {
    match collect(spec_children(misc, Tag::StrokeCount).map_values(|n: Node| spec_count(n))) {
        Err(e) => Err(StrokeCountError::Shared(e)),
        Ok(counts) => if counts.len() == 0 {
            Err(StrokeCountError::NoStrokeCount(spec_pos(misc)))
        } else {
            Ok(
                StrokeCountView {
                    accepted: counts[0],
                    miscounts: counts.subrange(1, counts.len() as int),
                },
            )
        },
    }
}

/// Decodes the stroke counts under `misc`.
pub fn from(misc: &Node) -> (r: Result<StrokeCount, StrokeCountError>)
    ensures
        crate::shared::viewed(r) == spec_from(*misc),
{
    let counts = children(misc, Tag::StrokeCount, text_u8);
    proof {
        lemma_children(
            text_u8,
            spec_children(*misc, Tag::StrokeCount),
            counts,
            |n: u8| n,
            |n: Node| spec_count(n),
        );
        if let Ok(values) = &counts {
            assert(values@.map_values(|n: u8| n) =~= values@);
        }
    }
    let mut counts = match counts {
        Ok(counts) => counts,
        Err(e) => {
            return Err(StrokeCountError::Shared(e));
        },
    };
    if counts.len() == 0 {
        return Err(StrokeCountError::NoStrokeCount(PosError::from(misc)));
    }
    let ghost all = counts@;
    let accepted = counts.remove(0);
    assert(counts@ =~= all.subrange(1, all.len() as int));
    Ok(StrokeCount { accepted, miscounts: counts })
}


/// Where the first `stroke_count` child of `misc` that cannot be decoded
/// holds a text that is no number of at most 255, the outcome is the error
/// for such a text at that child: no count is made up in its place.
pub proof fn lemma_malformed_count(misc: Node, i: int)
    requires
        0 <= i < spec_children(misc, Tag::StrokeCount).len(),
        forall|j: int| 0 <= j < i ==> spec_count(spec_children(misc, Tag::StrokeCount)[j]) is Ok,
        crate::shared::spec_text(spec_children(misc, Tag::StrokeCount)[i]) matches Some(s)
            && crate::text::spec_parse_uint(s, 10, 0xff) is None,
    ensures
        spec_from(misc) == Err::<StrokeCountView, StrokeCountError>(
            StrokeCountError::Shared(
                SharedError::NotANumber(spec_pos(spec_children(misc, Tag::StrokeCount)[i])),
            ),
        ),
{
    let nodes = spec_children(misc, Tag::StrokeCount);
    let outcomes = nodes.map_values(|n: Node| spec_count(n));
    crate::shared::lemma_collect_error(
        outcomes,
        i,
        SharedError::NotANumber(spec_pos(nodes[i])),
    );
}


impl StrokeCountError {
    /// What the error says: the component that reports it, then what went
    /// wrong, then what the error holds.
    pub open spec fn spec_message(self) -> Seq<char> {
        match self {
            StrokeCountError::Shared(error) => "(Stroke count) Shared: "@ + error.spec_message(),
            StrokeCountError::NoStrokeCount(pos) => "(Stroke count) No stroke count: "@ + pos.spec_message(),
        }
    }

    /// Appends what the error says to `out`.
    pub fn write(&self, out: &mut String)
        ensures
            final(out)@ == old(out)@ + self.spec_message(),
    {
        match *self {
            StrokeCountError::Shared(error) => {
                out.append("(Stroke count) Shared: ");
                error.write(out);
                assert(out@ =~= old(out)@ + self.spec_message());
            },
            StrokeCountError::NoStrokeCount(pos) => {
                out.append("(Stroke count) No stroke count: ");
                pos.write(out);
                assert(out@ =~= old(out)@ + self.spec_message());
            },
        }
    }

    /// What the error says.
    pub fn message(&self) -> (r: String)
        ensures
            r@ == self.spec_message(),
    {
        let mut out = String::new();
        self.write(&mut out);
        assert(out@ =~= self.spec_message());
        out
    }
}

} // verus!
