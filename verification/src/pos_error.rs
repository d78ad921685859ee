//! Where in the tree a failure occurred.

use crate::tree::{Node, Position, Tag};
use crate::text::{push_decimal, spec_decimal};
use vstd::string::StringExecFns;
use vstd::prelude::*;

verus! {

/// The place of the node at which a decoder failed: the node's name, where it
/// is one of the vocabulary, and where the node begins in the document. It is
/// attached once, by the decoder that fails, and carried unchanged by whatever
/// wraps that decoder's error.
#[derive(Debug, Clone, Copy, PartialEq, Eq, Hash)]
pub struct PosError {
    /// The node's name.
    pub tag: Option<Tag>,
    /// Where the node begins.
    pub position: Position,
}

/// The place of `node`.
pub open spec fn spec_pos(node: Node) -> PosError {
    PosError { tag: Tag::spec_from_name(node.tag@), position: node.position }
}

impl PosError {
    /// The place of `node`.
    pub fn from(node: &Node) -> (r: PosError)
        ensures
            r == spec_pos(*node),
    {
        PosError { tag: Tag::from_name(node.tag.as_str()), position: node.position }
    }
}


impl PosError {
    /// What the place reads as: the node's name, or `node` for a name outside
    /// the vocabulary, and the offset at which the node begins.
    pub open spec fn spec_message(self) -> Seq<char> {
        (match self.tag {
            Some(tag) => tag.spec_name(),
            None => "node"@,
        }) + " at byte "@ + spec_decimal(self.position.offset as nat)
    }

    /// Appends what the place reads as to `out`.
    pub fn write(&self, out: &mut String)
        ensures
            final(out)@ == old(out)@ + self.spec_message(),
    {
        match self.tag {
            Some(tag) => out.append(tag.name()),
            None => out.append("node"),
        }
        out.append(" at byte ");
        push_decimal(out, self.position.offset as u64);
        assert(out@ =~= old(out)@ + self.spec_message());
    }

    /// What the place reads as.
    pub fn message(&self) -> (r: String)
        ensures
            r@ == self.spec_message(),
    {
        let mut out = String::new();
        self.write(&mut out);
        assert(out@ =~= self.spec_message());
        out
    }
}

} // verus!
