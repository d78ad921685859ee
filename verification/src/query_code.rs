//! A code by which a kanji is looked up from its shape.

use crate::de_roo::{DeRoo, DeRooError};
use crate::four_corner::{FourCorner, FourCornerError};
use crate::pos_error::{spec_pos, PosError};
use crate::sh_desc::{ShDesc, ShDescError};
use crate::shared::{attr, optional_attr, spec_attr, SharedError};
use crate::skip::{Skip, SkipError};
use crate::text::str_eq;
use crate::tree::{Attr, Node};
use vstd::prelude::*;
use vstd::string::StringExecFns;

verus! {

/// Information relating to the glyph that can be used
/// for identification and lookup.
#[derive(Debug, Clone, Copy, PartialEq, Eq, PartialOrd, Ord, Hash)]
pub enum QueryCode {
    /// Halpern's SKIP code
    Skip(Skip),
    /// Desrcriptor codes from The Kanji Dictionary
    SpahnHadamitzky(ShDesc),
    /// The Four Corner code
    FourCorner(FourCorner),
    /// Father Joseph De Roo's code system
    DeRoo(DeRoo),
    /// A possible misclassification of the kanji
    Misclassification(Misclassification),
}

/// A SKIP code under which the kanji may be looked up by mistake.
#[derive(Debug, Clone, Copy, PartialEq, Eq, PartialOrd, Ord, Hash)]
pub struct Misclassification {
    /// The kind of mistake that leads to the code.
    pub kind: MisclassificationKind,
    /// The mistaken code.
    pub skip: Skip,
}

/// The kind of mistake behind a misclassification.
#[derive(Debug, Clone, Copy, PartialEq, Eq, PartialOrd, Ord, Hash)]
pub enum MisclassificationKind {
    /// A mistake in the division of the kanji
    Position,
    /// A mistake in the number of strokes
    StrokeCount,
    /// Mistakes in both the division and the number of strokes
    StrokeAndPosition,
    /// Ambiguous stroke counts
    StrokeDifference,
}

/// Why a node could not be decoded as a query code.
#[derive(Debug, Clone, Copy, PartialEq, Eq, Hash)]
pub enum QueryCodeError {
    /// The node could not be read.
    Shared(SharedError),
    /// The node's text is no SKIP code.
    Skip(SkipError),
    /// The node's text is no descriptor of Spahn and Hadamitzky.
    ShDesc(ShDescError),
    /// The node's text is no Four Corner code.
    FourCorner(FourCornerError),
    /// The node's text is no De Roo code.
    DeRoo(DeRooError),
    /// The node's `qc_type` names no known code.
    UnknownType(PosError),
    /// The node's `skip_misclass` names no known kind of mistake.
    UnknownMisclassification(PosError),
}

/// The kind of mistake that the value of `skip_misclass` names.
pub open spec fn spec_misclassification(name: Seq<char>) -> Option<MisclassificationKind> {
    if name == "posn"@ {
        Some(MisclassificationKind::Position)
    } else if name == "stroke_count"@ {
        Some(MisclassificationKind::StrokeCount)
    } else if name == "stroke_and_posn"@ {
        Some(MisclassificationKind::StrokeAndPosition)
    } else if name == "stroke_diff"@ {
        Some(MisclassificationKind::StrokeDifference)
    } else {
        None
    }
}

/// The SKIP code that `node` writes: a misclassification where the node has the
/// attribute `skip_misclass`, the kanji's own code where it has not.
pub open spec fn spec_skip(node: Node) -> Result<QueryCode, QueryCodeError> {
    match spec_attr(node, Attr::SkipMisclass) {
        None => match crate::skip::spec_from(node) {
            Ok(skip) => Ok(QueryCode::Skip(skip)),
            Err(e) => Err(QueryCodeError::Skip(e)),
        },
        Some(name) => match spec_misclassification(name) {
            None => Err(QueryCodeError::UnknownMisclassification(spec_pos(node))),
            Some(kind) => match crate::skip::spec_from(node) {
                Ok(skip) => Ok(QueryCode::Misclassification(Misclassification { kind, skip })),
                Err(e) => Err(QueryCodeError::Skip(e)),
            },
        },
    }
}

/// The code that `node` writes. Its attribute `qc_type` names the system, which
/// decides how its text is read.
pub open spec fn spec_from(node: Node) -> Result<QueryCode, QueryCodeError> {
    match spec_attr(node, Attr::QcType) {
        None => Err(
            QueryCodeError::Shared(SharedError::MissingAttribute(spec_pos(node), Attr::QcType)),
        ),
        Some(name) => if name == "skip"@ {
            spec_skip(node)
        } else if name == "sh_desc"@ {
            match crate::sh_desc::spec_from(node) {
                Ok(desc) => Ok(QueryCode::SpahnHadamitzky(desc)),
                Err(e) => Err(QueryCodeError::ShDesc(e)),
            }
        } else if name == "four_corner"@ {
            match crate::four_corner::spec_from(node) {
                Ok(code) => Ok(QueryCode::FourCorner(code)),
                Err(e) => Err(QueryCodeError::FourCorner(e)),
            }
        } else if name == "deroo"@ {
            match crate::de_roo::spec_from(node) {
                Ok(code) => Ok(QueryCode::DeRoo(code)),
                Err(e) => Err(QueryCodeError::DeRoo(e)),
            }
        } else {
            Err(QueryCodeError::UnknownType(spec_pos(node)))
        },
    }
}

/// The kind of mistake that `name` names.
pub fn misclassification(name: &str) -> (r: Option<MisclassificationKind>)
    ensures
        r == spec_misclassification(name@),
{
    if str_eq(name, "posn") {
        Some(MisclassificationKind::Position)
    } else if str_eq(name, "stroke_count") {
        Some(MisclassificationKind::StrokeCount)
    } else if str_eq(name, "stroke_and_posn") {
        Some(MisclassificationKind::StrokeAndPosition)
    } else if str_eq(name, "stroke_diff") {
        Some(MisclassificationKind::StrokeDifference)
    } else {
        None
    }
}

/// Decodes the code that `node` writes.
pub fn from(node: &Node) -> (r: Result<QueryCode, QueryCodeError>)
    ensures
        r == spec_from(*node),
{
    let name = match attr(node, Attr::QcType) {
        Ok(name) => name,
        Err(e) => {
            return Err(QueryCodeError::Shared(e));
        },
    };
    if str_eq(name, "skip") {
        match optional_attr(node, Attr::SkipMisclass) {
            None => match crate::skip::from(node) {
                Ok(skip) => Ok(QueryCode::Skip(skip)),
                Err(e) => Err(QueryCodeError::Skip(e)),
            },
            Some(mistake) => {
                let kind = match misclassification(mistake) {
                    Some(kind) => kind,
                    None => {
                        return Err(QueryCodeError::UnknownMisclassification(PosError::from(node)));
                    },
                };
                match crate::skip::from(node) {
                    Ok(skip) => Ok(QueryCode::Misclassification(Misclassification { kind, skip })),
                    Err(e) => Err(QueryCodeError::Skip(e)),
                }
            },
        }
    } else if str_eq(name, "sh_desc") {
        match crate::sh_desc::from(node) {
            Ok(desc) => Ok(QueryCode::SpahnHadamitzky(desc)),
            Err(e) => Err(QueryCodeError::ShDesc(e)),
        }
    } else if str_eq(name, "four_corner") {
        match crate::four_corner::from(node) {
            Ok(code) => Ok(QueryCode::FourCorner(code)),
            Err(e) => Err(QueryCodeError::FourCorner(e)),
        }
    } else if str_eq(name, "deroo") {
        match crate::de_roo::from(node) {
            Ok(code) => Ok(QueryCode::DeRoo(code)),
            Err(e) => Err(QueryCodeError::DeRoo(e)),
        }
    } else {
        Err(QueryCodeError::UnknownType(PosError::from(node)))
    }
}


impl QueryCodeError {
    /// What the error says: the component that reports it, then what went
    /// wrong, then what the error holds.
    pub open spec fn spec_message(self) -> Seq<char> {
        match self {
            QueryCodeError::Shared(error) => "(Query code) Shared: "@ + error.spec_message(),
            QueryCodeError::Skip(error) => "(Query code) Skip: "@ + error.spec_message(),
            QueryCodeError::ShDesc(error) => "(Query code) Sh desc: "@ + error.spec_message(),
            QueryCodeError::FourCorner(error) => "(Query code) Four corner: "@ + error.spec_message(),
            QueryCodeError::DeRoo(error) => "(Query code) De roo: "@ + error.spec_message(),
            QueryCodeError::UnknownType(pos) => "(Query code) Unknown type: "@ + pos.spec_message(),
            QueryCodeError::UnknownMisclassification(pos) => "(Query code) Unknown misclassification: "@ + pos.spec_message(),
        }
    }

    /// Appends what the error says to `out`.
    pub fn write(&self, out: &mut String)
        ensures
            final(out)@ == old(out)@ + self.spec_message(),
    {
        match *self {
            QueryCodeError::Shared(error) => {
                out.append("(Query code) Shared: ");
                error.write(out);
                assert(out@ =~= old(out)@ + self.spec_message());
            },
            QueryCodeError::Skip(error) => {
                out.append("(Query code) Skip: ");
                error.write(out);
                assert(out@ =~= old(out)@ + self.spec_message());
            },
            QueryCodeError::ShDesc(error) => {
                out.append("(Query code) Sh desc: ");
                error.write(out);
                assert(out@ =~= old(out)@ + self.spec_message());
            },
            QueryCodeError::FourCorner(error) => {
                out.append("(Query code) Four corner: ");
                error.write(out);
                assert(out@ =~= old(out)@ + self.spec_message());
            },
            QueryCodeError::DeRoo(error) => {
                out.append("(Query code) De roo: ");
                error.write(out);
                assert(out@ =~= old(out)@ + self.spec_message());
            },
            QueryCodeError::UnknownType(pos) => {
                out.append("(Query code) Unknown type: ");
                pos.write(out);
                assert(out@ =~= old(out)@ + self.spec_message());
            },
            QueryCodeError::UnknownMisclassification(pos) => {
                out.append("(Query code) Unknown misclassification: ");
                pos.write(out);
                assert(out@ =~= old(out)@ + self.spec_message());
            },
        }
    }

    /// What the error says.
    pub fn message(&self) -> (r: String)
        ensures
            r@ == self.spec_message(),
    {
        let mut out = String::new();
        self.write(&mut out);
        assert(out@ =~= self.spec_message());
        out
    }
}

} // verus!
