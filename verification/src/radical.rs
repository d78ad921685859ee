//! The classification of a kanji under one of the 214 traditional radicals.

use crate::pos_error::{spec_pos, PosError};
use crate::shared::{attr, spec_attr, spec_text, text, SharedError};
use crate::text::{chars_of, is_number, parse_number, str_eq, whole_value, Malformed};
use crate::tree::{Attr, Node};
use vstd::prelude::*;
use vstd::string::StringExecFns;

verus! {

/// The scheme by which a radical was assigned.
#[derive(Debug, Clone, Copy, PartialEq, Eq, PartialOrd, Ord, Hash)]
pub enum RadicalKind {
    /// The classification of the KangXi Zidian.
    Classical,
    /// The classification of Nelson's "Modern Reader's Japanese-English
    /// Character Dictionary", where it differs from the classical one.
    Nelson,
}

/// A kanji's classification by radical.
#[derive(Debug, Clone, Copy, PartialEq, Eq, PartialOrd, Ord, Hash)]
pub struct Radical {
    pub kind: RadicalKind,
    /// The number of the radical, from 1 to 214.
    pub radical: u8,
}

/// Why a node could not be decoded as a radical.
#[derive(Debug, Clone, Copy, PartialEq, Eq, Hash)]
pub enum RadicalError {
    /// The node could not be read.
    Shared(SharedError),
    /// The node's `rad_type` names no known scheme.
    Kind(PosError),
    /// The number is not one of the 214 radicals.
    OutOfRange(PosError),
}

/// The scheme that the value of `rad_type` names.
pub open spec fn spec_kind(name: Seq<char>) -> Option<RadicalKind> {
    if name == "classical"@ {
        Some(RadicalKind::Classical)
    } else if name == "nelson_c"@ {
        Some(RadicalKind::Nelson)
    } else {
        None
    }
}

/// The classification that `node` writes: the scheme is its attribute
/// `rad_type`, the radical's number is its text. A text that is no number is
/// told from a number that is none of the 214 radicals, however many digits the
/// number has.
pub open spec fn spec_from(node: Node) -> Result<Radical, RadicalError> {
    match spec_attr(node, Attr::RadType) {
        None => Err(
            RadicalError::Shared(SharedError::MissingAttribute(spec_pos(node), Attr::RadType)),
        ),
        Some(name) => match spec_kind(name) {
            None => Err(RadicalError::Kind(spec_pos(node))),
            Some(kind) => match spec_text(node) {
                None => Err(RadicalError::Shared(SharedError::MissingText(spec_pos(node)))),
                Some(s) => if !is_number(s, 10) {
                    Err(RadicalError::Shared(SharedError::NotANumber(spec_pos(node))))
                } else if 1 <= whole_value(s, 10) <= 214 {
                    Ok(Radical { kind, radical: whole_value(s, 10) as u8 })
                } else {
                    Err(RadicalError::OutOfRange(spec_pos(node)))
                },
            },
        },
    }
}

/// Decodes the classification that `node` writes.
pub fn from(node: &Node) -> (r: Result<Radical, RadicalError>)
    ensures
        r == spec_from(*node),
{
    let name = match attr(node, Attr::RadType) {
        Ok(name) => name,
        Err(e) => {
            return Err(RadicalError::Shared(e));
        },
    };
    let kind = if str_eq(name, "classical") {
        RadicalKind::Classical
    } else if str_eq(name, "nelson_c") {
        RadicalKind::Nelson
    } else {
        return Err(RadicalError::Kind(PosError::from(node)));
    };
    let s = match text(node) {
        Ok(s) => s,
        Err(e) => {
            return Err(RadicalError::Shared(e));
        },
    };
    let chars = chars_of(s);
    match parse_number(&chars, 10, 214) {
        Ok(n) => if n >= 1 {
            Ok(Radical { kind, radical: n as u8 })
        } else {
            Err(RadicalError::OutOfRange(PosError::from(node)))
        },
        Err(Malformed::NumberTooLarge) => Err(RadicalError::OutOfRange(PosError::from(node))),
        Err(_) => Err(RadicalError::Shared(SharedError::NotANumber(PosError::from(node)))),
    }
}


impl RadicalError {
    /// What the error says: the component that reports it, then what went
    /// wrong, then what the error holds.
    pub open spec fn spec_message(self) -> Seq<char> {
        match self {
            RadicalError::Shared(error) => "(Radical) Shared: "@ + error.spec_message(),
            RadicalError::Kind(pos) => "(Radical) Kind: "@ + pos.spec_message(),
            RadicalError::OutOfRange(pos) => "(Radical) Out of range: "@ + pos.spec_message(),
        }
    }

    /// Appends what the error says to `out`.
    pub fn write(&self, out: &mut String)
        ensures
            final(out)@ == old(out)@ + self.spec_message(),
    {
        match *self {
            RadicalError::Shared(error) => {
                out.append("(Radical) Shared: ");
                error.write(out);
                assert(out@ =~= old(out)@ + self.spec_message());
            },
            RadicalError::Kind(pos) => {
                out.append("(Radical) Kind: ");
                pos.write(out);
                assert(out@ =~= old(out)@ + self.spec_message());
            },
            RadicalError::OutOfRange(pos) => {
                out.append("(Radical) Out of range: ");
                pos.write(out);
                assert(out@ =~= old(out)@ + self.spec_message());
            },
        }
    }

    /// What the error says.
    pub fn message(&self) -> (r: String)
        ensures
            r@ == self.spec_message(),
    {
        let mut out = String::new();
        self.write(&mut out);
        assert(out@ =~= self.spec_message());
        out
    }
}

} // verus!
