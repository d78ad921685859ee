//! The descriptor of a kanji in "The Kanji Dictionary" of Spahn and
//! Hadamitzky, such as `3k10.12`: the strokes of the radical, the letter of the
//! radical, the remaining strokes, a dot, and the number within that group.

use crate::pos_error::{spec_pos, PosError};
use crate::shared::{spec_text, text, SharedError};
use crate::text::{
    chars_of, expect, is_letter, letter, spec_expect, spec_take_uint, take_uint, Malformed,
};
use crate::tree::Node;
use vstd::prelude::*;
use vstd::string::StringExecFns;

verus! {

/// A descriptor of Spahn and Hadamitzky.
#[derive(Debug, Clone, Copy, PartialEq, Eq, PartialOrd, Ord, Hash)]
pub struct ShDesc {
    /// Number of strokes in the identifying radical.
    pub radical_strokes: u8,
    /// The letter for the radical in the identification system.
    pub radical: char,
    /// The number of strokes not included in the radical.
    pub other_strokes: u8,
    /// The position of the kanji in the sequence described
    /// by the other descriptor parts.
    pub sequence: u8,
}

/// Why a node could not be decoded as a descriptor of Spahn and Hadamitzky.
#[derive(Debug, Clone, Copy, PartialEq, Eq, Hash)]
pub enum ShDescError {
    /// The node could not be read.
    Shared(SharedError),
    /// The node's text is no descriptor.
    Format(PosError, Malformed),
}

/// The letter at `at` and the position after it.
pub open spec fn spec_take_letter(s: Seq<char>, at: int) -> Result<(char, int), Malformed> {
    if 0 <= at < s.len() && is_letter(s[at]) {
        Ok((s[at], at + 1))
    } else {
        Err(Malformed::MissingSymbol)
    }
}

/// The descriptor that `s` begins with. Each number is decimal and at most 255.
/// What follows the last number is not read.
pub open spec fn spec_parse(s: Seq<char>) -> Result<ShDesc, Malformed> {
    match spec_take_uint(s, 0, 10, 0xff) {
        Err(e) => Err(e),
        Ok((radical_strokes, i)) => match spec_take_letter(s, i) {
            Err(e) => Err(e),
            Ok((radical, i)) => match spec_take_uint(s, i, 10, 0xff) {
                Err(e) => Err(e),
                Ok((other_strokes, j)) => match spec_expect(s, j, '.') {
                    Err(e) => Err(e),
                    Ok(j) => match spec_take_uint(s, j, 10, 0xff) {
                        Err(e) => Err(e),
                        Ok((sequence, _)) => Ok(
                            ShDesc {
                                radical_strokes: radical_strokes as u8,
                                radical,
                                other_strokes: other_strokes as u8,
                                sequence: sequence as u8,
                            },
                        ),
                    },
                },
            },
        },
    }
}

/// The descriptor that `node` writes as its text.
pub open spec fn spec_from(node: Node) -> Result<ShDesc, ShDescError> {
    match spec_text(node) {
        None => Err(ShDescError::Shared(SharedError::MissingText(spec_pos(node)))),
        Some(s) => match spec_parse(s) {
            Ok(desc) => Ok(desc),
            Err(e) => Err(ShDescError::Format(spec_pos(node), e)),
        },
    }
}

impl ShDesc {
    /// Reads a descriptor from the beginning of `text`.
    pub fn try_from(text: &str) -> (r: Result<ShDesc, Malformed>)
        ensures
            r == spec_parse(text@),
    {
        let s = chars_of(text);
        let (radical_strokes, i) = match take_uint(&s, 0, 10, 0xff) {
            Ok(found) => found,
            Err(e) => {
                return Err(e);
            },
        };
        if !(i < s.len() && letter(s[i])) {
            return Err(Malformed::MissingSymbol);
        }
        let radical = s[i];
        let (other_strokes, j) = match take_uint(&s, i + 1, 10, 0xff) {
            Ok(found) => found,
            Err(e) => {
                return Err(e);
            },
        };
        let j = match expect(&s, j, '.') {
            Ok(j) => j,
            Err(e) => {
                return Err(e);
            },
        };
        let (sequence, _) = match take_uint(&s, j, 10, 0xff) {
            Ok(found) => found,
            Err(e) => {
                return Err(e);
            },
        };
        Ok(
            ShDesc {
                radical_strokes: radical_strokes as u8,
                radical,
                other_strokes: other_strokes as u8,
                sequence: sequence as u8,
            },
        )
    }
}

/// Decodes the descriptor that `node` writes.
pub fn from(node: &Node) -> (r: Result<ShDesc, ShDescError>)
    ensures
        r == spec_from(*node),
{
    let s = match text(node) {
        Ok(s) => s,
        Err(e) => {
            return Err(ShDescError::Shared(e));
        },
    };
    match ShDesc::try_from(s) {
        Ok(desc) => Ok(desc),
        Err(e) => Err(ShDescError::Format(PosError::from(node), e)),
    }
}


impl ShDescError {
    /// What the error says: the component that reports it, then what went
    /// wrong, then what the error holds.
    pub open spec fn spec_message(self) -> Seq<char> {
        match self {
            ShDescError::Shared(error) => "(Spahn Hadamitzky) Shared: "@ + error.spec_message(),
            ShDescError::Format(pos, reason) => "(Spahn Hadamitzky) Format: "@ + pos.spec_message() + ", "@ + reason.spec_message(),
        }
    }

    /// Appends what the error says to `out`.
    pub fn write(&self, out: &mut String)
        ensures
            final(out)@ == old(out)@ + self.spec_message(),
    {
        match *self {
            ShDescError::Shared(error) => {
                out.append("(Spahn Hadamitzky) Shared: ");
                error.write(out);
                assert(out@ =~= old(out)@ + self.spec_message());
            },
            ShDescError::Format(pos, reason) => {
                out.append("(Spahn Hadamitzky) Format: ");
                pos.write(out);
                out.append(", ");
                reason.write(out);
                assert(out@ =~= old(out)@ + self.spec_message());
            },
        }
    }

    /// What the error says.
    pub fn message(&self) -> (r: String)
        ensures
            r@ == self.spec_message(),
    {
        let mut out = String::new();
        self.write(&mut out);
        assert(out@ =~= self.spec_message());
        out
    }
}

} // verus!
