//! The code of a kanji in Jack Halpern's System of Kanji Indexing by Patterns:
//! the pattern that divides the kanji, then two numbers whose meaning depends
//! on the pattern, with hyphens between the three.

use crate::pos_error::{spec_pos, PosError};
use crate::shared::{spec_text, text, SharedError};
use crate::text::{chars_of, expect, spec_expect, spec_take_uint, take_uint, Malformed};
use crate::tree::Node;
use vstd::prelude::*;
use vstd::string::StringExecFns;

verus! {

/// A SKIP code.
#[derive(Debug, Clone, Copy, PartialEq, Eq, PartialOrd, Ord, Hash)]
pub enum Skip {
    /// Pattern 1, the kanji can be divided into left and right parts.
    Horizontal(SkipHorizontal),
    /// Pattern 2, the kanji can be divided into top and bottom parts.
    Vertical(SkipVertical),
    /// Pattern 3, the kanji can be divided by an enclosure element.
    Enclosure(SkipEnclosure),
    /// Pattern 4, the kanji cannot be classified by any of the above patterns.
    Solid(SkipSolid),
}

/// Left and right pattern
#[derive(Debug, Clone, Copy, PartialEq, Eq, PartialOrd, Ord, Hash)]
pub struct SkipHorizontal {
    /// Number of strokes in the left part.
    pub left: u8,
    /// Number of strokes in the right part.
    pub right: u8,
}

/// Top and bottom pattern
#[derive(Debug, Clone, Copy, PartialEq, Eq, PartialOrd, Ord, Hash)]
pub struct SkipVertical {
    /// Number of strokes in the top part.
    pub top: u8,
    /// Number of strokes in the bottom part.
    pub bottom: u8,
}

/// Enclosure pattern
#[derive(Debug, Clone, Copy, PartialEq, Eq, PartialOrd, Ord, Hash)]
pub struct SkipEnclosure {
    /// Number of strokes in the exterior part.
    pub exterior: u8,
    /// Number of strokes in the interior part.
    pub interior: u8,
}

/// Solid pattern
#[derive(Debug, Clone, Copy, PartialEq, Eq, PartialOrd, Ord, Hash)]
pub struct SkipSolid {
    /// The total number of strokes in the kanji.
    pub total_stroke_count: u8,
    /// The subpattern that defines the kanji.
    pub solid_subpattern: SolidSubpattern,
}

/// An identifying characteristic of the kanji.
#[derive(Debug, Clone, Copy, PartialEq, Eq, PartialOrd, Ord, Hash)]
pub enum SolidSubpattern {
    /// Contains a top line.
    TopLine,
    /// Contains a bottom line.
    BottomLine,
    /// Contains a through line.
    ThroughLine,
    /// Does not contain any of the above.
    Other,
}

/// Why a text is no SKIP code.
#[derive(Debug, Clone, Copy, PartialEq, Eq, Hash)]
pub enum SkipParseError {
    /// The text is not three numbers with hyphens between them.
    Format(Malformed),
    /// The first number is none of the four patterns.
    Pattern,
    /// The third number of a solid kanji is none of the four subpatterns.
    SolidSubpattern,
}

/// Why a node could not be decoded as a SKIP code.
#[derive(Debug, Clone, Copy, PartialEq, Eq, Hash)]
pub enum SkipError {
    /// The node could not be read.
    Shared(SharedError),
    /// The node's text is no SKIP code.
    Parse(PosError, SkipParseError),
}

/// The subpattern that `n` stands for.
pub open spec fn spec_subpattern(n: nat) -> Option<SolidSubpattern> {
    if n == 1 {
        Some(SolidSubpattern::TopLine)
    } else if n == 2 {
        Some(SolidSubpattern::BottomLine)
    } else if n == 3 {
        Some(SolidSubpattern::ThroughLine)
    } else if n == 4 {
        Some(SolidSubpattern::Other)
    } else {
        None
    }
}

/// The code that the three numbers of a text stand for.
pub open spec fn spec_skip(pattern: nat, first: nat, second: nat) -> Result<Skip, SkipParseError> {
    if pattern == 1 {
        Ok(Skip::Horizontal(SkipHorizontal { left: first as u8, right: second as u8 }))
    } else if pattern == 2 {
        Ok(Skip::Vertical(SkipVertical { top: first as u8, bottom: second as u8 }))
    } else if pattern == 3 {
        Ok(Skip::Enclosure(SkipEnclosure { exterior: first as u8, interior: second as u8 }))
    } else if pattern == 4 {
        match spec_subpattern(second) {
            Some(solid_subpattern) => Ok(
                Skip::Solid(SkipSolid { total_stroke_count: first as u8, solid_subpattern }),
            ),
            None => Err(SkipParseError::SolidSubpattern),
        }
    } else {
        Err(SkipParseError::Pattern)
    }
}

/// The code that `s` begins with: three decimal numbers of at most 255 with a
/// hyphen after the first and the second. What follows the third is not read.
pub open spec fn spec_parse(s: Seq<char>) -> Result<Skip, SkipParseError> {
    match spec_take_uint(s, 0, 10, 0xff) {
        Err(e) => Err(SkipParseError::Format(e)),
        Ok((pattern, i)) => match spec_expect(s, i, '-') {
            Err(e) => Err(SkipParseError::Format(e)),
            Ok(i) => match spec_take_uint(s, i, 10, 0xff) {
                Err(e) => Err(SkipParseError::Format(e)),
                Ok((first, j)) => match spec_expect(s, j, '-') {
                    Err(e) => Err(SkipParseError::Format(e)),
                    Ok(j) => match spec_take_uint(s, j, 10, 0xff) {
                        Err(e) => Err(SkipParseError::Format(e)),
                        Ok((second, _)) => spec_skip(pattern, first, second),
                    },
                },
            },
        },
    }
}

/// The code that `node` writes as its text.
pub open spec fn spec_from(node: Node) -> Result<Skip, SkipError> {
    match spec_text(node) {
        None => Err(SkipError::Shared(SharedError::MissingText(spec_pos(node)))),
        Some(s) => match spec_parse(s) {
            Ok(skip) => Ok(skip),
            Err(e) => Err(SkipError::Parse(spec_pos(node), e)),
        },
    }
}

impl Skip {
    /// Reads a code from the beginning of `text`.
    pub fn try_from(text: &str) -> (r: Result<Skip, SkipParseError>)
        ensures
            r == spec_parse(text@),
    {
        let s = chars_of(text);
        let (pattern, i) = match take_uint(&s, 0, 10, 0xff) {
            Ok(found) => found,
            Err(e) => {
                return Err(SkipParseError::Format(e));
            },
        };
        let i = match expect(&s, i, '-') {
            Ok(i) => i,
            Err(e) => {
                return Err(SkipParseError::Format(e));
            },
        };
        let (first, j) = match take_uint(&s, i, 10, 0xff) {
            Ok(found) => found,
            Err(e) => {
                return Err(SkipParseError::Format(e));
            },
        };
        let j = match expect(&s, j, '-') {
            Ok(j) => j,
            Err(e) => {
                return Err(SkipParseError::Format(e));
            },
        };
        let (second, _) = match take_uint(&s, j, 10, 0xff) {
            Ok(found) => found,
            Err(e) => {
                return Err(SkipParseError::Format(e));
            },
        };
        let first = first as u8;
        if pattern == 1 {
            Ok(Skip::Horizontal(SkipHorizontal { left: first, right: second as u8 }))
        } else if pattern == 2 {
            Ok(Skip::Vertical(SkipVertical { top: first, bottom: second as u8 }))
        } else if pattern == 3 {
            Ok(Skip::Enclosure(SkipEnclosure { exterior: first, interior: second as u8 }))
        } else if pattern == 4 {
            let solid_subpattern = if second == 1 {
                SolidSubpattern::TopLine
            } else if second == 2 {
                SolidSubpattern::BottomLine
            } else if second == 3 {
                SolidSubpattern::ThroughLine
            } else if second == 4 {
                SolidSubpattern::Other
            } else {
                return Err(SkipParseError::SolidSubpattern);
            };
            Ok(Skip::Solid(SkipSolid { total_stroke_count: first, solid_subpattern }))
        } else {
            Err(SkipParseError::Pattern)
        }
    }
}

/// Decodes the code that `node` writes.
pub fn from(node: &Node) -> (r: Result<Skip, SkipError>)
    ensures
        r == spec_from(*node),
{
    let s = match text(node) {
        Ok(s) => s,
        Err(e) => {
            return Err(SkipError::Shared(e));
        },
    };
    match Skip::try_from(s) {
        Ok(skip) => Ok(skip),
        Err(e) => Err(SkipError::Parse(PosError::from(node), e)),
    }
}


impl SkipParseError {
    /// What the error says: the component that reports it, then what went
    /// wrong, then what the error holds.
    pub open spec fn spec_message(self) -> Seq<char> {
        match self {
            SkipParseError::Format(reason) => "(Skip) Format: "@ + reason.spec_message(),
            SkipParseError::Pattern => "(Skip) Pattern"@,
            SkipParseError::SolidSubpattern => "(Skip) Solid subpattern"@,
        }
    }

    /// Appends what the error says to `out`.
    pub fn write(&self, out: &mut String)
        ensures
            final(out)@ == old(out)@ + self.spec_message(),
    {
        match *self {
            SkipParseError::Format(reason) => {
                out.append("(Skip) Format: ");
                reason.write(out);
                assert(out@ =~= old(out)@ + self.spec_message());
            },
            SkipParseError::Pattern => {
                out.append("(Skip) Pattern");
                assert(out@ =~= old(out)@ + self.spec_message());
            },
            SkipParseError::SolidSubpattern => {
                out.append("(Skip) Solid subpattern");
                assert(out@ =~= old(out)@ + self.spec_message());
            },
        }
    }

    /// What the error says.
    pub fn message(&self) -> (r: String)
        ensures
            r@ == self.spec_message(),
    {
        let mut out = String::new();
        self.write(&mut out);
        assert(out@ =~= self.spec_message());
        out
    }
}

impl SkipError {
    /// What the error says: the component that reports it, then what went
    /// wrong, then what the error holds.
    pub open spec fn spec_message(self) -> Seq<char> {
        match self {
            SkipError::Shared(error) => "(Skip) Shared: "@ + error.spec_message(),
            SkipError::Parse(pos, error) => "(Skip) Parse: "@ + pos.spec_message() + ", "@ + error.spec_message(),
        }
    }

    /// Appends what the error says to `out`.
    pub fn write(&self, out: &mut String)
        ensures
            final(out)@ == old(out)@ + self.spec_message(),
    {
        match *self {
            SkipError::Shared(error) => {
                out.append("(Skip) Shared: ");
                error.write(out);
                assert(out@ =~= old(out)@ + self.spec_message());
            },
            SkipError::Parse(pos, error) => {
                out.append("(Skip) Parse: ");
                pos.write(out);
                out.append(", ");
                error.write(out);
                assert(out@ =~= old(out)@ + self.spec_message());
            },
        }
    }

    /// What the error says.
    pub fn message(&self) -> (r: String)
        ensures
            r@ == self.spec_message(),
    {
        let mut out = String::new();
        self.write(&mut out);
        assert(out@ =~= self.spec_message());
        out
    }
}

} // verus!
