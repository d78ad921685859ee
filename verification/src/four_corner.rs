//! The code of a kanji in the Four Corner system of Wang Chen: the shape of the
//! stroke in each corner, and optionally, after a dot, of a fifth place above
//! the lower right corner.

use crate::pos_error::{spec_pos, PosError};
use crate::shared::{spec_text, text, SharedError};
use crate::text::{chars_of, digit, spec_digit, Malformed};
use crate::tree::Node;
use vstd::prelude::*;
use vstd::string::StringExecFns;

verus! {

/// A kanji's code in the Four Corner system.
#[derive(Debug, Clone, Copy, PartialEq, Eq, PartialOrd, Ord, Hash)]
pub struct FourCorner {
    /// The stroke at the top left corner.
    pub top_left: Stroke,
    /// The stroke at the top right corner.
    pub top_right: Stroke,
    /// The stroke at the bottom left corner.
    pub bottom_left: Stroke,
    /// The stroke at the bottom right corner.
    pub bottom_right: Stroke,
    /// Where necessary to differentiate between other
    /// characters with the same strokes, this extra stroke
    /// is found above the bottom right stroke.
    pub fifth_corner: Option<Stroke>,
}

/// A stroke shape in the Four Corner system.
#[derive(Debug, Clone, Copy, PartialEq, Eq, PartialOrd, Ord, Hash)]
pub enum Stroke {
    /// 亠
    Lid,
    /// 一
    LineHorizontal,
    /// ｜
    LineVertical,
    /// 丶
    Dot,
    /// 十
    Cross,
    /// キ
    Skewer,
    /// 口
    Box,
    /// 厂
    Angle,
    /// 八
    Hachi,
    /// 小
    Chiisai,
}

/// Why a node could not be decoded as a Four Corner code.
#[derive(Debug, Clone, Copy, PartialEq, Eq, Hash)]
pub enum FourCornerError {
    /// The node could not be read.
    Shared(SharedError),
    /// The node's text is no Four Corner code.
    Format(PosError, Malformed),
}

/// The shape that the digit `d` stands for. Each of the ten digits is a shape.
pub open spec fn spec_stroke(d: nat) -> Stroke {
    if d == 0 {
        Stroke::Lid
    } else if d == 1 {
        Stroke::LineHorizontal
    } else if d == 2 {
        Stroke::LineVertical
    } else if d == 3 {
        Stroke::Dot
    } else if d == 4 {
        Stroke::Cross
    } else if d == 5 {
        Stroke::Skewer
    } else if d == 6 {
        Stroke::Box
    } else if d == 7 {
        Stroke::Angle
    } else if d == 8 {
        Stroke::Hachi
    } else {
        Stroke::Chiisai
    }
}

/// The shape that is written at `at`, where a decimal digit stands there.
pub open spec fn spec_stroke_at(s: Seq<char>, at: int) -> Option<Stroke> {
    if 0 <= at < s.len() {
        match spec_digit(s[at], 10) {
            Some(d) => Some(spec_stroke(d)),
            None => None,
        }
    } else {
        None
    }
}

/// The code that `s` begins with: four digits, one for each corner, and the
/// fifth place where a dot and a digit follow them. What follows is not read.
pub open spec fn spec_parse(s: Seq<char>) -> Result<FourCorner, Malformed> {
    match (
        spec_stroke_at(s, 0),
        spec_stroke_at(s, 1),
        spec_stroke_at(s, 2),
        spec_stroke_at(s, 3),
    ) {
        (Some(top_left), Some(top_right), Some(bottom_left), Some(bottom_right)) => Ok(
            FourCorner {
                top_left,
                top_right,
                bottom_left,
                bottom_right,
                fifth_corner: if s.len() > 4 && s[4] == '.' {
                    spec_stroke_at(s, 5)
                } else {
                    None
                },
            },
        ),
        _ => Err(Malformed::MissingSymbol),
    }
}

/// The code that `node` writes as its text.
pub open spec fn spec_from(node: Node) -> Result<FourCorner, FourCornerError> {
    match spec_text(node) {
        None => Err(FourCornerError::Shared(SharedError::MissingText(spec_pos(node)))),
        Some(s) => match spec_parse(s) {
            Ok(code) => Ok(code),
            Err(e) => Err(FourCornerError::Format(spec_pos(node), e)),
        },
    }
}

/// Reads the shape that is written at `at`.
pub fn stroke_at(s: &Vec<char>, at: usize) -> (r: Option<Stroke>)
    ensures
        r == spec_stroke_at(s@, at as int),
{
    if at >= s.len() {
        return None;
    }
    let d = match digit(s[at], 10) {
        Some(d) => d,
        None => {
            return None;
        },
    };
    Some(
        if d == 0 {
            Stroke::Lid
        } else if d == 1 {
            Stroke::LineHorizontal
        } else if d == 2 {
            Stroke::LineVertical
        } else if d == 3 {
            Stroke::Dot
        } else if d == 4 {
            Stroke::Cross
        } else if d == 5 {
            Stroke::Skewer
        } else if d == 6 {
            Stroke::Box
        } else if d == 7 {
            Stroke::Angle
        } else if d == 8 {
            Stroke::Hachi
        } else {
            Stroke::Chiisai
        },
    )
}

impl FourCorner {
    /// Reads a code from the beginning of `text`.
    pub fn try_from(text: &str) -> (r: Result<FourCorner, Malformed>)
        ensures
            r == spec_parse(text@),
    {
        let s = chars_of(text);
        let top_left = match stroke_at(&s, 0) {
            Some(stroke) => stroke,
            None => {
                return Err(Malformed::MissingSymbol);
            },
        };
        let top_right = match stroke_at(&s, 1) {
            Some(stroke) => stroke,
            None => {
                return Err(Malformed::MissingSymbol);
            },
        };
        let bottom_left = match stroke_at(&s, 2) {
            Some(stroke) => stroke,
            None => {
                return Err(Malformed::MissingSymbol);
            },
        };
        let bottom_right = match stroke_at(&s, 3) {
            Some(stroke) => stroke,
            None => {
                return Err(Malformed::MissingSymbol);
            },
        };
        let fifth_corner = if s.len() > 4 && s[4] == '.' {
            stroke_at(&s, 5)
        } else {
            None
        };
        Ok(FourCorner { top_left, top_right, bottom_left, bottom_right, fifth_corner })
    }
}

/// Decodes the code that `node` writes.
pub fn from(node: &Node) -> (r: Result<FourCorner, FourCornerError>)
    ensures
        r == spec_from(*node),
{
    let s = match text(node) {
        Ok(s) => s,
        Err(e) => {
            return Err(FourCornerError::Shared(e));
        },
    };
    match FourCorner::try_from(s) {
        Ok(code) => Ok(code),
        Err(e) => Err(FourCornerError::Format(PosError::from(node), e)),
    }
}


impl FourCornerError {
    /// What the error says: the component that reports it, then what went
    /// wrong, then what the error holds.
    pub open spec fn spec_message(self) -> Seq<char> {
        match self {
            FourCornerError::Shared(error) => "(Four corner) Shared: "@ + error.spec_message(),
            FourCornerError::Format(pos, reason) => "(Four corner) Format: "@ + pos.spec_message() + ", "@ + reason.spec_message(),
        }
    }

    /// Appends what the error says to `out`.
    pub fn write(&self, out: &mut String)
        ensures
            final(out)@ == old(out)@ + self.spec_message(),
    {
        match *self {
            FourCornerError::Shared(error) => {
                out.append("(Four corner) Shared: ");
                error.write(out);
                assert(out@ =~= old(out)@ + self.spec_message());
            },
            FourCornerError::Format(pos, reason) => {
                out.append("(Four corner) Format: ");
                pos.write(out);
                out.append(", ");
                reason.write(out);
                assert(out@ =~= old(out)@ + self.spec_message());
            },
        }
    }

    /// What the error says.
    pub fn message(&self) -> (r: String)
        ensures
            r@ == self.spec_message(),
    {
        let mut out = String::new();
        self.write(&mut out);
        assert(out@ =~= self.spec_message());
        out
    }
}

} // verus!
