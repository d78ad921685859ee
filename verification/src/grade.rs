//! The grade in which a kanji is taught.

use crate::shared::spec_text;
use crate::text::{chars_of, is_number, parse_number, whole_value, Malformed};
use crate::tree::Node;
use vstd::prelude::*;
use vstd::string::StringExecFns;

verus! {

/// Why a node could not be decoded as a grade.
#[derive(Debug, Clone, Copy, PartialEq, Eq, Hash)]
pub enum GradeError {
    /// Node contains no text
    NoText,
    /// Does not fit one of the recognized grade levels: the text is a number,
    /// of whatever length, that stands for no grade
    Unrecognized,
    /// Grade should be a digit: the text is not a number
    Digit,
}

/// The grade level in which the kanji is learned.
#[derive(Debug, Clone, Copy, PartialEq, Eq, Hash)]
pub enum Grade {
    /// A Kyouiku kanji learned in grades 1-6.
    Kyouiku(u8),
    /// A remaining Jouyou kanji to be learned in junior hi-school.
    Jouyou,
    /// A Jinmeiyou kanji for use in names that is approved
    /// for use in family name registers and other official documents.
    Jinmeiyou,
    /// A Jinmeiyou kanji that is a variant of a Jouyou kanji.
    JinmeiyouJouyouVariant,
}

/// The grade that the number `n` stands for: 1 to 6 are the school grades, 8 is
/// the rest of the Jouyou kanji, 9 and 10 are the two kinds of Jinmeiyou kanji.
/// No other number is a grade.
pub open spec fn spec_grade(n: nat) -> Option<Grade> {
    if 1 <= n <= 6 {
        Some(Grade::Kyouiku(n as u8))
    } else if n == 8 {
        Some(Grade::Jouyou)
    } else if n == 9 {
        Some(Grade::Jinmeiyou)
    } else if n == 10 {
        Some(Grade::JinmeiyouJouyouVariant)
    } else {
        None
    }
}

/// The grade that `node` writes: its text is a decimal number that stands for
/// a grade. A text that is no number is told from a number that stands for no
/// grade, however many digits the number has.
pub open spec fn spec_from(node: Node) -> Result<Grade, GradeError> {
    match spec_text(node) {
        None => Err(GradeError::NoText),
        Some(s) => if !is_number(s, 10) {
            Err(GradeError::Digit)
        } else {
            match spec_grade(whole_value(s, 10)) {
                Some(grade) => Ok(grade),
                None => Err(GradeError::Unrecognized),
            }
        },
    }
}

impl Grade {
    /// Decodes the grade that `node` writes.
    pub fn try_from(node: &Node) -> (r: Result<Grade, GradeError>)
        ensures
            r == spec_from(*node),
    {
        let text = match &node.text {
            Some(text) => text.as_str(),
            None => {
                return Err(GradeError::NoText);
            },
        };
        let chars = chars_of(text);
        let n: u32 = match parse_number(&chars, 10, 10) {
            Ok(n) => n,
            Err(Malformed::NumberTooLarge) => {
                return Err(GradeError::Unrecognized);
            },
            Err(_) => {
                return Err(GradeError::Digit);
            },
        };
        if 1 <= n && n <= 6 {
            Ok(Grade::Kyouiku(n as u8))
        } else if n == 8 {
            Ok(Grade::Jouyou)
        } else if n == 9 {
            Ok(Grade::Jinmeiyou)
        } else if n == 10 {
            Ok(Grade::JinmeiyouJouyouVariant)
        } else {
            Err(GradeError::Unrecognized)
        }
    }
}

/// The numbers that stand for a grade are 1 to 6 and 8 to 10, and a school
/// grade is the grade of its own number.
pub proof fn lemma_grade_numbers(n: nat)
    ensures
        spec_grade(n) is Some <==> (1 <= n <= 6 || 8 <= n <= 10),
        1 <= n <= 6 ==> spec_grade(n) == Some(Grade::Kyouiku(n as u8)),
{
}

/// A node whose text is no number is rejected as such, and a node whose text
/// is a number that stands for no grade, such as 0, 7 and every number from 11
/// on, as unrecognized.
pub proof fn lemma_rejected(node: Node)
    requires
        spec_text(node) is Some,
    ensures
        !is_number(spec_text(node)->0, 10) ==> spec_from(node) == Err::<Grade, GradeError>(
            GradeError::Digit,
        ),
        is_number(spec_text(node)->0, 10) && (whole_value(spec_text(node)->0, 10) == 0
            || whole_value(spec_text(node)->0, 10) == 7 || whole_value(spec_text(node)->0, 10)
            >= 11) ==> spec_from(node) == Err::<Grade, GradeError>(GradeError::Unrecognized),
        spec_from(node) is Ok <==> is_number(spec_text(node)->0, 10) && (1 <= whole_value(
            spec_text(node)->0,
            10,
        ) <= 6 || 8 <= whole_value(spec_text(node)->0, 10) <= 10),
{
}

impl GradeError {
    /// What the error says.
    pub open spec fn spec_message(self) -> Seq<char> {
        match self {
            GradeError::NoText => "Node contains no text"@,
            GradeError::Unrecognized => "Does not fit one of the recognized grade levels"@,
            GradeError::Digit => "Grade should be a digit"@,
        }
    }

    /// Appends what the error says to `out`.
    pub fn write(&self, out: &mut String)
        ensures
            final(out)@ == old(out)@ + self.spec_message(),
    {
        match *self {
            GradeError::NoText => {
                out.append("Node contains no text");
                assert(out@ =~= old(out)@ + self.spec_message());
            },
            GradeError::Unrecognized => {
                out.append("Does not fit one of the recognized grade levels");
                assert(out@ =~= old(out)@ + self.spec_message());
            },
            GradeError::Digit => {
                out.append("Grade should be a digit");
                assert(out@ =~= old(out)@ + self.spec_message());
            },
        }
    }

    /// What the error says.
    pub fn message(&self) -> (r: String)
        ensures
            r@ == self.spec_message(),
    {
        let mut out = String::new();
        self.write(&mut out);
        assert(out@ =~= self.spec_message());
        out
    }
}

} // verus!
