//! A place in "Japanese for Busy People": the volume, a dot, and the chapter,
//! which is a number or the letter `A`.

use crate::pos_error::{spec_pos, PosError};
use crate::shared::{spec_text, text, SharedError};
use crate::text::{chars_of, expect, spec_expect, spec_take_uint, take_uint, Malformed};
use crate::tree::Node;
use vstd::prelude::*;
use vstd::string::StringExecFns;

verus! {

/// A location in Japanese for Busy People.
#[derive(Debug, Clone, Copy, PartialEq, Eq, PartialOrd, Ord, Hash)]
pub struct BusyPeople {
    /// The volume
    pub volume: u8,
    /// The chapter
    pub chapter: Chapter,
}

/// Either the chapter number or chapter A in Japanese for Busy People.
#[derive(Debug, Clone, Copy, PartialEq, Eq, PartialOrd, Ord, Hash)]
pub enum Chapter {
    /// A chapter number.
    Chapter(u8),
    /// Some of the chapter are called "A",
    /// but it isn't specified anywhere what that means.
    A,
}

/// Why a node could not be decoded as a place in Japanese for Busy People.
#[derive(Debug, Clone, Copy, PartialEq, Eq, Hash)]
pub enum BusyPeopleError {
    /// The node could not be read.
    Shared(SharedError),
    /// The node's text is no place in the book.
    Format(PosError, Malformed),
}

/// The chapter that is written at `at`: the letter `A`, or a decimal number of
/// at most 255.
pub open spec fn spec_chapter(s: Seq<char>, at: int) -> Result<Chapter, Malformed> {
    if 0 <= at < s.len() && s[at] == 'A' {
        Ok(Chapter::A)
    } else {
        match spec_take_uint(s, at, 10, 0xff) {
            Err(e) => Err(e),
            Ok((n, _)) => Ok(Chapter::Chapter(n as u8)),
        }
    }
}

/// The place that `s` begins with. The volume is a decimal number of at most
/// 255. What follows the chapter is not read.
pub open spec fn spec_parse(s: Seq<char>) -> Result<BusyPeople, Malformed> {
    match spec_take_uint(s, 0, 10, 0xff) {
        Err(e) => Err(e),
        Ok((volume, i)) => match spec_expect(s, i, '.') {
            Err(e) => Err(e),
            Ok(i) => match spec_chapter(s, i) {
                Err(e) => Err(e),
                Ok(chapter) => Ok(BusyPeople { volume: volume as u8, chapter }),
            },
        },
    }
}

/// The place that `node` writes as its text.
pub open spec fn spec_from(node: Node) -> Result<BusyPeople, BusyPeopleError> {
    match spec_text(node) {
        None => Err(BusyPeopleError::Shared(SharedError::MissingText(spec_pos(node)))),
        Some(s) => match spec_parse(s) {
            Ok(place) => Ok(place),
            Err(e) => Err(BusyPeopleError::Format(spec_pos(node), e)),
        },
    }
}

impl BusyPeople {
    /// Reads a place from the beginning of `text`.
    pub fn try_from(text: &str) -> (r: Result<BusyPeople, Malformed>)
        ensures
            r == spec_parse(text@),
    {
        let s = chars_of(text);
        let (volume, i) = match take_uint(&s, 0, 10, 0xff) {
            Ok(found) => found,
            Err(e) => {
                return Err(e);
            },
        };
        let i = match expect(&s, i, '.') {
            Ok(i) => i,
            Err(e) => {
                return Err(e);
            },
        };
        let chapter = if i < s.len() && s[i] == 'A' {
            Chapter::A
        } else {
            match take_uint(&s, i, 10, 0xff) {
                Ok((n, _)) => Chapter::Chapter(n as u8),
                Err(e) => {
                    return Err(e);
                },
            }
        };
        Ok(BusyPeople { volume: volume as u8, chapter })
    }
}

/// Decodes the place that `node` writes.
pub fn from(node: &Node) -> (r: Result<BusyPeople, BusyPeopleError>)
    ensures
        r == spec_from(*node),
{
    let s = match text(node) {
        Ok(s) => s,
        Err(e) => {
            return Err(BusyPeopleError::Shared(e));
        },
    };
    match BusyPeople::try_from(s) {
        Ok(place) => Ok(place),
        Err(e) => Err(BusyPeopleError::Format(PosError::from(node), e)),
    }
}


impl BusyPeopleError {
    /// What the error says: the component that reports it, then what went
    /// wrong, then what the error holds.
    pub open spec fn spec_message(self) -> Seq<char> {
        match self {
            BusyPeopleError::Shared(error) => "(Busy people) Shared: "@ + error.spec_message(),
            BusyPeopleError::Format(pos, reason) => "(Busy people) Format: "@ + pos.spec_message() + ", "@ + reason.spec_message(),
        }
    }

    /// Appends what the error says to `out`.
    pub fn write(&self, out: &mut String)
        ensures
            final(out)@ == old(out)@ + self.spec_message(),
    {
        match *self {
            BusyPeopleError::Shared(error) => {
                out.append("(Busy people) Shared: ");
                error.write(out);
                assert(out@ =~= old(out)@ + self.spec_message());
            },
            BusyPeopleError::Format(pos, reason) => {
                out.append("(Busy people) Format: ");
                pos.write(out);
                out.append(", ");
                reason.write(out);
                assert(out@ =~= old(out)@ + self.spec_message());
            },
        }
    }

    /// What the error says.
    pub fn message(&self) -> (r: String)
        ensures
            r@ == self.spec_message(),
    {
        let mut out = String::new();
        self.write(&mut out);
        assert(out@ =~= self.spec_message());
        out
    }
}

} // verus!
