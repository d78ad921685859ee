//! A reading in modern Mandarin: the romanization, then a digit for the tone.

use crate::pos_error::{spec_pos, PosError};
use crate::shared::{spec_text, text, viewed, SharedError};
use crate::text::{chars_of, digit, is_digit, spec_digit};
use crate::tree::Node;
use vstd::prelude::*;
use vstd::string::StringExecFns;
use vstd::string::StrSliceExecFns;

verus! {

/// A modern PinYin romanization of the Chinese reading.
#[derive(Debug, Clone, PartialEq, Eq, PartialOrd, Ord, Hash)]
pub struct PinYin {
    /// The romanized reading.
    pub romanization: String,
    /// The Mandarin tone of the reading.
    pub tone: Tone,
}

/// What `PinYin` holds, as plain values.
pub struct PinYinView {
    pub romanization: Seq<char>,
    pub tone: Tone,
}

/// One of the four tones of Mandarin or the neutral tone.
#[derive(Debug, Clone, Copy, PartialEq, Eq, PartialOrd, Ord, Hash)]
pub enum Tone {
    /// A steady high sound
    High,
    /// A rising tone
    Rising,
    /// A low or dipping tone
    Low,
    /// A sharp falling tone
    Falling,
    /// A lack of tone
    Neutral,
}

/// Why a text is no reading in pin yin.
#[derive(Debug, Clone, Copy, PartialEq, Eq, Hash)]
pub enum PinYinParseError {
    /// No digit follows the romanization.
    MissingTone,
    /// The digit after the romanization stands for no tone.
    UnknownTone,
}

/// Why a node could not be decoded as a reading in pin yin.
#[derive(Debug, Clone, Copy, PartialEq, Eq, Hash)]
pub enum Error {
    /// The node could not be read.
    Shared(SharedError),
    /// The node's text is no reading in pin yin.
    Parse(PosError, PinYinParseError),
}

impl View for PinYin {
    type V = PinYinView;

    open spec fn view(&self) -> PinYinView {
        PinYinView { romanization: self.romanization@, tone: self.tone }
    }
}

/// The tone that the digit `d` stands for.
pub open spec fn spec_tone(d: nat) -> Option<Tone> {
    if d == 1 {
        Some(Tone::High)
    } else if d == 2 {
        Some(Tone::Rising)
    } else if d == 3 {
        Some(Tone::Low)
    } else if d == 4 {
        Some(Tone::Falling)
    } else if d == 5 {
        Some(Tone::Neutral)
    } else {
        None
    }
}

/// The position of the first decimal digit at or after `from`, or the length
/// of the text where there is none.
pub open spec fn romanization_end(s: Seq<char>, from: int) -> int
    decreases s.len() - from,
{
    if 0 <= from < s.len() && !is_digit(s[from], 10) {
        romanization_end(s, from + 1)
    } else {
        from
    }
}

/// The reading that `s` begins with: everything before the first digit is the
/// romanization, and that digit is the tone. What follows the digit is not
/// read.
pub open spec fn spec_parse(s: Seq<char>) -> Result<PinYinView, PinYinParseError> {
    let end = romanization_end(s, 0);
    if end >= s.len() {
        Err(PinYinParseError::MissingTone)
    } else {
        match spec_digit(s[end], 10) {
            None => Err(PinYinParseError::MissingTone),
            Some(d) => match spec_tone(d) {
                None => Err(PinYinParseError::UnknownTone),
                Some(tone) => Ok(PinYinView { romanization: s.subrange(0, end), tone }),
            },
        }
    }
}

/// The reading that `node` writes as its text.
pub open spec fn spec_from(node: Node) -> Result<PinYinView, Error> {
    match spec_text(node) {
        None => Err(Error::Shared(SharedError::MissingText(spec_pos(node)))),
        Some(s) => match spec_parse(s) {
            Ok(reading) => Ok(reading),
            Err(e) => Err(Error::Parse(spec_pos(node), e)),
        },
    }
}

/// The romanization ends at the first digit.
pub proof fn lemma_romanization_end(s: Seq<char>, from: int, end: int)
    requires
        0 <= from <= end <= s.len(),
        forall|k: int| from <= k < end ==> !is_digit(s[k], 10),
        end == s.len() || is_digit(s[end], 10),
    ensures
        romanization_end(s, from) == end,
    decreases end - from,
{
    if from < end {
        lemma_romanization_end(s, from + 1, end);
    }
}

impl PinYin {
    /// Reads a reading in pin yin from the beginning of `text`.
    pub fn try_from(text: &str) -> (r: Result<PinYin, PinYinParseError>)
        ensures
            viewed(r) == spec_parse(text@),
    {
        let s = chars_of(text);
        let mut end: usize = 0;
        while end < s.len() && digit(s[end], 10).is_none()
            invariant
                end <= s@.len(),
                forall|k: int| 0 <= k < end ==> !is_digit(s@[k], 10),
            decreases s@.len() - end,
        {
            end += 1;
        }
        proof {
            lemma_romanization_end(s@, 0, end as int);
        }
        if end >= s.len() {
            return Err(PinYinParseError::MissingTone);
        }
        let d = match digit(s[end], 10) {
            Some(d) => d,
            None => {
                return Err(PinYinParseError::MissingTone);
            },
        };
        let tone = if d == 1 {
            Tone::High
        } else if d == 2 {
            Tone::Rising
        } else if d == 3 {
            Tone::Low
        } else if d == 4 {
            Tone::Falling
        } else if d == 5 {
            Tone::Neutral
        } else {
            return Err(PinYinParseError::UnknownTone);
        };
        Ok(PinYin { romanization: text.substring_char(0, end).to_owned(), tone })
    }
}

/// Decodes the reading that `node` writes.
pub fn from(node: &Node) -> (r: Result<PinYin, Error>)
    ensures
        viewed(r) == spec_from(*node),
{
    let s = match text(node) {
        Ok(s) => s,
        Err(e) => {
            return Err(Error::Shared(e));
        },
    };
    match PinYin::try_from(s) {
        Ok(reading) => Ok(reading),
        Err(e) => Err(Error::Parse(PosError::from(node), e)),
    }
}


impl PinYinParseError {
    /// What the error says: the component that reports it, then what went
    /// wrong, then what the error holds.
    pub open spec fn spec_message(self) -> Seq<char> {
        match self {
            PinYinParseError::MissingTone => "(Pin yin) Missing tone"@,
            PinYinParseError::UnknownTone => "(Pin yin) Unknown tone"@,
        }
    }

    /// Appends what the error says to `out`.
    pub fn write(&self, out: &mut String)
        ensures
            final(out)@ == old(out)@ + self.spec_message(),
    {
        match *self {
            PinYinParseError::MissingTone => {
                out.append("(Pin yin) Missing tone");
                assert(out@ =~= old(out)@ + self.spec_message());
            },
            PinYinParseError::UnknownTone => {
                out.append("(Pin yin) Unknown tone");
                assert(out@ =~= old(out)@ + self.spec_message());
            },
        }
    }

    /// What the error says.
    pub fn message(&self) -> (r: String)
        ensures
            r@ == self.spec_message(),
    {
        let mut out = String::new();
        self.write(&mut out);
        assert(out@ =~= self.spec_message());
        out
    }
}

impl Error {
    /// What the error says: the component that reports it, then what went
    /// wrong, then what the error holds.
    pub open spec fn spec_message(self) -> Seq<char> {
        match self {
            Error::Shared(error) => "(Pin yin) Shared: "@ + error.spec_message(),
            Error::Parse(pos, error) => "(Pin yin) Parse: "@ + pos.spec_message() + ", "@ + error.spec_message(),
        }
    }

    /// Appends what the error says to `out`.
    pub fn write(&self, out: &mut String)
        ensures
            final(out)@ == old(out)@ + self.spec_message(),
    {
        match *self {
            Error::Shared(error) => {
                out.append("(Pin yin) Shared: ");
                error.write(out);
                assert(out@ =~= old(out)@ + self.spec_message());
            },
            Error::Parse(pos, error) => {
                out.append("(Pin yin) Parse: ");
                pos.write(out);
                out.append(", ");
                error.write(out);
                assert(out@ =~= old(out)@ + self.spec_message());
            },
        }
    }

    /// What the error says.
    pub fn message(&self) -> (r: String)
        ensures
            r@ == self.spec_message(),
    {
        let mut out = String::new();
        self.write(&mut out);
        assert(out@ =~= self.spec_message());
        out
    }
}

} // verus!
