//! An index into P.G. O'Neill's "Japanese Names": a number that a letter may
//! follow.

use crate::text::{
    chars_of, is_canonical_decimal, is_letter, digits_end, lemma_canonical_decimal,
    lemma_decimal_value, lemma_digits_end_bounds, lemma_letters_end, lemma_take_decimal,
    letters_end, push_decimal, spec_decimal, spec_take_uint, take_letters, take_uint, Malformed,
};
use vstd::prelude::*;
use vstd::string::StringExecFns;

verus! {

/// An index into the Japanese Names reference book
#[derive(Debug, Clone, Copy, PartialEq, Eq, PartialOrd, Ord, Hash)]
pub struct Oneill {
    /// The reference number
    pub number: u16,
    /// A reference's suffix
    pub suffix: Option<OneillSuffix>,
}

/// The suffix for a Japanese Names reference
#[derive(Debug, Clone, Copy, PartialEq, Eq, PartialOrd, Ord, Hash)]
pub enum OneillSuffix {
    /// 'A' suffix
    A,
}

/// Why a text is no index of O'Neill.
#[derive(Debug, Clone, Copy, PartialEq, Eq, Hash)]
pub enum OneillParseError {
    /// Letters follow the number that are no known suffix.
    UnknownSuffix,
    /// The text does not begin with a reference number.
    Format(Malformed),
}

/// The suffix that the run of letters at `at` writes: none for no letter, `A`
/// for the one letter `A`.
pub open spec fn spec_suffix(s: Seq<char>, at: int) -> Result<Option<OneillSuffix>, OneillParseError> {
    let end = letters_end(s, at);
    if end == at {
        Ok(None)
    } else if end == at + 1 && s[at] == 'A' {
        Ok(Some(OneillSuffix::A))
    } else {
        Err(OneillParseError::UnknownSuffix)
    }
}

/// The number and the suffix that `s` begins with. The number is decimal and at
/// most 65535; every letter that follows it belongs to the suffix; what follows
/// the letters is not read.
pub open spec fn spec_parts(s: Seq<char>) -> Result<(u16, Option<OneillSuffix>), OneillParseError> {
    match spec_take_uint(s, 0, 10, 0xffff) {
        Err(e) => Err(OneillParseError::Format(e)),
        Ok((number, at)) => match spec_suffix(s, at) {
            Err(e) => Err(e),
            Ok(suffix) => Ok((number as u16, suffix)),
        },
    }
}

/// The index that `s` begins with.
pub open spec fn spec_parse(s: Seq<char>) -> Result<Oneill, OneillParseError> {
    match spec_parts(s) {
        Err(e) => Err(e),
        Ok((number, suffix)) => Ok(Oneill { number, suffix }),
    }
}

/// The letters that write `suffix`.
pub open spec fn spec_suffix_text(suffix: Option<OneillSuffix>) -> Seq<char> {
    match suffix {
        None => Seq::empty(),
        Some(OneillSuffix::A) => seq!['A'],
    }
}

/// The text of `index`: its number without leading zeros, then its suffix.
pub open spec fn spec_encode(index: Oneill) -> Seq<char> {
    spec_decimal(index.number as nat) + spec_suffix_text(index.suffix)
}

/// Whether `s` is an index in the form in which `spec_encode` writes one: a
/// canonical decimal, then letters to the end of the text.
pub open spec fn is_canonical(s: Seq<char>) -> bool {
    let at = digits_end(s, 0, 10);
    &&& is_canonical_decimal(s.subrange(0, at))
    &&& letters_end(s, at) == s.len()
}

impl OneillParseError {
    /// The error for a text that does not fit the grammar.
    pub fn from(err: Malformed) -> (r: OneillParseError)
        ensures
            r == OneillParseError::Format(err),
    {
        OneillParseError::Format(err)
    }
}

/// Reads the suffix written at `at`.
pub fn suffix(s: &Vec<char>, at: usize) -> (r: Result<Option<OneillSuffix>, OneillParseError>)
    ensures
        r == spec_suffix(s@, at as int),
{
    let end = take_letters(s, at);
    if end == at {
        Ok(None)
    } else if end - at == 1 && s[at] == 'A' {
        Ok(Some(OneillSuffix::A))
    } else {
        Err(OneillParseError::UnknownSuffix)
    }
}

/// Reads the number and the suffix that `s` begins with.
pub fn parts(s: &Vec<char>) -> (r: Result<(u16, Option<OneillSuffix>), OneillParseError>)
    ensures
        r == spec_parts(s@),
{
    let (number, at) = match take_uint(s, 0, 10, 0xffff) {
        Ok(found) => found,
        Err(e) => {
            return Err(OneillParseError::from(e));
        },
    };
    match suffix(s, at) {
        Ok(suffix) => Ok((number as u16, suffix)),
        Err(e) => Err(e),
    }
}

/// Reads the index that `s` begins with.
pub fn parse(s: &Vec<char>) -> (r: Result<Oneill, OneillParseError>)
    ensures
        r == spec_parse(s@),
{
    match parts(s) {
        Ok((number, suffix)) => Ok(Oneill { number, suffix }),
        Err(e) => Err(e),
    }
}

impl Oneill {
    /// Reads an index from the beginning of `text`.
    pub fn try_from(text: &str) -> (r: Result<Oneill, OneillParseError>)
        ensures
            r == spec_parse(text@),
    {
        let s = chars_of(text);
        parse(&s)
    }

    /// Writes the index as text.
    pub fn encode(&self) -> (r: String)
        ensures
            r@ == spec_encode(*self),
    {
        let mut out = String::new();
        push_decimal(&mut out, self.number as u64);
        match self.suffix {
            None => {},
            Some(OneillSuffix::A) => {
                proof {
                    reveal_strlit("A");
                    assert("A"@ =~= seq!['A']);
                }
                out.append("A");
            },
        }
        assert(out@ =~= spec_encode(*self));
        out
    }
}

/// Decoding the text of an index gives the index back.
pub proof fn lemma_parse_encode(index: Oneill)
    ensures
        spec_parse(spec_encode(index)) == Ok::<Oneill, OneillParseError>(index),
        is_canonical(spec_encode(index)),
{
    let digits = spec_decimal(index.number as nat);
    let letters = spec_suffix_text(index.suffix);
    let s = spec_encode(index);
    let at = digits.len() as int;
    assert(s =~= Seq::<char>::empty() + digits + letters);
    lemma_take_decimal(Seq::empty(), index.number as nat, letters, 0xffff);
    lemma_decimal_value(index.number as nat);
    assert forall|k: int| at <= k < s.len() implies is_letter(s[k]) by {
        assert(s[k] == letters[k - at]);
    }
    lemma_letters_end(s, at, s.len() as int);
    assert(s.subrange(0, at) =~= digits);
    match index.suffix {
        None => {
            assert(letters_end(s, at) == at);
            assert(index.suffix == None::<OneillSuffix>);
        },
        Some(OneillSuffix::A) => {
            assert(s[at] == letters[0]);
            assert(letters[0] == 'A');
            assert(index.suffix == Some(OneillSuffix::A));
        },
    }
    assert(spec_take_uint(s, 0, 10, 0xffff) == Ok::<(nat, int), Malformed>(
        (index.number as nat, at),
    ));
}

/// Writing the index that a canonical text decodes to gives the text back.
pub proof fn lemma_encode_parse(s: Seq<char>, index: Oneill)
    requires
        spec_parse(s) == Ok::<Oneill, OneillParseError>(index),
        is_canonical(s),
    ensures
        spec_encode(index) == s,
{
    let at = digits_end(s, 0, 10);
    lemma_digits_end_bounds(s, 0, 10);
    lemma_canonical_decimal(s.subrange(0, at));
    assert(s.subrange(at, s.len() as int) =~= spec_suffix_text(index.suffix));
    assert(s =~= s.subrange(0, at) + s.subrange(at, s.len() as int));
}


impl OneillParseError {
    /// What the error says: the component that reports it, then what went
    /// wrong, then what the error holds.
    pub open spec fn spec_message(self) -> Seq<char> {
        match self {
            OneillParseError::UnknownSuffix => "(Oneill) Unknown reference suffix"@,
            OneillParseError::Format(reason) => "(Oneill) Format: "@ + reason.spec_message(),
        }
    }

    /// Appends what the error says to `out`.
    pub fn write(&self, out: &mut String)
        ensures
            final(out)@ == old(out)@ + self.spec_message(),
    {
        match *self {
            OneillParseError::UnknownSuffix => {
                out.append("(Oneill) Unknown reference suffix");
                assert(out@ =~= old(out)@ + self.spec_message());
            },
            OneillParseError::Format(reason) => {
                out.append("(Oneill) Format: ");
                reason.write(out);
                assert(out@ =~= old(out)@ + self.spec_message());
            },
        }
    }

    /// What the error says.
    pub fn message(&self) -> (r: String)
        ensures
            r@ == self.spec_message(),
    {
        let mut out = String::new();
        self.write(&mut out);
        assert(out@ =~= self.spec_message());
        out
    }
}

} // verus!
