//! An index into Morohashi's "Daikanwajiten": the index number with its suffix
//! is the node's text, volume and page are attributes of the node.

use crate::pos_error::{spec_pos, PosError};
use crate::shared::{attr_uint, spec_attr_uint, spec_text, text, SharedError};
use crate::text::{
    chars_of, digits_end, is_canonical_decimal, is_letter, lemma_canonical_decimal,
    lemma_decimal_value, lemma_digits_end_bounds, lemma_letters_end, lemma_take_decimal,
    letters_end, push_decimal, spec_decimal, spec_take_uint, take_letters, take_uint, Malformed,
};
use crate::tree::{Attr, Node};
use vstd::prelude::*;
use vstd::string::StringExecFns;

verus! {

/// An entry in the dictionary Daikanwajiten.
#[derive(Debug, Clone, Copy, PartialEq, Eq, PartialOrd, Ord, Hash)]
pub struct Moro {
    /// The volume
    pub volume: Option<u8>,
    /// The page
    pub page: Option<u16>,
    /// The item number
    pub index: u16,
    /// The letters that appear after the index, if any
    pub suffix: Option<MoroSuffix>,
}

/// The letters that appear at the end of an index
#[derive(Debug, Clone, Copy, PartialEq, Eq, PartialOrd, Ord, Hash)]
pub enum MoroSuffix {
    /// P suffix
    P,
    /// X suffix
    X,
    /// PX suffix
    PX,
}

/// Why a node could not be decoded as an entry of Morohashi.
#[derive(Debug, Clone, Copy, PartialEq, Eq, Hash)]
pub enum Error {
    /// The node could not be read.
    Shared(SharedError),
    /// Letters follow the index that are no known suffix.
    IndexSuffix,
    /// The node's text does not begin with an index number.
    Format(PosError, Malformed),
}

/// Why a text is no index with a suffix.
#[derive(Debug, Clone, Copy, PartialEq, Eq, Hash)]
pub enum IndexError {
    /// The text does not begin with an index number.
    Format(Malformed),
    /// Letters follow the index that are no known suffix.
    Suffix,
}

/// The suffix that the run of letters at `at` writes: none for no letter, and
/// `X`, `P` and `PX` for these letters; any other run is unknown.
pub open spec fn spec_index_suffix(s: Seq<char>, at: int) -> Result<Option<MoroSuffix>, IndexError> {
    let end = letters_end(s, at);
    if end == at {
        Ok(None)
    } else if end == at + 1 && s[at] == 'X' {
        Ok(Some(MoroSuffix::X))
    } else if end == at + 1 && s[at] == 'P' {
        Ok(Some(MoroSuffix::P))
    } else if end == at + 2 && s[at] == 'P' && s[at + 1] == 'X' {
        Ok(Some(MoroSuffix::PX))
    } else {
        Err(IndexError::Suffix)
    }
}

/// The index and the suffix that `s` begins with. The index is a decimal number
/// of at most 65535 and must be there; every letter that follows it belongs to
/// the suffix; what follows the letters is not read.
pub open spec fn spec_parse_index(s: Seq<char>) -> Result<(u16, Option<MoroSuffix>), IndexError> {
    match spec_take_uint(s, 0, 10, 0xffff) {
        Err(e) => Err(IndexError::Format(e)),
        Ok((index, at)) => match spec_index_suffix(s, at) {
            Err(e) => Err(e),
            Ok(suffix) => Ok((index as u16, suffix)),
        },
    }
}

/// The letters that write `suffix`.
pub open spec fn spec_suffix_text(suffix: Option<MoroSuffix>) -> Seq<char> {
    match suffix {
        None => Seq::empty(),
        Some(MoroSuffix::X) => seq!['X'],
        Some(MoroSuffix::P) => seq!['P'],
        Some(MoroSuffix::PX) => seq!['P', 'X'],
    }
}

/// The text of an index with its suffix: the number without leading zeros, then
/// the suffix.
pub open spec fn spec_encode_index(index: u16, suffix: Option<MoroSuffix>) -> Seq<char> {
    spec_decimal(index as nat) + spec_suffix_text(suffix)
}

/// Whether `s` is an index with a suffix in the form in which
/// `spec_encode_index` writes one: a canonical decimal, then letters to the end
/// of the text.
pub open spec fn is_canonical(s: Seq<char>) -> bool {
    let at = digits_end(s, 0, 10);
    &&& is_canonical_decimal(s.subrange(0, at))
    &&& letters_end(s, at) == s.len()
}

/// The entry that `node` writes: index and suffix from its text, then volume
/// and page from its attributes `m_vol` and `m_page`, each of which may be
/// missing.
pub open spec fn spec_from(node: Node) -> Result<Moro, Error> {
    match spec_text(node) {
        None => Err(Error::Shared(SharedError::MissingText(spec_pos(node)))),
        Some(s) => match spec_parse_index(s) {
            Err(IndexError::Format(e)) => Err(Error::Format(spec_pos(node), e)),
            Err(IndexError::Suffix) => Err(Error::IndexSuffix),
            Ok((index, suffix)) => match spec_attr_uint(node, Attr::MVol, 0xff) {
                Err(e) => Err(Error::Shared(e)),
                Ok(volume) => match spec_attr_uint(node, Attr::MPage, 0xffff) {
                    Err(e) => Err(Error::Shared(e)),
                    Ok(page) => Ok(
                        Moro {
                            volume: match volume {
                                Some(v) => Some(v as u8),
                                None => None,
                            },
                            page: match page {
                                Some(p) => Some(p as u16),
                                None => None,
                            },
                            index,
                            suffix,
                        },
                    ),
                },
            },
        },
    }
}

/// Reads the suffix written at `at`.
pub fn index_suffix(s: &Vec<char>, at: usize) -> (r: Result<Option<MoroSuffix>, IndexError>)
    ensures
        r == spec_index_suffix(s@, at as int),
{
    let end = take_letters(s, at);
    if end == at {
        Ok(None)
    } else if end - at == 1 && s[at] == 'X' {
        Ok(Some(MoroSuffix::X))
    } else if end - at == 1 && s[at] == 'P' {
        Ok(Some(MoroSuffix::P))
    } else if end - at == 2 && s[at] == 'P' && s[at + 1] == 'X' {
        Ok(Some(MoroSuffix::PX))
    } else {
        Err(IndexError::Suffix)
    }
}

/// Reads the index and the suffix that `text` begins with.
pub fn parse_index(text: &str) -> (r: Result<(u16, Option<MoroSuffix>), IndexError>)
    ensures
        r == spec_parse_index(text@),
{
    let s = chars_of(text);
    let (index, at) = match take_uint(&s, 0, 10, 0xffff) {
        Ok(found) => found,
        Err(e) => {
            return Err(IndexError::Format(e));
        },
    };
    match index_suffix(&s, at) {
        Ok(suffix) => Ok((index as u16, suffix)),
        Err(e) => Err(e),
    }
}

/// Decodes the entry that `node` writes.
pub fn from(node: &Node) -> (r: Result<Moro, Error>)
    ensures
        r == spec_from(*node),
{
    let s = match text(node) {
        Ok(s) => s,
        Err(e) => {
            return Err(Error::Shared(e));
        },
    };
    let (index, suffix) = match parse_index(s) {
        Ok(found) => found,
        Err(IndexError::Format(e)) => {
            return Err(Error::Format(PosError::from(node), e));
        },
        Err(IndexError::Suffix) => {
            return Err(Error::IndexSuffix);
        },
    };
    let volume = match attr_uint(node, Attr::MVol, 0xff) {
        Ok(Some(v)) => Some(v as u8),
        Ok(None) => None,
        Err(e) => {
            return Err(Error::Shared(e));
        },
    };
    let page = match attr_uint(node, Attr::MPage, 0xffff) {
        Ok(Some(p)) => Some(p as u16),
        Ok(None) => None,
        Err(e) => {
            return Err(Error::Shared(e));
        },
    };
    Ok(Moro { volume, page, index, suffix })
}

impl Moro {
    /// Writes index and suffix as text.
    pub fn encode_index(&self) -> (r: String)
        ensures
            r@ == spec_encode_index(self.index, self.suffix),
    {
        let mut out = String::new();
        push_decimal(&mut out, self.index as u64);
        proof {
            reveal_strlit("X");
            reveal_strlit("P");
            reveal_strlit("PX");
            assert("X"@ =~= seq!['X']);
            assert("P"@ =~= seq!['P']);
            assert("PX"@ =~= seq!['P', 'X']);
        }
        match self.suffix {
            None => {},
            Some(MoroSuffix::X) => {
                out.append("X");
            },
            Some(MoroSuffix::P) => {
                out.append("P");
            },
            Some(MoroSuffix::PX) => {
                out.append("PX");
            },
        }
        assert(out@ =~= spec_encode_index(self.index, self.suffix));
        out
    }
}

/// Decoding the text of an index with its suffix gives both back.
pub proof fn lemma_parse_encode(index: u16, suffix: Option<MoroSuffix>)
    ensures
        spec_parse_index(spec_encode_index(index, suffix)) == Ok::<(u16, Option<MoroSuffix>), IndexError>(
            (index, suffix),
        ),
        is_canonical(spec_encode_index(index, suffix)),
{
    let digits = spec_decimal(index as nat);
    let letters = spec_suffix_text(suffix);
    let s = spec_encode_index(index, suffix);
    let at = digits.len() as int;
    assert(s =~= Seq::<char>::empty() + digits + letters);
    lemma_take_decimal(Seq::empty(), index as nat, letters, 0xffff);
    lemma_decimal_value(index as nat);
    assert forall|k: int| at <= k < s.len() implies is_letter(s[k]) by {
        assert(s[k] == letters[k - at]);
    }
    lemma_letters_end(s, at, s.len() as int);
    assert(s.subrange(0, at) =~= digits);
    match suffix {
        None => {
            assert(letters_end(s, at) == at);
            assert(suffix == None::<MoroSuffix>);
        },
        Some(MoroSuffix::X) => {
            assert(s[at] == letters[0]);
            assert(letters[0] == 'X');
            assert(suffix == Some(MoroSuffix::X));
        },
        Some(MoroSuffix::P) => {
            assert(s[at] == letters[0]);
            assert(letters[0] == 'P');
            assert(suffix == Some(MoroSuffix::P));
        },
        Some(MoroSuffix::PX) => {
            assert(s[at] == letters[0]);
            assert(s[at + 1] == letters[1]);
            assert(letters[0] == 'P');
            assert(letters[1] == 'X');
            assert(suffix == Some(MoroSuffix::PX));
        },
    }
    assert(spec_index_suffix(s, at) == Ok::<Option<MoroSuffix>, IndexError>(suffix));
    assert(spec_take_uint(s, 0, 10, 0xffff) == Ok::<(nat, int), Malformed>((index as nat, at)));
}

/// Writing the index and the suffix that a canonical text decodes to gives the
/// text back.
pub proof fn lemma_encode_parse(s: Seq<char>, index: u16, suffix: Option<MoroSuffix>)
    requires
        spec_parse_index(s) == Ok::<(u16, Option<MoroSuffix>), IndexError>((index, suffix)),
        is_canonical(s),
    ensures
        spec_encode_index(index, suffix) == s,
{
    let at = digits_end(s, 0, 10);
    lemma_digits_end_bounds(s, 0, 10);
    lemma_canonical_decimal(s.subrange(0, at));
    assert(s.subrange(at, s.len() as int) =~= spec_suffix_text(suffix));
    assert(s =~= s.subrange(0, at) + s.subrange(at, s.len() as int));
}


/// A number that is followed to the end of the text by letters other than `X`,
/// `P` and `PX` is rejected for its suffix.
pub proof fn lemma_unknown_suffix(index: u16, letters: Seq<char>)
    requires
        forall|k: int| 0 <= k < letters.len() ==> is_letter(letters[k]),
        letters != Seq::<char>::empty(),
        letters != seq!['X'],
        letters != seq!['P'],
        letters != seq!['P', 'X'],
    ensures
        spec_parse_index(spec_decimal(index as nat) + letters) == Err::<
            (u16, Option<MoroSuffix>),
            IndexError,
        >(IndexError::Suffix),
{
    let digits = spec_decimal(index as nat);
    let s = digits + letters;
    let at = digits.len() as int;
    assert(s =~= Seq::<char>::empty() + digits + letters);
    lemma_take_decimal(Seq::empty(), index as nat, letters, 0xffff);
    assert forall|k: int| at <= k < s.len() implies is_letter(s[k]) by {
        assert(s[k] == letters[k - at]);
    }
    lemma_letters_end(s, at, s.len() as int);
    assert(spec_take_uint(s, 0, 10, 0xffff) == Ok::<(nat, int), Malformed>((index as nat, at)));
    assert(letters.len() > 0) by {
        if letters.len() == 0 {
            assert(letters =~= Seq::<char>::empty());
        }
    }
    assert(s[at] == letters[0]);
    if letters.len() == 1 {
        assert(letters =~= seq![letters[0]]);
    } else if letters.len() == 2 {
        assert(s[at + 1] == letters[1]);
        assert(letters =~= seq![letters[0], letters[1]]);
    }
}

/// A text that does not begin with a digit is rejected for want of an index.
pub proof fn lemma_index_is_mandatory(s: Seq<char>)
    requires
        s.len() == 0 || !crate::text::is_digit(s[0], 10),
    ensures
        spec_parse_index(s) == Err::<(u16, Option<MoroSuffix>), IndexError>(
            IndexError::Format(Malformed::MissingNumber),
        ),
{
}


impl Error {
    /// What the error says: the component that reports it, then what went
    /// wrong, then what the error holds.
    pub open spec fn spec_message(self) -> Seq<char> {
        match self {
            Error::Shared(error) => "(Moro) Shared: "@ + error.spec_message(),
            Error::IndexSuffix => "(Moro) Unknown index suffix"@,
            Error::Format(pos, reason) => "(Moro) Format: "@ + pos.spec_message() + ", "@ + reason.spec_message(),
        }
    }

    /// Appends what the error says to `out`.
    pub fn write(&self, out: &mut String)
        ensures
            final(out)@ == old(out)@ + self.spec_message(),
    {
        match *self {
            Error::Shared(error) => {
                out.append("(Moro) Shared: ");
                error.write(out);
                assert(out@ =~= old(out)@ + self.spec_message());
            },
            Error::IndexSuffix => {
                out.append("(Moro) Unknown index suffix");
                assert(out@ =~= old(out)@ + self.spec_message());
            },
            Error::Format(pos, reason) => {
                out.append("(Moro) Format: ");
                pos.write(out);
                out.append(", ");
                reason.write(out);
                assert(out@ =~= old(out)@ + self.spec_message());
            },
        }
    }

    /// What the error says.
    pub fn message(&self) -> (r: String)
        ensures
            r@ == self.spec_message(),
    {
        let mut out = String::new();
        self.write(&mut out);
        assert(out@ =~= self.spec_message());
        out
    }
}

impl IndexError {
    /// What the error says: the component that reports it, then what went
    /// wrong, then what the error holds.
    pub open spec fn spec_message(self) -> Seq<char> {
        match self {
            IndexError::Format(reason) => "(Moro) Format: "@ + reason.spec_message(),
            IndexError::Suffix => "(Moro) Unknown index suffix"@,
        }
    }

    /// Appends what the error says to `out`.
    pub fn write(&self, out: &mut String)
        ensures
            final(out)@ == old(out)@ + self.spec_message(),
    {
        match *self {
            IndexError::Format(reason) => {
                out.append("(Moro) Format: ");
                reason.write(out);
                assert(out@ =~= old(out)@ + self.spec_message());
            },
            IndexError::Suffix => {
                out.append("(Moro) Unknown index suffix");
                assert(out@ =~= old(out)@ + self.spec_message());
            },
        }
    }

    /// What the error says.
    pub fn message(&self) -> (r: String)
        ensures
            r@ == self.spec_message(),
    {
        let mut out = String::new();
        self.write(&mut out);
        assert(out@ =~= self.spec_message());
        out
    }
}

} // verus!
