//! A way in which a kanji is read, in one of several languages.

use crate::kunyomi::{Kunyomi, KunyomiView};
use crate::pin_yin::{PinYin, PinYinView};
use crate::pos_error::{spec_pos, PosError};
use crate::shared::{attr, spec_attr, spec_text, text, viewed, SharedError};
use crate::text::str_eq;
use crate::tree::{Attr, Node};
use vstd::prelude::*;
use vstd::string::StringExecFns;

verus! {

/// A particular reading or pronunciation of a kanji.
#[derive(Debug, Clone, PartialEq, Eq, PartialOrd, Ord, Hash)]
pub enum Reading {
    /// The modern romanization of the Chinese reading.
    PinYin(PinYin),
    /// The romanized form of the Korean reading.
    KoreanRomanized(String),
    /// The Korean reading of the kanji in Hangul.
    KoreanHangul(String),
    /// The Vietnamese reading supplied by Minh Chau Pham.
    Vietnam(String),
    /// The onyomi reading of the kanji in katakana.
    Onyomi(String),
    /// The kunyomi reading of the kanji in hiragana or katakana.
    Kunyomi(Kunyomi),
}

/// What `Reading` holds, as plain values.
pub enum ReadingView {
    PinYin(PinYinView),
    KoreanRomanized(Seq<char>),
    KoreanHangul(Seq<char>),
    Vietnam(Seq<char>),
    Onyomi(Seq<char>),
    Kunyomi(KunyomiView),
}

/// Why a node could not be decoded as a reading.
#[derive(Debug, Clone, Copy, PartialEq, Eq, Hash)]
pub enum Error {
    /// The node could not be read.
    Shared(SharedError),
    /// The node's `r_type` names no known kind of reading.
    UnrecognizedType(PosError),
    /// The node's text is no reading in pin yin.
    PinYin(crate::pin_yin::Error),
    /// The node writes no kunyomi.
    Kunyomi(crate::kunyomi::Error),
}

impl View for Reading {
    type V = ReadingView;

    open spec fn view(&self) -> ReadingView {
        match self {
            Reading::PinYin(reading) => ReadingView::PinYin(reading@),
            Reading::KoreanRomanized(s) => ReadingView::KoreanRomanized(s@),
            Reading::KoreanHangul(s) => ReadingView::KoreanHangul(s@),
            Reading::Vietnam(s) => ReadingView::Vietnam(s@),
            Reading::Onyomi(s) => ReadingView::Onyomi(s@),
            Reading::Kunyomi(reading) => ReadingView::Kunyomi(reading@),
        }
    }
}

/// The reading that the text of `node` is taken for under the kind named
/// `name`, where the text is taken as it stands.
pub open spec fn spec_plain(node: Node, name: Seq<char>) -> Result<ReadingView, Error> {
    match spec_text(node) {
        None => Err(Error::Shared(SharedError::MissingText(spec_pos(node)))),
        Some(s) => if name == "korean_r"@ {
            Ok(ReadingView::KoreanRomanized(s))
        } else if name == "korean_h"@ {
            Ok(ReadingView::KoreanHangul(s))
        } else if name == "vietnam"@ {
            Ok(ReadingView::Vietnam(s))
        } else {
            Ok(ReadingView::Onyomi(s))
        },
    }
}

/// The reading that `node` writes. Its attribute `r_type` names the kind, which
/// decides how its text is read.
pub open spec fn spec_from(node: Node) -> Result<ReadingView, Error> {
    match spec_attr(node, Attr::RType) {
        None => Err(Error::Shared(SharedError::MissingAttribute(spec_pos(node), Attr::RType))),
        Some(name) => if name == "pinyin"@ {
            match crate::pin_yin::spec_from(node) {
                Ok(reading) => Ok(ReadingView::PinYin(reading)),
                Err(e) => Err(Error::PinYin(e)),
            }
        } else if name == "korean_r"@ || name == "korean_h"@ || name == "vietnam"@ || name
            == "ja_on"@ {
            spec_plain(node, name)
        } else if name == "ja_kun"@ {
            match crate::kunyomi::spec_from(node) {
                Ok(reading) => Ok(ReadingView::Kunyomi(reading)),
                Err(e) => Err(Error::Kunyomi(e)),
            }
        } else {
            Err(Error::UnrecognizedType(spec_pos(node)))
        },
    }
}

/// Decodes the reading that `node` writes.
pub fn from(node: &Node) -> (r: Result<Reading, Error>)
    ensures
        viewed(r) == spec_from(*node),
{
    let r_type = match attr(node, Attr::RType) {
        Ok(r_type) => r_type,
        Err(e) => {
            return Err(Error::Shared(e));
        },
    };
    if str_eq(r_type, "pinyin") {
        match crate::pin_yin::from(node) {
            Ok(reading) => Ok(Reading::PinYin(reading)),
            Err(e) => Err(Error::PinYin(e)),
        }
    } else if str_eq(r_type, "korean_r") {
        match text(node) {
            Ok(s) => Ok(Reading::KoreanRomanized(s.to_owned())),
            Err(e) => Err(Error::Shared(e)),
        }
    } else if str_eq(r_type, "korean_h") {
        match text(node) {
            Ok(s) => Ok(Reading::KoreanHangul(s.to_owned())),
            Err(e) => Err(Error::Shared(e)),
        }
    } else if str_eq(r_type, "vietnam") {
        match text(node) {
            Ok(s) => Ok(Reading::Vietnam(s.to_owned())),
            Err(e) => Err(Error::Shared(e)),
        }
    } else if str_eq(r_type, "ja_on") {
        match text(node) {
            Ok(s) => Ok(Reading::Onyomi(s.to_owned())),
            Err(e) => Err(Error::Shared(e)),
        }
    } else if str_eq(r_type, "ja_kun") {
        match crate::kunyomi::from(node) {
            Ok(reading) => Ok(Reading::Kunyomi(reading)),
            Err(e) => Err(Error::Kunyomi(e)),
        }
    } else {
        Err(Error::UnrecognizedType(PosError::from(node)))
    }
}


impl Error {
    /// What the error says: the component that reports it, then what went
    /// wrong, then what the error holds.
    pub open spec fn spec_message(self) -> Seq<char> {
        match self {
            Error::Shared(error) => "(Reading) Shared: "@ + error.spec_message(),
            Error::UnrecognizedType(pos) => "(Reading) qc_type not recognized: "@ + pos.spec_message(),
            Error::PinYin(error) => "(Reading) Pin yin: "@ + error.spec_message(),
            Error::Kunyomi(error) => "(Reading) Kunyomi: "@ + error.spec_message(),
        }
    }

    /// Appends what the error says to `out`.
    pub fn write(&self, out: &mut String)
        ensures
            final(out)@ == old(out)@ + self.spec_message(),
    {
        match *self {
            Error::Shared(error) => {
                out.append("(Reading) Shared: ");
                error.write(out);
                assert(out@ =~= old(out)@ + self.spec_message());
            },
            Error::UnrecognizedType(pos) => {
                out.append("(Reading) qc_type not recognized: ");
                pos.write(out);
                assert(out@ =~= old(out)@ + self.spec_message());
            },
            Error::PinYin(error) => {
                out.append("(Reading) Pin yin: ");
                error.write(out);
                assert(out@ =~= old(out)@ + self.spec_message());
            },
            Error::Kunyomi(error) => {
                out.append("(Reading) Kunyomi: ");
                error.write(out);
                assert(out@ =~= old(out)@ + self.spec_message());
            },
        }
    }

    /// What the error says.
    pub fn message(&self) -> (r: String)
        ensures
            r@ == self.spec_message(),
    {
        let mut out = String::new();
        self.write(&mut out);
        assert(out@ =~= self.spec_message());
        out
    }
}

} // verus!
