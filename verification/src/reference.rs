//! An index of a kanji in a dictionary or another reference book.

use crate::busy_people::{BusyPeople, BusyPeopleError};
use crate::moro::Moro;
use crate::oneill::{Oneill, OneillParseError};
use crate::pos_error::{spec_pos, PosError};
use crate::shared::{attr, spec_attr, spec_text, spec_text_uint, text, text_u16, SharedError};
use crate::text::str_eq;
use crate::tree::{Attr, Node};
use vstd::prelude::*;
use vstd::string::StringExecFns;

verus! {

/// An index number into a particular kanji dictionary or reference book.
#[derive(Debug, Clone, Copy, PartialEq, Eq, PartialOrd, Ord, Hash)]
pub enum Reference {
    /// Modern Reader's Japanese-English Dictionary by Andrew Nelson
    NelsonClassic(u16),
    /// The New Nelson Japanese-English Dictionary by John Haig
    NelsonNew(u16),
    /// New Japanese-English Character Dictionary by Jack Halpern
    Njecd(u16),
    /// Kodansha's Japanese-English Dictionary by Jack Halpern
    Kkd(u16),
    /// Kanji Learners Dictionary by Jack Halpern
    Kkld(u16),
    /// Kanji Learners Dictionary Second Edition by Jack Halpern
    Kkld2ed(u16),
    /// Remembering the Kanji by James Heisig
    Heisig(u16),
    /// Remembering the Kanji Sixth Edition by James Heisig
    Heisig6(u16),
    /// A New Dictionary of Kanji Usage
    Gakken(u16),
    /// Japanese Names by P.G. O'Neill
    OneillNames(Oneill),
    /// Essential Kanji by P.G. O'Neill
    OneillKk(u16),
    /// Daikanwajiten by Morohashi
    Moro(Moro),
    /// A Guide to Remembering Japanese Characters by Kenneth G. Henshall
    Henshall(u16),
    /// Kanji and Kana by Spahn and Hadamitzky
    ShKk(u16),
    /// Kanji and Kana 2011 edition by Spahn and Hadamitzky
    ShKk2(u16),
    /// A Guide to Reading and Writing Japanese by Florence Sakade
    Sakade(u16),
    /// Japanese Kanji Flashcards by Tomoko Okazaki
    Jfcards(u16),
    /// A Guide to Reading and Writing Japanese by Henshall
    Henshall3(u16),
    /// Tuttle Kanji Cards by Alexander Kask
    TuttleCards(u16),
    /// The Kanji Way to Japanese Language Power by Dale Crowley
    Crowley(u16),
    /// Kanji in Context by Nishiguchi and Kono
    KanjiInContext(u16),
    /// Japanese for Busy People
    BusyPeople(BusyPeople),
    /// The Kodansha Compact Study Guide
    KodanshaCompact(u16),
    /// Les Kanjis dans la tete by Yves Maniette
    Maniette(u16),
}

/// The reference books in which a kanji is found by a plain number.
#[derive(Debug, Clone, Copy, PartialEq, Eq, Hash)]
pub enum Book {
    NelsonClassic,
    NelsonNew,
    Njecd,
    Kkd,
    Kkld,
    Kkld2ed,
    Heisig,
    Heisig6,
    Gakken,
    OneillKk,
    Henshall,
    ShKk,
    ShKk2,
    Sakade,
    Jfcards,
    Henshall3,
    TuttleCards,
    Crowley,
    KanjiInContext,
    KodanshaCompact,
    Maniette,
}

/// Why a node could not be decoded as a dictionary reference.
#[derive(Debug, Clone, Copy, PartialEq, Eq, Hash)]
pub enum ReferenceError {
    /// The node could not be read.
    Shared(SharedError),
    /// The node's text is no index of O'Neill.
    Oneill(PosError, OneillParseError),
    /// The node writes no entry of Morohashi.
    Moro(crate::moro::Error),
    /// The node's text is no place in Japanese for Busy People.
    BusyPeople(BusyPeopleError),
    /// The node's `dr_type` names no known reference book.
    UnknownReference(PosError),
}

/// The book that the value of `dr_type` names, among those with plain numbers.
pub open spec fn spec_book(name: Seq<char>) -> Option<Book> {
    if name == "nelson_c"@ {
        Some(Book::NelsonClassic)
    } else if name == "nelson_n"@ {
        Some(Book::NelsonNew)
    } else if name == "halpern_njecd"@ {
        Some(Book::Njecd)
    } else if name == "halpern_kkd"@ {
        Some(Book::Kkd)
    } else if name == "halpern_kkld"@ {
        Some(Book::Kkld)
    } else if name == "halpern_kkld_2ed"@ {
        Some(Book::Kkld2ed)
    } else if name == "heisig"@ {
        Some(Book::Heisig)
    } else if name == "heisig6"@ {
        Some(Book::Heisig6)
    } else if name == "gakken"@ {
        Some(Book::Gakken)
    } else if name == "oneill_kk"@ {
        Some(Book::OneillKk)
    } else if name == "henshall"@ {
        Some(Book::Henshall)
    } else if name == "sh_kk"@ {
        Some(Book::ShKk)
    } else if name == "sh_kk2"@ {
        Some(Book::ShKk2)
    } else if name == "sakade"@ {
        Some(Book::Sakade)
    } else if name == "jf_cards"@ {
        Some(Book::Jfcards)
    } else if name == "henshall3"@ {
        Some(Book::Henshall3)
    } else if name == "tutt_cards"@ {
        Some(Book::TuttleCards)
    } else if name == "crowley"@ {
        Some(Book::Crowley)
    } else if name == "kanji_in_context"@ {
        Some(Book::KanjiInContext)
    } else if name == "kodansha_compact"@ {
        Some(Book::KodanshaCompact)
    } else if name == "maniette"@ {
        Some(Book::Maniette)
    } else {
        None
    }
}

/// The reference to number `n` of `book`.
pub open spec fn spec_numbered(book: Book, n: u16) -> Reference {
    match book {
        Book::NelsonClassic => Reference::NelsonClassic(n),
        Book::NelsonNew => Reference::NelsonNew(n),
        Book::Njecd => Reference::Njecd(n),
        Book::Kkd => Reference::Kkd(n),
        Book::Kkld => Reference::Kkld(n),
        Book::Kkld2ed => Reference::Kkld2ed(n),
        Book::Heisig => Reference::Heisig(n),
        Book::Heisig6 => Reference::Heisig6(n),
        Book::Gakken => Reference::Gakken(n),
        Book::OneillKk => Reference::OneillKk(n),
        Book::Henshall => Reference::Henshall(n),
        Book::ShKk => Reference::ShKk(n),
        Book::ShKk2 => Reference::ShKk2(n),
        Book::Sakade => Reference::Sakade(n),
        Book::Jfcards => Reference::Jfcards(n),
        Book::Henshall3 => Reference::Henshall3(n),
        Book::TuttleCards => Reference::TuttleCards(n),
        Book::Crowley => Reference::Crowley(n),
        Book::KanjiInContext => Reference::KanjiInContext(n),
        Book::KodanshaCompact => Reference::KodanshaCompact(n),
        Book::Maniette => Reference::Maniette(n),
    }
}

/// The index of O'Neill's "Japanese Names" that `node` writes as its text.
pub open spec fn spec_oneill(node: Node) -> Result<Reference, ReferenceError> {
    match spec_text(node) {
        None => Err(ReferenceError::Shared(SharedError::MissingText(spec_pos(node)))),
        Some(s) => match crate::oneill::spec_parse(s) {
            Ok(index) => Ok(Reference::OneillNames(index)),
            Err(e) => Err(ReferenceError::Oneill(spec_pos(node), e)),
        },
    }
}

/// The reference that `node` writes. Its attribute `dr_type` names the book.
/// Three books have indices of their own form; in every other book the index
/// is a decimal number of at most 65535.
pub open spec fn spec_from(node: Node) -> Result<Reference, ReferenceError> {
    match spec_attr(node, Attr::DrType) {
        None => Err(
            ReferenceError::Shared(SharedError::MissingAttribute(spec_pos(node), Attr::DrType)),
        ),
        Some(name) => if name == "oneill_names"@ {
            spec_oneill(node)
        } else if name == "moro"@ {
            match crate::moro::spec_from(node) {
                Ok(entry) => Ok(Reference::Moro(entry)),
                Err(e) => Err(ReferenceError::Moro(e)),
            }
        } else if name == "busy_people"@ {
            match crate::busy_people::spec_from(node) {
                Ok(place) => Ok(Reference::BusyPeople(place)),
                Err(e) => Err(ReferenceError::BusyPeople(e)),
            }
        } else {
            match spec_book(name) {
                None => Err(ReferenceError::UnknownReference(spec_pos(node))),
                Some(book) => match spec_text_uint(node, 10, 0xffff) {
                    Err(e) => Err(ReferenceError::Shared(e)),
                    Ok(n) => Ok(spec_numbered(book, n as u16)),
                },
            }
        },
    }
}

/// The book that `name` names, among those with plain numbers.
pub fn book(name: &str) -> (r: Option<Book>)
    ensures
        r == spec_book(name@),
{
    if str_eq(name, "nelson_c") {
        Some(Book::NelsonClassic)
    } else if str_eq(name, "nelson_n") {
        Some(Book::NelsonNew)
    } else if str_eq(name, "halpern_njecd") {
        Some(Book::Njecd)
    } else if str_eq(name, "halpern_kkd") {
        Some(Book::Kkd)
    } else if str_eq(name, "halpern_kkld") {
        Some(Book::Kkld)
    } else if str_eq(name, "halpern_kkld_2ed") {
        Some(Book::Kkld2ed)
    } else if str_eq(name, "heisig") {
        Some(Book::Heisig)
    } else if str_eq(name, "heisig6") {
        Some(Book::Heisig6)
    } else if str_eq(name, "gakken") {
        Some(Book::Gakken)
    } else if str_eq(name, "oneill_kk") {
        Some(Book::OneillKk)
    } else if str_eq(name, "henshall") {
        Some(Book::Henshall)
    } else if str_eq(name, "sh_kk") {
        Some(Book::ShKk)
    } else if str_eq(name, "sh_kk2") {
        Some(Book::ShKk2)
    } else if str_eq(name, "sakade") {
        Some(Book::Sakade)
    } else if str_eq(name, "jf_cards") {
        Some(Book::Jfcards)
    } else if str_eq(name, "henshall3") {
        Some(Book::Henshall3)
    } else if str_eq(name, "tutt_cards") {
        Some(Book::TuttleCards)
    } else if str_eq(name, "crowley") {
        Some(Book::Crowley)
    } else if str_eq(name, "kanji_in_context") {
        Some(Book::KanjiInContext)
    } else if str_eq(name, "kodansha_compact") {
        Some(Book::KodanshaCompact)
    } else if str_eq(name, "maniette") {
        Some(Book::Maniette)
    } else {
        None
    }
}

/// The reference to number `n` of `book`.
pub fn numbered(book: Book, n: u16) -> (r: Reference)
    ensures
        r == spec_numbered(book, n),
{
    match book {
        Book::NelsonClassic => Reference::NelsonClassic(n),
        Book::NelsonNew => Reference::NelsonNew(n),
        Book::Njecd => Reference::Njecd(n),
        Book::Kkd => Reference::Kkd(n),
        Book::Kkld => Reference::Kkld(n),
        Book::Kkld2ed => Reference::Kkld2ed(n),
        Book::Heisig => Reference::Heisig(n),
        Book::Heisig6 => Reference::Heisig6(n),
        Book::Gakken => Reference::Gakken(n),
        Book::OneillKk => Reference::OneillKk(n),
        Book::Henshall => Reference::Henshall(n),
        Book::ShKk => Reference::ShKk(n),
        Book::ShKk2 => Reference::ShKk2(n),
        Book::Sakade => Reference::Sakade(n),
        Book::Jfcards => Reference::Jfcards(n),
        Book::Henshall3 => Reference::Henshall3(n),
        Book::TuttleCards => Reference::TuttleCards(n),
        Book::Crowley => Reference::Crowley(n),
        Book::KanjiInContext => Reference::KanjiInContext(n),
        Book::KodanshaCompact => Reference::KodanshaCompact(n),
        Book::Maniette => Reference::Maniette(n),
    }
}

/// Decodes the reference that `node` writes.
pub fn from(node: &Node) -> (r: Result<Reference, ReferenceError>)
    ensures
        r == spec_from(*node),
{
    let name = match attr(node, Attr::DrType) {
        Ok(name) => name,
        Err(e) => {
            return Err(ReferenceError::Shared(e));
        },
    };
    if str_eq(name, "oneill_names") {
        let s = match text(node) {
            Ok(s) => s,
            Err(e) => {
                return Err(ReferenceError::Shared(e));
            },
        };
        match Oneill::try_from(s) {
            Ok(index) => Ok(Reference::OneillNames(index)),
            Err(e) => Err(ReferenceError::Oneill(PosError::from(node), e)),
        }
    } else if str_eq(name, "moro") {
        match crate::moro::from(node) {
            Ok(entry) => Ok(Reference::Moro(entry)),
            Err(e) => Err(ReferenceError::Moro(e)),
        }
    } else if str_eq(name, "busy_people") {
        match crate::busy_people::from(node) {
            Ok(place) => Ok(Reference::BusyPeople(place)),
            Err(e) => Err(ReferenceError::BusyPeople(e)),
        }
    } else {
        let book = match book(name) {
            Some(book) => book,
            None => {
                return Err(ReferenceError::UnknownReference(PosError::from(node)));
            },
        };
        match text_u16(node) {
            Ok(n) => Ok(numbered(book, n)),
            Err(e) => Err(ReferenceError::Shared(e)),
        }
    }
}


impl ReferenceError {
    /// What the error says: the component that reports it, then what went
    /// wrong, then what the error holds.
    pub open spec fn spec_message(self) -> Seq<char> {
        match self {
            ReferenceError::Shared(error) => "(Reference) Shared: "@ + error.spec_message(),
            ReferenceError::Oneill(pos, error) => "(Reference) Oneill: "@ + pos.spec_message() + ", "@ + error.spec_message(),
            ReferenceError::Moro(error) => "(Reference) Moro: "@ + error.spec_message(),
            ReferenceError::BusyPeople(error) => "(Reference) Busy people: "@ + error.spec_message(),
            ReferenceError::UnknownReference(pos) => "(Reference) Unknown reference: "@ + pos.spec_message(),
        }
    }

    /// Appends what the error says to `out`.
    pub fn write(&self, out: &mut String)
        ensures
            final(out)@ == old(out)@ + self.spec_message(),
    {
        match *self {
            ReferenceError::Shared(error) => {
                out.append("(Reference) Shared: ");
                error.write(out);
                assert(out@ =~= old(out)@ + self.spec_message());
            },
            ReferenceError::Oneill(pos, error) => {
                out.append("(Reference) Oneill: ");
                pos.write(out);
                out.append(", ");
                error.write(out);
                assert(out@ =~= old(out)@ + self.spec_message());
            },
            ReferenceError::Moro(error) => {
                out.append("(Reference) Moro: ");
                error.write(out);
                assert(out@ =~= old(out)@ + self.spec_message());
            },
            ReferenceError::BusyPeople(error) => {
                out.append("(Reference) Busy people: ");
                error.write(out);
                assert(out@ =~= old(out)@ + self.spec_message());
            },
            ReferenceError::UnknownReference(pos) => {
                out.append("(Reference) Unknown reference: ");
                pos.write(out);
                assert(out@ =~= old(out)@ + self.spec_message());
            },
        }
    }

    /// What the error says.
    pub fn message(&self) -> (r: String)
        ensures
            r@ == self.spec_message(),
    {
        let mut out = String::new();
        self.write(&mut out);
        assert(out@ =~= self.spec_message());
        out
    }
}

} // verus!
