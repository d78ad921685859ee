//! The markup tree that the decoders read: named nodes with attributes, text
//! and element children, and the vocabulary of names that a character entry
//! uses.

use crate::text::str_eq;
use vstd::prelude::*;

verus! {

/// Where a node begins in the source document.
#[derive(Debug, Clone, Copy, PartialEq, Eq, PartialOrd, Ord, Hash)]
pub struct Position {
    /// The number of bytes of the document that stand before the node. A node
    /// that comes later in document order has a greater offset.
    pub offset: usize,
}

/// One attribute of a node.
#[derive(Debug, PartialEq, Eq)]
pub struct Attribute {
    pub name: String,
    pub value: String,
}

/// An element of the document: its name, its attributes in document order, the
/// text it begins with, if any, and its element children in document order.
#[derive(Debug, PartialEq, Eq)]
pub struct Node {
    pub tag: String,
    pub attributes: Vec<Attribute>,
    pub text: Option<String>,
    pub children: Vec<Node>,
    pub position: Position,
}

/// The element names of a character entry.
#[derive(Debug, Clone, Copy, PartialEq, Eq, Hash)]
pub enum Tag {
    Character,
    Literal,
    Codepoint,
    CpValue,
    Radical,
    RadValue,
    Misc,
    Grade,
    StrokeCount,
    Variant,
    Freq,
    RadName,
    Jlpt,
    DicNumber,
    DicRef,
    QueryCode,
    QCode,
    ReadingMeaning,
    Rmgroup,
    Reading,
    Meaning,
    Nanori,
}

/// The attribute names of a character entry.
#[derive(Debug, Clone, Copy, PartialEq, Eq, Hash)]
pub enum Attr {
    CpType,
    RadType,
    VarType,
    DrType,
    MVol,
    MPage,
    QcType,
    SkipMisclass,
    RType,
    MLang,
}

impl Tag {
    /// The name as it is written in the document.
    pub open spec fn spec_name(self) -> Seq<char> {
        match self {
            Tag::Character => "character"@,
            Tag::Literal => "literal"@,
            Tag::Codepoint => "codepoint"@,
            Tag::CpValue => "cp_value"@,
            Tag::Radical => "radical"@,
            Tag::RadValue => "rad_value"@,
            Tag::Misc => "misc"@,
            Tag::Grade => "grade"@,
            Tag::StrokeCount => "stroke_count"@,
            Tag::Variant => "variant"@,
            Tag::Freq => "freq"@,
            Tag::RadName => "rad_name"@,
            Tag::Jlpt => "jlpt"@,
            Tag::DicNumber => "dic_number"@,
            Tag::DicRef => "dic_ref"@,
            Tag::QueryCode => "query_code"@,
            Tag::QCode => "q_code"@,
            Tag::ReadingMeaning => "reading_meaning"@,
            Tag::Rmgroup => "rmgroup"@,
            Tag::Reading => "reading"@,
            Tag::Meaning => "meaning"@,
            Tag::Nanori => "nanori"@,
        }
    }

    /// The name as it is written in the document.
    pub fn name(self) -> (r: &'static str)
        ensures
            r@ == self.spec_name(),
    {
        match self {
            Tag::Character => "character",
            Tag::Literal => "literal",
            Tag::Codepoint => "codepoint",
            Tag::CpValue => "cp_value",
            Tag::Radical => "radical",
            Tag::RadValue => "rad_value",
            Tag::Misc => "misc",
            Tag::Grade => "grade",
            Tag::StrokeCount => "stroke_count",
            Tag::Variant => "variant",
            Tag::Freq => "freq",
            Tag::RadName => "rad_name",
            Tag::Jlpt => "jlpt",
            Tag::DicNumber => "dic_number",
            Tag::DicRef => "dic_ref",
            Tag::QueryCode => "query_code",
            Tag::QCode => "q_code",
            Tag::ReadingMeaning => "reading_meaning",
            Tag::Rmgroup => "rmgroup",
            Tag::Reading => "reading",
            Tag::Meaning => "meaning",
            Tag::Nanori => "nanori",
        }
    }

    /// The tag that `name` writes, if it is one of the vocabulary.
    pub open spec fn spec_from_name(name: Seq<char>) -> Option<Tag> {
        if name == "character"@ {
            Some(Tag::Character)
        } else if name == "literal"@ {
            Some(Tag::Literal)
        } else if name == "codepoint"@ {
            Some(Tag::Codepoint)
        } else if name == "cp_value"@ {
            Some(Tag::CpValue)
        } else if name == "radical"@ {
            Some(Tag::Radical)
        } else if name == "rad_value"@ {
            Some(Tag::RadValue)
        } else if name == "misc"@ {
            Some(Tag::Misc)
        } else if name == "grade"@ {
            Some(Tag::Grade)
        } else if name == "stroke_count"@ {
            Some(Tag::StrokeCount)
        } else if name == "variant"@ {
            Some(Tag::Variant)
        } else if name == "freq"@ {
            Some(Tag::Freq)
        } else if name == "rad_name"@ {
            Some(Tag::RadName)
        } else if name == "jlpt"@ {
            Some(Tag::Jlpt)
        } else if name == "dic_number"@ {
            Some(Tag::DicNumber)
        } else if name == "dic_ref"@ {
            Some(Tag::DicRef)
        } else if name == "query_code"@ {
            Some(Tag::QueryCode)
        } else if name == "q_code"@ {
            Some(Tag::QCode)
        } else if name == "reading_meaning"@ {
            Some(Tag::ReadingMeaning)
        } else if name == "rmgroup"@ {
            Some(Tag::Rmgroup)
        } else if name == "reading"@ {
            Some(Tag::Reading)
        } else if name == "meaning"@ {
            Some(Tag::Meaning)
        } else if name == "nanori"@ {
            Some(Tag::Nanori)
        } else {
            None
        }
    }

    /// The tag that `name` writes, if it is one of the vocabulary.
    pub fn from_name(name: &str) -> (r: Option<Tag>)
        ensures
            r == Tag::spec_from_name(name@),
    {
        if str_eq(name, "character") {
            Some(Tag::Character)
        } else if str_eq(name, "literal") {
            Some(Tag::Literal)
        } else if str_eq(name, "codepoint") {
            Some(Tag::Codepoint)
        } else if str_eq(name, "cp_value") {
            Some(Tag::CpValue)
        } else if str_eq(name, "radical") {
            Some(Tag::Radical)
        } else if str_eq(name, "rad_value") {
            Some(Tag::RadValue)
        } else if str_eq(name, "misc") {
            Some(Tag::Misc)
        } else if str_eq(name, "grade") {
            Some(Tag::Grade)
        } else if str_eq(name, "stroke_count") {
            Some(Tag::StrokeCount)
        } else if str_eq(name, "variant") {
            Some(Tag::Variant)
        } else if str_eq(name, "freq") {
            Some(Tag::Freq)
        } else if str_eq(name, "rad_name") {
            Some(Tag::RadName)
        } else if str_eq(name, "jlpt") {
            Some(Tag::Jlpt)
        } else if str_eq(name, "dic_number") {
            Some(Tag::DicNumber)
        } else if str_eq(name, "dic_ref") {
            Some(Tag::DicRef)
        } else if str_eq(name, "query_code") {
            Some(Tag::QueryCode)
        } else if str_eq(name, "q_code") {
            Some(Tag::QCode)
        } else if str_eq(name, "reading_meaning") {
            Some(Tag::ReadingMeaning)
        } else if str_eq(name, "rmgroup") {
            Some(Tag::Rmgroup)
        } else if str_eq(name, "reading") {
            Some(Tag::Reading)
        } else if str_eq(name, "meaning") {
            Some(Tag::Meaning)
        } else if str_eq(name, "nanori") {
            Some(Tag::Nanori)
        } else {
            None
        }
    }
}

impl Attr {
    /// The name as it is written in the document.
    pub open spec fn spec_name(self) -> Seq<char> {
        match self {
            Attr::CpType => "cp_type"@,
            Attr::RadType => "rad_type"@,
            Attr::VarType => "var_type"@,
            Attr::DrType => "dr_type"@,
            Attr::MVol => "m_vol"@,
            Attr::MPage => "m_page"@,
            Attr::QcType => "qc_type"@,
            Attr::SkipMisclass => "skip_misclass"@,
            Attr::RType => "r_type"@,
            Attr::MLang => "m_lang"@,
        }
    }

    /// The name as it is written in the document.
    pub fn name(self) -> (r: &'static str)
        ensures
            r@ == self.spec_name(),
    {
        match self {
            Attr::CpType => "cp_type",
            Attr::RadType => "rad_type",
            Attr::VarType => "var_type",
            Attr::DrType => "dr_type",
            Attr::MVol => "m_vol",
            Attr::MPage => "m_page",
            Attr::QcType => "qc_type",
            Attr::SkipMisclass => "skip_misclass",
            Attr::RType => "r_type",
            Attr::MLang => "m_lang",
        }
    }
}

} // verus!
