//! One entry of the dictionary: the record of a kanji, the builder that a
//! record is assembled with, and the decoder that reads a record from a
//! `character` node.

use crate::codepoint::{Codepoint, CodepointError};
use crate::decomposition::{decomposition, spec_decomposition};
use crate::grade::{Grade, GradeError};
use crate::meaning::reading_views;
use crate::pos_error::{spec_pos, PosError};
use crate::query_code::{QueryCode, QueryCodeError};
use crate::radical::{Radical, RadicalError};
use crate::reading::{Reading, ReadingView};
use crate::reference::{Reference, ReferenceError};
use crate::shared::{
    child, children, collect, lemma_children, owned_text, spec_child, spec_children,
    spec_owned_text, spec_text, spec_text_uint, text, text_u16, text_u8, viewed, SharedError,
};
use crate::stroke_count::{StrokeCount, StrokeCountError, StrokeCountView};
use crate::text::{chars_of, texts};
use crate::translation::{TranslationError, Translations};
use crate::tree::{Node, Tag};
use crate::variant::{Variant, VariantError};
use vstd::prelude::*;
use vstd::string::StringExecFns;

verus! {

/// Why a node could not be decoded as a record.
#[derive(Debug, Clone, Copy, PartialEq, Eq, Hash)]
pub enum CharacterError {
    /// A node could not be read, or a mandatory one is missing.
    Shared(SharedError),
    /// A codepoint could not be decoded.
    Codepoint(CodepointError),
    /// A radical could not be decoded.
    Radical(RadicalError),
    /// The grade could not be decoded.
    Grade(GradeError),
    /// The stroke counts could not be decoded.
    StrokeCount(StrokeCountError),
    /// A variant could not be decoded.
    Variant(VariantError),
    /// A gloss could not be decoded.
    Translation(TranslationError),
    /// A reading could not be decoded.
    Reading(crate::reading::Error),
    /// A query code could not be decoded.
    QueryCode(QueryCodeError),
    /// A dictionary reference could not be decoded.
    DictionaryReference(ReferenceError),
    /// A `nanori` child of the node that stands at this place holds no text.
    NanoriText(PosError),
    /// The literal is not a single character.
    NonCharString,
}

/// Information about a kanji.
#[derive(Debug, Clone, PartialEq, Eq)]
pub struct Character {
    /// The character itself.
    pub literal: char,
    /// Alternate encodings for the character.
    pub codepoints: Vec<Codepoint>,
    /// Alternate classifications for the character by radical.
    pub radicals: Vec<Radical>,
    /// The kanji grade level.
    pub grade: Option<Grade>,
    /// The stroke count of the character.
    pub stroke_counts: StrokeCount,
    /// Cross-references to other characters or alternative indexings.
    pub variants: Vec<Variant>,
    /// A ranking of how often the character appears in newspapers.
    pub frequency: Option<u16>,
    /// The kanji's name as a radical if it is one.
    pub radical_names: Vec<String>,
    /// Old JLPT level of the kanji. Based on pre-2010 test levels
    /// that go up to four, not five.
    pub jlpt: Option<u8>,
    /// Indexes into dictionaries and other instructional books
    pub references: Vec<Reference>,
    /// Codes used to identify the kanji
    pub query_codes: Vec<QueryCode>,
    /// Different ways the kanji can be read.
    pub readings: Vec<Reading>,
    /// Translations of the kanji into different languages.
    pub translations: Translations,
    /// Japanese readings associated with names.
    pub nanori: Vec<String>,
    /// The constituent radicals in the kanji
    pub decomposition: Vec<char>,
}

/// What `Character` holds, as plain values.
pub struct CharacterView {
    pub literal: char,
    pub codepoints: Seq<Codepoint>,
    pub radicals: Seq<Radical>,
    pub grade: Option<Grade>,
    pub stroke_counts: StrokeCountView,
    pub variants: Seq<Variant>,
    pub frequency: Option<u16>,
    pub radical_names: Seq<Seq<char>>,
    pub jlpt: Option<u8>,
    pub references: Seq<Reference>,
    pub query_codes: Seq<QueryCode>,
    pub readings: Seq<ReadingView>,
    pub translations: Map<Seq<char>, Seq<Seq<char>>>,
    pub nanori: Seq<Seq<char>>,
    pub decomposition: Seq<char>,
}

impl View for Character {
    type V = CharacterView;

    open spec fn view(&self) -> CharacterView {
        CharacterView {
            literal: self.literal,
            codepoints: self.codepoints@,
            radicals: self.radicals@,
            grade: self.grade,
            stroke_counts: self.stroke_counts@,
            variants: self.variants@,
            frequency: self.frequency,
            radical_names: texts(self.radical_names@),
            jlpt: self.jlpt,
            references: self.references@,
            query_codes: self.query_codes@,
            readings: reading_views(self.readings@),
            translations: self.translations@,
            nanori: texts(self.nanori@),
            decomposition: self.decomposition@,
        }
    }
}

/// The fields of a record, each set or not yet set.
#[derive(Debug)]
pub struct CharacterBuilder {
    /// The character itself.
    pub literal: Option<char>,
    /// Alternate encodings for the character.
    pub codepoints: Option<Vec<Codepoint>>,
    /// Alternate classifications for the character by radical.
    pub radicals: Option<Vec<Radical>>,
    /// The kanji grade level.
    pub grade: Option<Grade>,
    /// The stroke count of the character.
    pub stroke_counts: Option<StrokeCount>,
    /// Cross-references to other characters or alternative indexings.
    pub variants: Option<Vec<Variant>>,
    /// A ranking of how often the character appears in newspapers.
    pub frequency: Option<u16>,
    /// The kanji's name as a radical if it is one.
    pub radical_names: Option<Vec<String>>,
    /// Old JLPT level of the kanji. Based on pre-2010 test levels
    /// that go up to four, not five.
    pub jlpt: Option<u8>,
    /// Indexes into dictionaries and other instructional books
    pub references: Option<Vec<Reference>>,
    /// Codes used to identify the kanji
    pub query_codes: Option<Vec<QueryCode>>,
    /// Different ways the kanji can be read.
    pub readings: Option<Vec<Reading>>,
    /// Translations of the kanji into different languages.
    pub translations: Option<Translations>,
    /// Japanese readings associated with names.
    pub nanori: Option<Vec<String>>,
    /// The constituent radicals in the kanji
    pub decomposition: Option<Vec<char>>,
}

impl CharacterBuilder {
    /// A builder with no field set.
    pub fn new() -> (r: Self)
        ensures
            r.literal is None,
            r.codepoints is None,
            r.radicals is None,
            r.grade is None,
            r.stroke_counts is None,
            r.variants is None,
            r.frequency is None,
            r.radical_names is None,
            r.jlpt is None,
            r.references is None,
            r.query_codes is None,
            r.readings is None,
            r.translations is None,
            r.nanori is None,
            r.decomposition is None,
    {
        Self {
            literal: None,
            codepoints: None,
            radicals: None,
            grade: None,
            stroke_counts: None,
            variants: None,
            frequency: None,
            radical_names: None,
            jlpt: None,
            references: None,
            query_codes: None,
            readings: None,
            translations: None,
            nanori: None,
            decomposition: None,
        }
    }

    /// Sets the field `literal`.
    pub fn literal(self, literal: char) -> (r: Self)
        ensures
            r == (Self { literal: Some(literal), ..self }),
    {
        let mut builder = self;
        builder.literal = Some(literal);
        builder
    }

    /// Sets the field `codepoints`.
    pub fn codepoints(self, codepoints: Vec<Codepoint>) -> (r: Self)
        ensures
            r == (Self { codepoints: Some(codepoints), ..self }),
    {
        let mut builder = self;
        builder.codepoints = Some(codepoints);
        builder
    }

    /// Sets the field `radicals`.
    pub fn radicals(self, radicals: Vec<Radical>) -> (r: Self)
        ensures
            r == (Self { radicals: Some(radicals), ..self }),
    {
        let mut builder = self;
        builder.radicals = Some(radicals);
        builder
    }

    /// Sets the field `grade`.
    pub fn grade(self, grade: Grade) -> (r: Self)
        ensures
            r == (Self { grade: Some(grade), ..self }),
    {
        let mut builder = self;
        builder.grade = Some(grade);
        builder
    }

    /// Sets the field `stroke_counts`.
    pub fn stroke_counts(self, stroke_counts: StrokeCount) -> (r: Self)
        ensures
            r == (Self { stroke_counts: Some(stroke_counts), ..self }),
    {
        let mut builder = self;
        builder.stroke_counts = Some(stroke_counts);
        builder
    }

    /// Sets the field `variants`.
    pub fn variants(self, variants: Vec<Variant>) -> (r: Self)
        ensures
            r == (Self { variants: Some(variants), ..self }),
    {
        let mut builder = self;
        builder.variants = Some(variants);
        builder
    }

    /// Sets the field `frequency`.
    pub fn frequency(self, frequency: u16) -> (r: Self)
        ensures
            r == (Self { frequency: Some(frequency), ..self }),
    {
        let mut builder = self;
        builder.frequency = Some(frequency);
        builder
    }

    /// Sets the field `radical_names`.
    pub fn radical_names(self, radical_names: Vec<String>) -> (r: Self)
        ensures
            r == (Self { radical_names: Some(radical_names), ..self }),
    {
        let mut builder = self;
        builder.radical_names = Some(radical_names);
        builder
    }

    /// Sets the field `jlpt`.
    pub fn jlpt(self, jlpt: u8) -> (r: Self)
        ensures
            r == (Self { jlpt: Some(jlpt), ..self }),
    {
        let mut builder = self;
        builder.jlpt = Some(jlpt);
        builder
    }

    /// Sets the field `references`.
    pub fn references(self, references: Vec<Reference>) -> (r: Self)
        ensures
            r == (Self { references: Some(references), ..self }),
    {
        let mut builder = self;
        builder.references = Some(references);
        builder
    }

    /// Sets the field `query_codes`.
    pub fn query_codes(self, query_codes: Vec<QueryCode>) -> (r: Self)
        ensures
            r == (Self { query_codes: Some(query_codes), ..self }),
    {
        let mut builder = self;
        builder.query_codes = Some(query_codes);
        builder
    }

    /// Sets the field `readings`.
    pub fn readings(self, readings: Vec<Reading>) -> (r: Self)
        ensures
            r == (Self { readings: Some(readings), ..self }),
    {
        let mut builder = self;
        builder.readings = Some(readings);
        builder
    }

    /// Sets the field `translations`.
    pub fn translations(self, translations: Translations) -> (r: Self)
        ensures
            r == (Self { translations: Some(translations), ..self }),
    {
        let mut builder = self;
        builder.translations = Some(translations);
        builder
    }

    /// Sets the field `nanori`.
    pub fn nanori(self, nanori: Vec<String>) -> (r: Self)
        ensures
            r == (Self { nanori: Some(nanori), ..self }),
    {
        let mut builder = self;
        builder.nanori = Some(nanori);
        builder
    }

    /// Sets the field `decomposition`.
    pub fn decomposition(self, decomposition: Vec<char>) -> (r: Self)
        ensures
            r == (Self { decomposition: Some(decomposition), ..self }),
    {
        let mut builder = self;
        builder.decomposition = Some(decomposition);
        builder
    }

    /// Whether every field is set that a record cannot do without: the
    /// literal, the codepoints, the radicals, the stroke counts and the query
    /// codes.
    pub open spec fn is_complete(self) -> bool {
        &&& self.literal is Some
        &&& self.codepoints is Some
        &&& self.radicals is Some
        &&& self.stroke_counts is Some
        &&& self.query_codes is Some
    }

    /// The record of the fields that are set, where the builder is complete.
    /// A list that was not set is empty, as are the translations, and a grade,
    /// a frequency or a level that was not set is absent.
    pub fn build(self) -> (r: Option<Character>)
        ensures
            r is Some <==> self.is_complete(),
            r matches Some(c) ==> {
                &&& Some(c.literal) == self.literal
                &&& Some(c.codepoints) == self.codepoints
                &&& Some(c.radicals) == self.radicals
                &&& c.grade == self.grade
                &&& Some(c.stroke_counts) == self.stroke_counts
                &&& c.variants@ == seq_or_empty(self.variants)
                &&& c.frequency == self.frequency
                &&& c.radical_names@ == seq_or_empty(self.radical_names)
                &&& c.jlpt == self.jlpt
                &&& c.references@ == seq_or_empty(self.references)
                &&& Some(c.query_codes) == self.query_codes
                &&& c.readings@ == seq_or_empty(self.readings)
                &&& c.translations@ == match self.translations {
                    Some(translations) => translations@,
                    None => Map::empty(),
                }
                &&& c.nanori@ == seq_or_empty(self.nanori)
                &&& c.decomposition@ == seq_or_empty(self.decomposition)
            },
    {
        let literal = match self.literal {
            Some(literal) => literal,
            None => {
                return None;
            },
        };
        let codepoints = match self.codepoints {
            Some(codepoints) => codepoints,
            None => {
                return None;
            },
        };
        let radicals = match self.radicals {
            Some(radicals) => radicals,
            None => {
                return None;
            },
        };
        let stroke_counts = match self.stroke_counts {
            Some(stroke_counts) => stroke_counts,
            None => {
                return None;
            },
        };
        let query_codes = match self.query_codes {
            Some(query_codes) => query_codes,
            None => {
                return None;
            },
        };
        Some(
            Character {
                literal,
                codepoints,
                radicals,
                grade: self.grade,
                stroke_counts,
                variants: vec_or_empty(self.variants),
                frequency: self.frequency,
                radical_names: vec_or_empty(self.radical_names),
                jlpt: self.jlpt,
                references: vec_or_empty(self.references),
                query_codes,
                readings: vec_or_empty(self.readings),
                translations: match self.translations {
                    Some(translations) => translations,
                    None => Translations::new(),
                },
                nanori: vec_or_empty(self.nanori),
                decomposition: vec_or_empty(self.decomposition),
            },
        )
    }
}

/// The items of a list that may not have been set.
pub open spec fn seq_or_empty<T>(list: Option<Vec<T>>) -> Seq<T> {
    match list {
        Some(list) => list@,
        None => Seq::empty(),
    }
}

/// The list, or an empty one where none was set.
pub fn vec_or_empty<T>(list: Option<Vec<T>>) -> (r: Vec<T>)
    ensures
        r@ == seq_or_empty(list),
{
    match list {
        Some(list) => list,
        None => Vec::new(),
    }
}

/// The single character that `s` consists of.
pub open spec fn spec_string_to_char(s: Seq<char>) -> Result<char, CharacterError> {
    if s.len() == 1 {
        Ok(s[0])
    } else {
        Err(CharacterError::NonCharString)
    }
}

/// Reads `s` as one character. An empty text and one of several characters are
/// rejected.
pub fn string_to_char(s: &str) -> (r: Result<char, CharacterError>)
    ensures
        r == spec_string_to_char(s@),
{
    let chars = chars_of(s);
    if chars.len() == 1 {
        Ok(chars[0])
    } else {
        Err(CharacterError::NonCharString)
    }
}

/// Turns an outcome that may be absent into an outcome of a value that may be
/// absent.
pub fn coalesce<T, E>(opt: Option<Result<T, E>>) -> (r: Result<Option<T>, E>)
    ensures
        r == match opt {
            Some(Ok(v)) => Ok::<Option<T>, E>(Some(v)),
            Some(Err(e)) => Err::<Option<T>, E>(e),
            None => Ok::<Option<T>, E>(None),
        },
{
    Ok(
        match opt {
            Some(v) => Some(
                match v {
                    Ok(v) => v,
                    Err(e) => {
                        return Err(e);
                    },
                },
            ),
            None => None,
        },
    )
}


/// The literal under `node`: the text of its `literal` child, which must be a
/// single character.
pub open spec fn spec_literal(node: Node) -> Result<char, CharacterError> {
    match spec_child(node, Tag::Literal) {
        None => Err(CharacterError::Shared(SharedError::MissingChild(spec_pos(node), Tag::Literal))),
        Some(literal) => match spec_text(literal) {
            None => Err(CharacterError::Shared(SharedError::MissingText(spec_pos(literal)))),
            Some(s) => spec_string_to_char(s),
        },
    }
}

/// `items`, where `group` holds at least one child named `tag` and so at least
/// one item; the absence of such a child is an error at `group`.
pub open spec fn spec_at_least_one<T>(group: Node, tag: Tag, items: Seq<T>) -> Result<
    Seq<T>,
    CharacterError,
> {
    if items.len() == 0 {
        Err(CharacterError::Shared(SharedError::MissingChild(spec_pos(group), tag)))
    } else {
        Ok(items)
    }
}

/// The codepoints under `node`: what each `cp_value` child of its `codepoint`
/// child writes. The group must be there and hold at least one value.
pub open spec fn spec_codepoints(node: Node) -> Result<Seq<Codepoint>, CharacterError> {
    match spec_child(node, Tag::Codepoint) {
        None => Err(
            CharacterError::Shared(SharedError::MissingChild(spec_pos(node), Tag::Codepoint)),
        ),
        Some(group) => match collect(
            spec_children(group, Tag::CpValue).map_values(|n: Node| crate::codepoint::spec_from(n)),
        ) {
            Err(e) => Err(CharacterError::Codepoint(e)),
            Ok(items) => spec_at_least_one(group, Tag::CpValue, items),
        },
    }
}

/// The radicals under `node`: what each `rad_value` child of its `radical`
/// child writes. The group must be there and hold at least one value.
pub open spec fn spec_radicals(node: Node) -> Result<Seq<Radical>, CharacterError> {
    match spec_child(node, Tag::Radical) {
        None => Err(CharacterError::Shared(SharedError::MissingChild(spec_pos(node), Tag::Radical))),
        Some(group) => match collect(
            spec_children(group, Tag::RadValue).map_values(|n: Node| crate::radical::spec_from(n)),
        ) {
            Err(e) => Err(CharacterError::Radical(e)),
            Ok(items) => spec_at_least_one(group, Tag::RadValue, items),
        },
    }
}

/// The query codes under `node`: what each `q_code` child of its `query_code`
/// child writes. The group must be there and hold at least one code.
pub open spec fn spec_query_codes(node: Node) -> Result<Seq<QueryCode>, CharacterError> {
    match spec_child(node, Tag::QueryCode) {
        None => Err(
            CharacterError::Shared(SharedError::MissingChild(spec_pos(node), Tag::QueryCode)),
        ),
        Some(group) => match collect(
            spec_children(group, Tag::QCode).map_values(|n: Node| crate::query_code::spec_from(n)),
        ) {
            Err(e) => Err(CharacterError::QueryCode(e)),
            Ok(items) => spec_at_least_one(group, Tag::QCode, items),
        },
    }
}

/// The dictionary references under `node`: what each `dic_ref` child of its
/// `dic_number` child writes, and none where it has no such child.
pub open spec fn spec_references(node: Node) -> Result<Seq<Reference>, CharacterError> {
    match spec_child(node, Tag::DicNumber) {
        None => Ok(Seq::empty()),
        Some(group) => match collect(
            spec_children(group, Tag::DicRef).map_values(|n: Node| crate::reference::spec_from(n)),
        ) {
            Err(e) => Err(CharacterError::DictionaryReference(e)),
            Ok(items) => Ok(items),
        },
    }
}

/// The grade under `misc`: what its `grade` child writes, where it has one.
pub open spec fn spec_grade(misc: Node) -> Result<Option<Grade>, CharacterError> {
    match spec_child(misc, Tag::Grade) {
        None => Ok(None),
        Some(grade) => match crate::grade::spec_from(grade) {
            Ok(grade) => Ok(Some(grade)),
            Err(e) => Err(CharacterError::Grade(e)),
        },
    }
}

/// The decimal number of at most `max` that the child of `misc` named `tag`
/// writes, where it has such a child.
pub open spec fn spec_optional_number(misc: Node, tag: Tag, max: nat) -> Result<
    Option<nat>,
    CharacterError,
> {
    match spec_child(misc, tag) {
        None => Ok(None),
        Some(number) => match spec_text_uint(number, 10, max) {
            Ok(n) => Ok(Some(n)),
            Err(e) => Err(CharacterError::Shared(e)),
        },
    }
}

/// The variants under `misc`: what each of its `variant` children writes.
pub open spec fn spec_variants(misc: Node) -> Result<Seq<Variant>, CharacterError> {
    match collect(
        spec_children(misc, Tag::Variant).map_values(|n: Node| crate::variant::spec_from(n)),
    ) {
        Err(e) => Err(CharacterError::Variant(e)),
        Ok(items) => Ok(items),
    }
}

/// The radical names under `misc`: the text of each of its `rad_name`
/// children.
pub open spec fn spec_radical_names(misc: Node) -> Result<Seq<Seq<char>>, CharacterError> {
    match collect(spec_children(misc, Tag::RadName).map_values(|n: Node| spec_owned_text(n))) {
        Err(e) => Err(CharacterError::Shared(e)),
        Ok(items) => Ok(items),
    }
}

/// The readings, the name readings and the translations of an entry.
pub struct ReadingMeaningView {
    pub readings: Seq<ReadingView>,
    pub nanori: Seq<Seq<char>>,
    pub translations: Map<Seq<char>, Seq<Seq<char>>>,
}

/// What the `reading_meaning` child of `node` writes, and nothing of any of
/// the three where `node` has no such child. Where it has one, that child's
/// `rmgroup` child must be there; its readings and its glosses are decoded,
/// then the name readings.
pub open spec fn spec_reading_meaning(node: Node) -> Result<ReadingMeaningView, CharacterError> {
    match spec_child(node, Tag::ReadingMeaning) {
        None => Ok(
            ReadingMeaningView {
                readings: Seq::empty(),
                nanori: Seq::empty(),
                translations: Map::empty(),
            },
        ),
        Some(group) => match spec_child(group, Tag::Rmgroup) {
            None => Err(
                CharacterError::Shared(SharedError::MissingChild(spec_pos(group), Tag::Rmgroup)),
            ),
            Some(rmgroup) => match crate::meaning::spec_readings(rmgroup) {
                Err(e) => Err(CharacterError::Reading(e)),
                Ok(readings) => match crate::translation::spec_from(rmgroup) {
                    Err(e) => Err(CharacterError::Translation(e)),
                    Ok(translations) => match crate::meaning::spec_nanori(group) {
                        Err(pos) => Err(CharacterError::NanoriText(pos)),
                        Ok(nanori) => Ok(ReadingMeaningView { readings, nanori, translations }),
                    },
                },
            },
        },
    }
}

/// What `misc` holds of a record.
pub struct MiscView {
    pub grade: Option<Grade>,
    pub stroke_counts: StrokeCountView,
    pub variants: Seq<Variant>,
    pub frequency: Option<u16>,
    pub radical_names: Seq<Seq<char>>,
    pub jlpt: Option<u8>,
}

/// What the `misc` child of `node` writes. It must be there. Its fields are
/// decoded in this order: grade, stroke counts, variants, frequency, radical
/// names, level.
pub open spec fn spec_misc(node: Node) -> Result<MiscView, CharacterError> {
    match spec_child(node, Tag::Misc) {
        None => Err(CharacterError::Shared(SharedError::MissingChild(spec_pos(node), Tag::Misc))),
        Some(misc) => match spec_grade(misc) {
            Err(e) => Err(e),
            Ok(grade) => match crate::stroke_count::spec_from(misc) {
                Err(e) => Err(CharacterError::StrokeCount(e)),
                Ok(stroke_counts) => match spec_variants(misc) {
                    Err(e) => Err(e),
                    Ok(variants) => match spec_optional_number(misc, Tag::Freq, 0xffff) {
                        Err(e) => Err(e),
                        Ok(frequency) => match spec_radical_names(misc) {
                            Err(e) => Err(e),
                            Ok(radical_names) => match spec_optional_number(
                                misc,
                                Tag::Jlpt,
                                0xff,
                            ) {
                                Err(e) => Err(e),
                                Ok(jlpt) => Ok(
                                    MiscView {
                                        grade,
                                        stroke_counts,
                                        variants,
                                        frequency: match frequency {
                                            Some(n) => Some(n as u16),
                                            None => None,
                                        },
                                        radical_names,
                                        jlpt: match jlpt {
                                            Some(n) => Some(n as u8),
                                            None => None,
                                        },
                                    },
                                ),
                            },
                        },
                    },
                },
            },
        },
    }
}

/// The record that the `character` node `node` writes. Its groups are decoded
/// in this order: literal, codepoints, radicals, what `misc` holds, dictionary
/// references, query codes, readings and meanings; then the decomposition of
/// the literal is looked up. The first failure in that order is the error, and
/// there is a record only where nothing fails.
pub open spec fn spec_from(node: Node) -> Result<CharacterView, CharacterError> {
    match spec_literal(node) {
        Err(e) => Err(e),
        Ok(literal) => match spec_codepoints(node) {
            Err(e) => Err(e),
            Ok(codepoints) => match spec_radicals(node) {
                Err(e) => Err(e),
                Ok(radicals) => match spec_misc(node) {
                    Err(e) => Err(e),
                    Ok(misc) => match spec_references(node) {
                        Err(e) => Err(e),
                        Ok(references) => match spec_query_codes(node) {
                            Err(e) => Err(e),
                            Ok(query_codes) => match spec_reading_meaning(node) {
                                Err(e) => Err(e),
                                Ok(reading_meaning) => Ok(
                                    CharacterView {
                                        literal,
                                        codepoints,
                                        radicals,
                                        grade: misc.grade,
                                        stroke_counts: misc.stroke_counts,
                                        variants: misc.variants,
                                        frequency: misc.frequency,
                                        radical_names: misc.radical_names,
                                        jlpt: misc.jlpt,
                                        references,
                                        query_codes,
                                        readings: reading_meaning.readings,
                                        translations: reading_meaning.translations,
                                        nanori: reading_meaning.nanori,
                                        decomposition: spec_decomposition(literal),
                                    },
                                ),
                            },
                        },
                    },
                },
            },
        },
    }
}

/// Decodes the literal under `node`.
pub fn literal(node: &Node) -> (r: Result<char, CharacterError>)
    ensures
        r == spec_literal(*node),
{
    let literal = match child(node, Tag::Literal) {
        Ok(literal) => literal,
        Err(e) => {
            return Err(CharacterError::Shared(e));
        },
    };
    match text(literal) {
        Ok(s) => string_to_char(s),
        Err(e) => Err(CharacterError::Shared(e)),
    }
}

/// `items`, where there is at least one.
pub fn at_least_one<T>(group: &Node, tag: Tag, items: Vec<T>) -> (r: Result<Vec<T>, CharacterError>)
    ensures
        viewed(r) == spec_at_least_one(*group, tag, items@),
{
    if items.len() == 0 {
        Err(CharacterError::Shared(SharedError::MissingChild(PosError::from(group), tag)))
    } else {
        Ok(items)
    }
}

/// Decodes the codepoints under `node`.
pub fn codepoints(node: &Node) -> (r: Result<Vec<Codepoint>, CharacterError>)
    ensures
        viewed(r) == spec_codepoints(*node),
{
    let group = match child(node, Tag::Codepoint) {
        Ok(group) => group,
        Err(e) => {
            return Err(CharacterError::Shared(e));
        },
    };
    let items = children(group, Tag::CpValue, crate::codepoint::from);
    proof {
        lemma_children(
            crate::codepoint::from,
            spec_children(*group, Tag::CpValue),
            items,
            |c: Codepoint| c,
            |n: Node| crate::codepoint::spec_from(n),
        );
        if let Ok(values) = &items {
            assert(values@.map_values(|c: Codepoint| c) =~= values@);
        }
    }
    match items {
        Ok(items) => at_least_one(group, Tag::CpValue, items),
        Err(e) => Err(CharacterError::Codepoint(e)),
    }
}

/// Decodes the radicals under `node`.
pub fn radicals(node: &Node) -> (r: Result<Vec<Radical>, CharacterError>)
    ensures
        viewed(r) == spec_radicals(*node),
{
    let group = match child(node, Tag::Radical) {
        Ok(group) => group,
        Err(e) => {
            return Err(CharacterError::Shared(e));
        },
    };
    let items = children(group, Tag::RadValue, crate::radical::from);
    proof {
        lemma_children(
            crate::radical::from,
            spec_children(*group, Tag::RadValue),
            items,
            |c: Radical| c,
            |n: Node| crate::radical::spec_from(n),
        );
        if let Ok(values) = &items {
            assert(values@.map_values(|c: Radical| c) =~= values@);
        }
    }
    match items {
        Ok(items) => at_least_one(group, Tag::RadValue, items),
        Err(e) => Err(CharacterError::Radical(e)),
    }
}

/// Decodes the query codes under `node`.
pub fn query_codes(node: &Node) -> (r: Result<Vec<QueryCode>, CharacterError>)
    ensures
        viewed(r) == spec_query_codes(*node),
{
    let group = match child(node, Tag::QueryCode) {
        Ok(group) => group,
        Err(e) => {
            return Err(CharacterError::Shared(e));
        },
    };
    let items = children(group, Tag::QCode, crate::query_code::from);
    proof {
        lemma_children(
            crate::query_code::from,
            spec_children(*group, Tag::QCode),
            items,
            |c: QueryCode| c,
            |n: Node| crate::query_code::spec_from(n),
        );
        if let Ok(values) = &items {
            assert(values@.map_values(|c: QueryCode| c) =~= values@);
        }
    }
    match items {
        Ok(items) => at_least_one(group, Tag::QCode, items),
        Err(e) => Err(CharacterError::QueryCode(e)),
    }
}

/// Decodes the dictionary references under `node`.
pub fn references(node: &Node) -> (r: Result<Vec<Reference>, CharacterError>)
    ensures
        viewed(r) == spec_references(*node),
{
    let group = match child(node, Tag::DicNumber) {
        Ok(group) => group,
        Err(_) => {
            return Ok(Vec::new());
        },
    };
    let items = children(group, Tag::DicRef, crate::reference::from);
    proof {
        lemma_children(
            crate::reference::from,
            spec_children(*group, Tag::DicRef),
            items,
            |c: Reference| c,
            |n: Node| crate::reference::spec_from(n),
        );
        if let Ok(values) = &items {
            assert(values@.map_values(|c: Reference| c) =~= values@);
        }
    }
    match items {
        Ok(items) => Ok(items),
        Err(e) => Err(CharacterError::DictionaryReference(e)),
    }
}

/// Decodes the grade under `misc`.
pub fn grade(misc: &Node) -> (r: Result<Option<Grade>, CharacterError>)
    ensures
        r == spec_grade(*misc),
{
    match coalesce(
        match child(misc, Tag::Grade) {
            Ok(grade) => Some(Grade::try_from(grade)),
            Err(_) => None,
        },
    ) {
        Ok(grade) => Ok(grade),
        Err(e) => Err(CharacterError::Grade(e)),
    }
}

/// Decodes the frequency under `misc`.
pub fn frequency(misc: &Node) -> (r: Result<Option<u16>, CharacterError>)
    ensures
        match r {
            Ok(Some(n)) => spec_optional_number(*misc, Tag::Freq, 0xffff) == Ok::<
                Option<nat>,
                CharacterError,
            >(Some(n as nat)),
            Ok(None) => spec_optional_number(*misc, Tag::Freq, 0xffff) == Ok::<
                Option<nat>,
                CharacterError,
            >(None),
            Err(e) => spec_optional_number(*misc, Tag::Freq, 0xffff) == Err::<
                Option<nat>,
                CharacterError,
            >(e),
        },
{
    match coalesce(
        match child(misc, Tag::Freq) {
            Ok(freq) => Some(text_u16(freq)),
            Err(_) => None,
        },
    ) {
        Ok(frequency) => Ok(frequency),
        Err(e) => Err(CharacterError::Shared(e)),
    }
}

/// Decodes the level of the Japanese Language Proficiency Test under `misc`.
pub fn jlpt(misc: &Node) -> (r: Result<Option<u8>, CharacterError>)
    ensures
        match r {
            Ok(Some(n)) => spec_optional_number(*misc, Tag::Jlpt, 0xff) == Ok::<
                Option<nat>,
                CharacterError,
            >(Some(n as nat)),
            Ok(None) => spec_optional_number(*misc, Tag::Jlpt, 0xff) == Ok::<
                Option<nat>,
                CharacterError,
            >(None),
            Err(e) => spec_optional_number(*misc, Tag::Jlpt, 0xff) == Err::<
                Option<nat>,
                CharacterError,
            >(e),
        },
{
    match coalesce(
        match child(misc, Tag::Jlpt) {
            Ok(jlpt) => Some(text_u8(jlpt)),
            Err(_) => None,
        },
    ) {
        Ok(jlpt) => Ok(jlpt),
        Err(e) => Err(CharacterError::Shared(e)),
    }
}

/// Decodes the variants under `misc`.
pub fn variants(misc: &Node) -> (r: Result<Vec<Variant>, CharacterError>)
    ensures
        viewed(r) == spec_variants(*misc),
{
    let items = children(misc, Tag::Variant, crate::variant::from);
    proof {
        lemma_children(
            crate::variant::from,
            spec_children(*misc, Tag::Variant),
            items,
            |c: Variant| c,
            |n: Node| crate::variant::spec_from(n),
        );
        if let Ok(values) = &items {
            assert(values@.map_values(|c: Variant| c) =~= values@);
        }
    }
    match items {
        Ok(items) => Ok(items),
        Err(e) => Err(CharacterError::Variant(e)),
    }
}

/// Decodes the radical names under `misc`.
pub fn radical_names(misc: &Node) -> (r: Result<Vec<String>, CharacterError>)
    ensures
        match r {
            Ok(names) => spec_radical_names(*misc) == Ok::<Seq<Seq<char>>, CharacterError>(
                texts(names@),
            ),
            Err(e) => spec_radical_names(*misc) == Err::<Seq<Seq<char>>, CharacterError>(e),
        },
{
    let names = children(misc, Tag::RadName, owned_text);
    proof {
        lemma_children(
            owned_text,
            spec_children(*misc, Tag::RadName),
            names,
            |s: String| s@,
            |n: Node| spec_owned_text(n),
        );
    }
    match names {
        Ok(names) => Ok(names),
        Err(e) => Err(CharacterError::Shared(e)),
    }
}

/// Decodes the record that the `character` node `node` writes.
pub fn from(node: &Node) -> (r: Result<Character, CharacterError>)
    ensures
        viewed(r) == spec_from(*node),
{
    let builder = CharacterBuilder::new();
    let literal = match literal(node) {
        Ok(literal) => literal,
        Err(e) => {
            return Err(e);
        },
    };
    let builder = builder.literal(literal);
    let builder = match codepoints(node) {
        Ok(codepoints) => builder.codepoints(codepoints),
        Err(e) => {
            return Err(e);
        },
    };
    let builder = match radicals(node) {
        Ok(radicals) => builder.radicals(radicals),
        Err(e) => {
            return Err(e);
        },
    };
    let misc = match child(node, Tag::Misc) {
        Ok(misc) => misc,
        Err(e) => {
            return Err(CharacterError::Shared(e));
        },
    };
    let builder = match grade(misc) {
        Ok(Some(grade)) => builder.grade(grade),
        Ok(None) => builder,
        Err(e) => {
            return Err(e);
        },
    };
    let builder = match crate::stroke_count::from(misc) {
        Ok(stroke_counts) => builder.stroke_counts(stroke_counts),
        Err(e) => {
            return Err(CharacterError::StrokeCount(e));
        },
    };
    let builder = match variants(misc) {
        Ok(variants) => builder.variants(variants),
        Err(e) => {
            return Err(e);
        },
    };
    let builder = match frequency(misc) {
        Ok(Some(frequency)) => builder.frequency(frequency),
        Ok(None) => builder,
        Err(e) => {
            return Err(e);
        },
    };
    let builder = match radical_names(misc) {
        Ok(radical_names) => builder.radical_names(radical_names),
        Err(e) => {
            return Err(e);
        },
    };
    let builder = match jlpt(misc) {
        Ok(Some(jlpt)) => builder.jlpt(jlpt),
        Ok(None) => builder,
        Err(e) => {
            return Err(e);
        },
    };
    let builder = match references(node) {
        Ok(references) => builder.references(references),
        Err(e) => {
            return Err(e);
        },
    };
    let builder = match query_codes(node) {
        Ok(query_codes) => builder.query_codes(query_codes),
        Err(e) => {
            return Err(e);
        },
    };
    let builder = match child(node, Tag::ReadingMeaning) {
        Ok(reading_meaning) => {
            let rmgroup = match child(reading_meaning, Tag::Rmgroup) {
                Ok(rmgroup) => rmgroup,
                Err(e) => {
                    return Err(CharacterError::Shared(e));
                },
            };
            let readings = match crate::meaning::readings(rmgroup) {
                Ok(readings) => readings,
                Err(e) => {
                    return Err(CharacterError::Reading(e));
                },
            };
            let translations = match crate::translation::from(rmgroup) {
                Ok(translations) => translations,
                Err(e) => {
                    return Err(CharacterError::Translation(e));
                },
            };
            let nanori = match crate::meaning::nanori(reading_meaning) {
                Ok(nanori) => nanori,
                Err(pos) => {
                    return Err(CharacterError::NanoriText(pos));
                },
            };
            builder.readings(readings).translations(translations).nanori(nanori)
        },
        Err(_) => builder,
    };
    let builder = builder.decomposition(decomposition(literal));
    match builder.build() {
        Some(character) => {
            proof {
                assert(texts(Seq::<String>::empty()) =~= Seq::<Seq<char>>::empty());
                assert(reading_views(Seq::<Reading>::empty()) =~= Seq::<ReadingView>::empty());
            }
            Ok(character)
        },
        None => vstd::pervasive::unreached(),
    }
}


/// Decoding a node twice gives equal outcomes: the outcome is a function of
/// the node.
pub proof fn lemma_decoding_is_deterministic(
    node: Node,
    first: Result<Character, CharacterError>,
    second: Result<Character, CharacterError>,
)
    requires
        viewed(first) == spec_from(node),
        viewed(second) == spec_from(node),
    ensures
        viewed(first) == viewed(second),
{
}

/// A node without a `reading_meaning` child has no readings, no name readings
/// and no translations, and its absence is no error: the node has a record
/// exactly where its other groups can be decoded.
pub proof fn lemma_without_reading_meaning(node: Node)
    requires
        spec_child(node, Tag::ReadingMeaning) is None,
    ensures
        spec_from(node) matches Ok(record) ==> record.readings == Seq::<ReadingView>::empty()
            && record.nanori == Seq::<Seq<char>>::empty() && record.translations == Map::<
            Seq<char>,
            Seq<Seq<char>>,
        >::empty(),
        spec_from(node) is Ok <==> spec_literal(node) is Ok && spec_codepoints(node) is Ok
            && spec_radicals(node) is Ok && spec_misc(node) is Ok && spec_references(node) is Ok
            && spec_query_codes(node) is Ok,
{
}

/// Whether a record cannot do without the child named `tag`.
pub open spec fn is_mandatory(tag: Tag) -> bool {
    tag == Tag::Literal || tag == Tag::Codepoint || tag == Tag::Radical || tag == Tag::Misc || tag
        == Tag::QueryCode
}

/// Whether every group of `node` can be decoded that is decoded before the
/// child named `tag` is looked for.
pub open spec fn decoded_before(node: Node, tag: Tag) -> bool {
    match tag {
        Tag::Literal => true,
        Tag::Codepoint => spec_literal(node) is Ok,
        Tag::Radical => spec_literal(node) is Ok && spec_codepoints(node) is Ok,
        Tag::Misc => spec_literal(node) is Ok && spec_codepoints(node) is Ok && spec_radicals(
            node,
        ) is Ok,
        _ => spec_literal(node) is Ok && spec_codepoints(node) is Ok && spec_radicals(node) is Ok
            && spec_misc(node) is Ok && spec_references(node) is Ok,
    }
}

/// A node that lacks a mandatory group has no record. Where everything before
/// that group can be decoded, the error is the missing child at the node
/// itself.
pub proof fn lemma_missing_group(node: Node, tag: Tag)
    requires
        is_mandatory(tag),
        spec_child(node, tag) is None,
    ensures
        spec_from(node) is Err,
        decoded_before(node, tag) ==> spec_from(node) == Err::<CharacterView, CharacterError>(
            CharacterError::Shared(SharedError::MissingChild(spec_pos(node), tag)),
        ),
{
}


/// A record holds at least one codepoint, one radical and one query code, and
/// each of its radicals is one of the 214.
pub proof fn lemma_record_is_well_formed(node: Node)
    ensures
        spec_from(node) matches Ok(record) ==> {
            &&& record.codepoints.len() > 0
            &&& record.radicals.len() > 0
            &&& record.query_codes.len() > 0
            &&& forall|i: int|
                0 <= i < record.radicals.len() ==> 1 <= (#[trigger] record.radicals[i]).radical
                    <= 214
        },
{
    if let Ok(record) = spec_from(node) {
        let group = spec_child(node, Tag::Radical)->0;
        let outcomes = spec_children(group, Tag::RadValue).map_values(
            |n: Node| crate::radical::spec_from(n),
        );
        crate::shared::lemma_collected(outcomes);
        assert forall|i: int| 0 <= i < record.radicals.len() implies 1 <= (
        #[trigger] record.radicals[i]).radical <= 214 by {
            assert(outcomes[i] == Ok::<Radical, RadicalError>(record.radicals[i]));
        }
    }
}


impl CharacterError {
    /// What the error says: the component that reports it, then what went
    /// wrong, then what the error holds.
    pub open spec fn spec_message(self) -> Seq<char> {
        match self {
            CharacterError::Shared(error) => "(Character) Shared: "@ + error.spec_message(),
            CharacterError::Codepoint(error) => "(Character) Codepoint: "@ + error.spec_message(),
            CharacterError::Radical(error) => "(Character) Radical: "@ + error.spec_message(),
            CharacterError::Grade(error) => "(Character) Grade: "@ + error.spec_message(),
            CharacterError::StrokeCount(error) => "(Character) Stroke count: "@ + error.spec_message(),
            CharacterError::Variant(error) => "(Character) Variant: "@ + error.spec_message(),
            CharacterError::Translation(error) => "(Character) Translation: "@ + error.spec_message(),
            CharacterError::Reading(error) => "(Character) Reading: "@ + error.spec_message(),
            CharacterError::QueryCode(error) => "(Character) Query code: "@ + error.spec_message(),
            CharacterError::DictionaryReference(error) => "(Character) Dictionary reference: "@ + error.spec_message(),
            CharacterError::NanoriText(pos) => "(Character) Nanori node missing text: "@ + pos.spec_message(),
            CharacterError::NonCharString => "(Character) Expected a single char"@,
        }
    }

    /// Appends what the error says to `out`.
    pub fn write(&self, out: &mut String)
        ensures
            final(out)@ == old(out)@ + self.spec_message(),
    {
        match *self {
            CharacterError::Shared(error) => {
                out.append("(Character) Shared: ");
                error.write(out);
                assert(out@ =~= old(out)@ + self.spec_message());
            },
            CharacterError::Codepoint(error) => {
                out.append("(Character) Codepoint: ");
                error.write(out);
                assert(out@ =~= old(out)@ + self.spec_message());
            },
            CharacterError::Radical(error) => {
                out.append("(Character) Radical: ");
                error.write(out);
                assert(out@ =~= old(out)@ + self.spec_message());
            },
            CharacterError::Grade(error) => {
                out.append("(Character) Grade: ");
                error.write(out);
                assert(out@ =~= old(out)@ + self.spec_message());
            },
            CharacterError::StrokeCount(error) => {
                out.append("(Character) Stroke count: ");
                error.write(out);
                assert(out@ =~= old(out)@ + self.spec_message());
            },
            CharacterError::Variant(error) => {
                out.append("(Character) Variant: ");
                error.write(out);
                assert(out@ =~= old(out)@ + self.spec_message());
            },
            CharacterError::Translation(error) => {
                out.append("(Character) Translation: ");
                error.write(out);
                assert(out@ =~= old(out)@ + self.spec_message());
            },
            CharacterError::Reading(error) => {
                out.append("(Character) Reading: ");
                error.write(out);
                assert(out@ =~= old(out)@ + self.spec_message());
            },
            CharacterError::QueryCode(error) => {
                out.append("(Character) Query code: ");
                error.write(out);
                assert(out@ =~= old(out)@ + self.spec_message());
            },
            CharacterError::DictionaryReference(error) => {
                out.append("(Character) Dictionary reference: ");
                error.write(out);
                assert(out@ =~= old(out)@ + self.spec_message());
            },
            CharacterError::NanoriText(pos) => {
                out.append("(Character) Nanori node missing text: ");
                pos.write(out);
                assert(out@ =~= old(out)@ + self.spec_message());
            },
            CharacterError::NonCharString => {
                out.append("(Character) Expected a single char");
                assert(out@ =~= old(out)@ + self.spec_message());
            },
        }
    }

    /// What the error says.
    pub fn message(&self) -> (r: String)
        ensures
            r@ == self.spec_message(),
    {
        let mut out = String::new();
        self.write(&mut out);
        assert(out@ =~= self.spec_message());
        out
    }
}

} // verus!
