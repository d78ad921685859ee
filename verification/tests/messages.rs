use kanjidic_parser::character::CharacterError;
use kanjidic_parser::grade::GradeError;
use kanjidic_parser::kuten::KutenError;
use kanjidic_parser::meaning::MeaningError;
use kanjidic_parser::oneill::OneillParseError;
use kanjidic_parser::pos_error::PosError;
use kanjidic_parser::query_code::QueryCodeError;
use kanjidic_parser::reference::ReferenceError;
use kanjidic_parser::shared::SharedError;
use kanjidic_parser::skip::{SkipError, SkipParseError};
use kanjidic_parser::text::Malformed;
use kanjidic_parser::tree::{Attr, Position, Tag};
use kanjidic_parser::variant::VariantError;

fn at(tag: Option<Tag>, offset: usize) -> PosError {
    PosError { tag, position: Position { offset } }
}

#[test]
fn place_of_a_node() {
    assert_eq!(at(Some(Tag::DicRef), 1204).message(), "dic_ref at byte 1204");
    assert_eq!(at(None, 0).message(), "node at byte 0");
}

#[test]
fn reasons() {
    assert_eq!(Malformed::MissingNumber.message(), "a number is missing");
    assert_eq!(Malformed::NumberTooLarge.message(), "a number is too large");
    assert_eq!(Malformed::MissingDelimiter.message(), "a delimiter is missing");
    assert_eq!(Malformed::MissingSymbol.message(), "a letter or a digit is missing");
}

#[test]
fn lookups() {
    let pos = at(Some(Tag::Character), 7);
    assert_eq!(
        SharedError::MissingChild(pos, Tag::Codepoint).message(),
        "(Shared) Missing child: character at byte 7, codepoint"
    );
    assert_eq!(
        SharedError::MissingAttribute(pos, Attr::CpType).message(),
        "(Shared) Missing attribute: character at byte 7, cp_type"
    );
    assert_eq!(
        SharedError::MissingText(pos).message(),
        "(Shared) Node contains no text: character at byte 7"
    );
    assert_eq!(
        SharedError::NotANumber(pos).message(),
        "(Shared) Not a number: character at byte 7"
    );
}

#[test]
fn messages_read_from_the_record_down_to_the_leaf() {
    let pos = at(Some(Tag::QCode), 812);
    let error = CharacterError::QueryCode(QueryCodeError::Skip(SkipError::Parse(
        pos,
        SkipParseError::Format(Malformed::MissingDelimiter),
    )));
    assert_eq!(
        error.message(),
        "(Character) Query code: (Query code) Skip: (Skip) Parse: q_code at byte 812, (Skip) Format: a delimiter is missing"
    );
    let error = CharacterError::Variant(VariantError::Kuten(KutenError::Format(
        at(Some(Tag::Variant), 90),
        Malformed::NumberTooLarge,
    )));
    assert_eq!(
        error.message(),
        "(Character) Variant: (Variant) Kuten: (Kuten) Format: variant at byte 90, a number is too large"
    );
    let error = CharacterError::DictionaryReference(ReferenceError::Oneill(
        at(Some(Tag::DicRef), 5),
        OneillParseError::UnknownSuffix,
    ));
    assert_eq!(
        error.message(),
        "(Character) Dictionary reference: (Reference) Oneill: dic_ref at byte 5, (Oneill) Unknown reference suffix"
    );
    assert_eq!(CharacterError::NonCharString.message(), "(Character) Expected a single char");
    assert_eq!(
        CharacterError::Grade(GradeError::Unrecognized).message(),
        "(Character) Grade: Does not fit one of the recognized grade levels"
    );
    assert_eq!(GradeError::NoText.message(), "Node contains no text");
    assert_eq!(GradeError::Digit.message(), "Grade should be a digit");
    assert_eq!(
        MeaningError::NanoriText(at(Some(Tag::ReadingMeaning), 3)).message(),
        "(Meaning) Nanori node missing text: reading_meaning at byte 3"
    );
    assert_eq!(
        kanjidic_parser::moro::Error::IndexSuffix.message(),
        "(Moro) Unknown index suffix"
    );
    assert_eq!(
        kanjidic_parser::reading::Error::UnrecognizedType(at(Some(Tag::Reading), 44)).message(),
        "(Reading) qc_type not recognized: reading at byte 44"
    );
}

#[test]
fn messages_are_appended() {
    let mut out = String::from("entry 12: ");
    CharacterError::NonCharString.write(&mut out);
    assert_eq!(out, "entry 12: (Character) Expected a single char");
}
