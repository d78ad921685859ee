use kanjidic_parser::character::{
    coalesce, from, string_to_char, Character, CharacterBuilder, CharacterError,
};
use kanjidic_parser::codepoint::{Codepoint, CodepointError};
use kanjidic_parser::decomposition::decomposition;
use kanjidic_parser::grade::{Grade, GradeError};
use kanjidic_parser::meaning::{Meaning, MeaningError};
use kanjidic_parser::pos_error::PosError;
use kanjidic_parser::query_code::{QueryCode, QueryCodeError};
use kanjidic_parser::radical::{Radical, RadicalError, RadicalKind};
use kanjidic_parser::reading::Reading;
use kanjidic_parser::reference::{Reference, ReferenceError};
use kanjidic_parser::shared::SharedError;
use kanjidic_parser::skip::{Skip, SkipVertical};
use kanjidic_parser::stroke_count::{StrokeCount, StrokeCountError};
use kanjidic_parser::translation::{TranslationError, Translations};
use kanjidic_parser::tree::{Attribute, Node, Position, Tag};
use kanjidic_parser::variant::{Variant, VariantError};

fn node(tag: &str, attributes: &[(&str, &str)], text: Option<&str>, children: Vec<Node>) -> Node {
    Node {
        tag: tag.to_owned(),
        attributes: attributes
            .iter()
            .map(|(name, value)| Attribute { name: name.to_string(), value: value.to_string() })
            .collect(),
        text: text.map(|s| s.to_owned()),
        children,
        position: Position { offset: 11 },
    }
}

fn leaf(tag: &str, attributes: &[(&str, &str)], text: &str) -> Node {
    node(tag, attributes, Some(text), vec![])
}

fn group(tag: &str, children: Vec<Node>) -> Node {
    node(tag, &[], Some("\n"), children)
}

fn at(tag: Tag) -> PosError {
    PosError { tag: Some(tag), position: Position { offset: 11 } }
}

fn groups() -> Vec<Node> {
    vec![
        leaf("literal", &[], "本"),
        group("codepoint", vec![leaf("cp_value", &[("cp_type", "ucs")], "672c")]),
        group("radical", vec![leaf("rad_value", &[("rad_type", "classical")], "75")]),
        group("misc", vec![leaf("stroke_count", &[], "5")]),
        group("query_code", vec![leaf("q_code", &[("qc_type", "skip")], "2-4-1")]),
    ]
}

fn without(tag: &str) -> Node {
    group("character", groups().into_iter().filter(|n| n.tag != tag).collect())
}

fn with(extra: Vec<Node>) -> Node {
    let mut children = groups();
    children.extend(extra);
    group("character", children)
}

fn replaced(tag: &str, by: Node) -> Node {
    group("character", groups().into_iter().map(|n| if n.tag == tag { by.clone_node() } else { n }).collect())
}

trait CloneNode {
    fn clone_node(&self) -> Node;
}

impl CloneNode for Node {
    fn clone_node(&self) -> Node {
        Node {
            tag: self.tag.clone(),
            attributes: self
                .attributes
                .iter()
                .map(|a| Attribute { name: a.name.clone(), value: a.value.clone() })
                .collect(),
            text: self.text.clone(),
            children: self.children.iter().map(|c| c.clone_node()).collect(),
            position: self.position,
        }
    }
}

fn plain() -> Character {
    Character {
        literal: '本',
        codepoints: vec![Codepoint::Unicode(0x672c)],
        radicals: vec![Radical { kind: RadicalKind::Classical, radical: 75 }],
        grade: None,
        stroke_counts: StrokeCount { accepted: 5, miscounts: vec![] },
        variants: vec![],
        frequency: None,
        radical_names: vec![],
        jlpt: None,
        references: vec![],
        query_codes: vec![QueryCode::Skip(Skip::Vertical(SkipVertical { top: 4, bottom: 1 }))],
        readings: vec![],
        translations: Translations::new(),
        nanori: vec![],
        decomposition: decomposition('本'),
    }
}

#[test]
fn record_without_optional_groups() {
    assert_eq!(from(&with(vec![])), Ok(plain()));
}

#[test]
fn missing_reading_meaning_gives_empty_lists() {
    let record = from(&with(vec![])).unwrap();
    assert!(record.readings.is_empty());
    assert!(record.nanori.is_empty());
    assert_eq!(record.translations, Translations::new());
    assert_eq!(record.translations.len(), 0);
    assert!(record.references.is_empty());
}

#[test]
fn missing_mandatory_group_is_an_error_at_the_character_node() {
    for (name, tag) in [
        ("literal", Tag::Literal),
        ("codepoint", Tag::Codepoint),
        ("radical", Tag::Radical),
        ("misc", Tag::Misc),
        ("query_code", Tag::QueryCode),
    ] {
        assert_eq!(
            from(&without(name)),
            Err(CharacterError::Shared(SharedError::MissingChild(at(Tag::Character), tag)))
        );
    }
}

#[test]
fn a_group_without_values_is_an_error_at_the_group() {
    assert_eq!(
        from(&replaced("codepoint", group("codepoint", vec![]))),
        Err(CharacterError::Shared(SharedError::MissingChild(at(Tag::Codepoint), Tag::CpValue)))
    );
    assert_eq!(
        from(&replaced("radical", group("radical", vec![]))),
        Err(CharacterError::Shared(SharedError::MissingChild(at(Tag::Radical), Tag::RadValue)))
    );
    assert_eq!(
        from(&replaced("query_code", group("query_code", vec![]))),
        Err(CharacterError::Shared(SharedError::MissingChild(at(Tag::QueryCode), Tag::QCode)))
    );
    assert_eq!(
        from(&replaced("misc", group("misc", vec![]))),
        Err(CharacterError::StrokeCount(StrokeCountError::NoStrokeCount(at(Tag::Misc))))
    );
}

#[test]
fn decoding_twice_gives_equal_records() {
    let node = with(vec![group(
        "reading_meaning",
        vec![
            group(
                "rmgroup",
                vec![
                    leaf("reading", &[("r_type", "ja_on")], "ホン"),
                    leaf("meaning", &[], "book"),
                    leaf("meaning", &[("m_lang", "fr")], "livre"),
                ],
            ),
            leaf("nanori", &[], "まと"),
        ],
    )]);
    assert_eq!(from(&node), from(&node));
    let broken = without("radical");
    assert_eq!(from(&broken), from(&broken));
}

#[test]
fn the_first_failure_is_the_error() {
    let node = group(
        "character",
        vec![
            leaf("literal", &[], "本"),
            group("codepoint", vec![leaf("cp_value", &[("cp_type", "big5")], "672c")]),
            group("radical", vec![leaf("rad_value", &[("rad_type", "classical")], "0")]),
        ],
    );
    assert_eq!(
        from(&node),
        Err(CharacterError::Codepoint(CodepointError::Encoding(at(Tag::CpValue))))
    );
    let node = group(
        "character",
        vec![
            leaf("literal", &[], "本本"),
            group("codepoint", vec![leaf("cp_value", &[("cp_type", "big5")], "672c")]),
        ],
    );
    assert_eq!(from(&node), Err(CharacterError::NonCharString));
}

#[test]
fn each_group_reports_its_own_error() {
    assert_eq!(
        from(&replaced("literal", node("literal", &[], None, vec![]))),
        Err(CharacterError::Shared(SharedError::MissingText(at(Tag::Literal))))
    );
    assert_eq!(
        from(&replaced(
            "radical",
            group("radical", vec![leaf("rad_value", &[("rad_type", "classical")], "215")])
        )),
        Err(CharacterError::Radical(RadicalError::OutOfRange(at(Tag::RadValue))))
    );
    let misc = |children: Vec<Node>| {
        let mut all = vec![leaf("stroke_count", &[], "5")];
        all.extend(children);
        replaced("misc", group("misc", all))
    };
    assert_eq!(
        from(&misc(vec![leaf("grade", &[], "7")])),
        Err(CharacterError::Grade(GradeError::Unrecognized))
    );
    assert_eq!(
        from(&misc(vec![leaf("variant", &[("var_type", "x")], "1")])),
        Err(CharacterError::Variant(VariantError::UnknownVariant(at(Tag::Variant))))
    );
    assert_eq!(
        from(&misc(vec![leaf("freq", &[], "often")])),
        Err(CharacterError::Shared(SharedError::NotANumber(at(Tag::Freq))))
    );
    assert_eq!(
        from(&misc(vec![leaf("jlpt", &[], "N1")])),
        Err(CharacterError::Shared(SharedError::NotANumber(at(Tag::Jlpt))))
    );
    assert_eq!(
        from(&misc(vec![node("rad_name", &[], None, vec![])])),
        Err(CharacterError::Shared(SharedError::MissingText(at(Tag::RadName))))
    );
    assert_eq!(
        from(&replaced("misc", group("misc", vec![leaf("stroke_count", &[], "five")]))),
        Err(CharacterError::StrokeCount(StrokeCountError::Shared(SharedError::NotANumber(at(
            Tag::StrokeCount
        )))))
    );
    assert_eq!(
        from(&with(vec![group("dic_number", vec![leaf("dic_ref", &[("dr_type", "x")], "1")])])),
        Err(CharacterError::DictionaryReference(ReferenceError::UnknownReference(at(Tag::DicRef))))
    );
    assert_eq!(
        from(&replaced(
            "query_code",
            group("query_code", vec![leaf("q_code", &[("qc_type", "x")], "1")])
        )),
        Err(CharacterError::QueryCode(QueryCodeError::UnknownType(at(Tag::QCode))))
    );
}

#[test]
fn reading_meaning_errors() {
    let rm = |children: Vec<Node>| with(vec![group("reading_meaning", children)]);
    assert_eq!(
        from(&rm(vec![])),
        Err(CharacterError::Shared(SharedError::MissingChild(
            at(Tag::ReadingMeaning),
            Tag::Rmgroup
        )))
    );
    assert_eq!(
        from(&rm(vec![group("rmgroup", vec![leaf("reading", &[("r_type", "x")], "a")])])),
        Err(CharacterError::Reading(kanjidic_parser::reading::Error::UnrecognizedType(at(
            Tag::Reading
        ))))
    );
    assert_eq!(
        from(&rm(vec![group("rmgroup", vec![node("meaning", &[], None, vec![])])])),
        Err(CharacterError::Translation(TranslationError::Shared(SharedError::MissingText(at(
            Tag::Meaning
        )))))
    );
    assert_eq!(
        from(&rm(vec![group("rmgroup", vec![]), node("nanori", &[], None, vec![])])),
        Err(CharacterError::NanoriText(at(Tag::ReadingMeaning)))
    );
    let record = from(&rm(vec![group("rmgroup", vec![])])).unwrap();
    assert_eq!(record, plain());
}

#[test]
fn optional_fields_of_misc() {
    let node = replaced(
        "misc",
        group(
            "misc",
            vec![
                leaf("grade", &[], "1"),
                leaf("stroke_count", &[], "5"),
                leaf("stroke_count", &[], "6"),
                leaf("variant", &[("var_type", "nelson_c")], "96"),
                leaf("freq", &[], "10"),
                leaf("rad_name", &[], "ほん"),
                leaf("jlpt", &[], "4"),
            ],
        ),
    );
    let record = from(&node).unwrap();
    assert_eq!(record.grade, Some(Grade::Kyouiku(1)));
    assert_eq!(record.stroke_counts, StrokeCount { accepted: 5, miscounts: vec![6] });
    assert_eq!(record.variants, vec![Variant::Nelson(96)]);
    assert_eq!(record.frequency, Some(10));
    assert_eq!(record.radical_names, vec!["ほん".to_owned()]);
    assert_eq!(record.jlpt, Some(4));
}

#[test]
fn references_are_optional() {
    let record = from(&with(vec![group("dic_number", vec![])])).unwrap();
    assert_eq!(record.references, vec![]);
    let record = from(&with(vec![group(
        "dic_number",
        vec![leaf("dic_ref", &[("dr_type", "heisig")], "211")],
    )]))
    .unwrap();
    assert_eq!(record.references, vec![Reference::Heisig(211)]);
}

#[test]
fn meaning_keeps_document_order() {
    let rm = group(
        "reading_meaning",
        vec![
            leaf("nanori", &[], "まと"),
            group(
                "rmgroup",
                vec![
                    leaf("meaning", &[], "book"),
                    leaf("reading", &[("r_type", "ja_on")], "ホン"),
                    leaf("reading", &[("r_type", "korean_r")], "bon"),
                ],
            ),
        ],
    );
    let meaning = Meaning::try_from(&rm).unwrap();
    assert_eq!(
        meaning.readings,
        vec![Reading::Onyomi("ホン".to_owned()), Reading::KoreanRomanized("bon".to_owned())]
    );
    assert_eq!(meaning.nanori, vec!["まと".to_owned()]);
    assert_eq!(meaning.translations.len(), 1);
    assert_eq!(
        Meaning::try_from(&group("reading_meaning", vec![])),
        Err(MeaningError::Shared(SharedError::MissingChild(at(Tag::ReadingMeaning), Tag::Rmgroup)))
    );
    assert_eq!(
        Meaning::try_from(&group(
            "reading_meaning",
            vec![group("rmgroup", vec![]), node("nanori", &[], None, vec![])]
        )),
        Err(MeaningError::NanoriText(at(Tag::ReadingMeaning)))
    );
    assert_eq!(
        Meaning::try_from(&group(
            "reading_meaning",
            vec![group("rmgroup", vec![leaf("reading", &[("r_type", "x")], "a")])]
        )),
        Err(MeaningError::Reading(kanjidic_parser::reading::Error::UnrecognizedType(at(
            Tag::Reading
        ))))
    );
    assert_eq!(
        Meaning::try_from(&group(
            "reading_meaning",
            vec![group("rmgroup", vec![node("meaning", &[], None, vec![])])]
        )),
        Err(MeaningError::Translation(TranslationError::Shared(SharedError::MissingText(at(
            Tag::Meaning
        )))))
    );
}

#[test]
fn decomposition_is_looked_up_in_the_table() {
    assert_eq!(decomposition('亜'), vec!['｜', '一', '口']);
    assert_eq!(decomposition('娃'), vec!['女', '土']);
    assert_eq!(
        decomposition('龥'),
        vec!['一', '｜', '亅', '𠆢', 'ハ', '冂', '口', '廾', '目', '冊', '貝', '頁', '龠']
    );
    assert_eq!(decomposition('a'), Vec::<char>::new());
    assert_eq!(decomposition('\u{0}'), Vec::<char>::new());
    for row in kradical_static::DECOMPOSITIONS.iter().take(200) {
        let first = kradical_static::DECOMPOSITIONS.iter().find(|r| r.kanji == row.kanji).unwrap();
        assert_eq!(decomposition(row.kanji), first.radicals.to_vec());
    }
}

#[test]
fn literal_is_a_single_character() {
    assert_eq!(string_to_char("亜"), Ok('亜'));
    assert_eq!(string_to_char("a"), Ok('a'));
    assert_eq!(string_to_char(""), Err(CharacterError::NonCharString));
    assert_eq!(string_to_char("亜唖"), Err(CharacterError::NonCharString));
    assert_eq!(string_to_char(" 亜"), Err(CharacterError::NonCharString));
}

#[test]
fn coalesce_turns_the_outcome_inside_out() {
    assert_eq!(coalesce::<u8, bool>(None), Ok(None));
    assert_eq!(coalesce::<u8, bool>(Some(Ok(3))), Ok(Some(3)));
    assert_eq!(coalesce::<u8, bool>(Some(Err(true))), Err(true));
}

#[test]
fn builder_collects_the_fields() {
    assert_eq!(CharacterBuilder::new().build(), None);
    let complete = || {
        CharacterBuilder::new()
            .literal('本')
            .codepoints(vec![Codepoint::Unicode(0x672c)])
            .radicals(vec![Radical { kind: RadicalKind::Classical, radical: 75 }])
            .stroke_counts(StrokeCount { accepted: 5, miscounts: vec![] })
            .query_codes(vec![QueryCode::Skip(Skip::Vertical(SkipVertical { top: 4, bottom: 1 }))])
    };
    let mut expected = plain();
    expected.decomposition = vec![];
    assert_eq!(complete().build(), Some(expected));
    let mut translations = Translations::new();
    translations.add("en", "book".to_owned());
    let full = complete()
        .grade(Grade::Kyouiku(1))
        .variants(vec![Variant::Nelson(96)])
        .frequency(10)
        .radical_names(vec!["ほん".to_owned()])
        .jlpt(4)
        .references(vec![Reference::Heisig(211)])
        .readings(vec![Reading::Onyomi("ホン".to_owned())])
        .translations(translations.clone())
        .nanori(vec!["まと".to_owned()])
        .decomposition(vec!['木', '一'])
        .build()
        .unwrap();
    assert_eq!(full.grade, Some(Grade::Kyouiku(1)));
    assert_eq!(full.variants, vec![Variant::Nelson(96)]);
    assert_eq!(full.frequency, Some(10));
    assert_eq!(full.radical_names, vec!["ほん".to_owned()]);
    assert_eq!(full.jlpt, Some(4));
    assert_eq!(full.references, vec![Reference::Heisig(211)]);
    assert_eq!(full.readings, vec![Reading::Onyomi("ホン".to_owned())]);
    assert_eq!(full.translations, translations);
    assert_eq!(full.nanori, vec!["まと".to_owned()]);
    assert_eq!(full.decomposition, vec!['木', '一']);
    assert_eq!(
        CharacterBuilder::new()
            .codepoints(vec![])
            .radicals(vec![])
            .stroke_counts(StrokeCount { accepted: 5, miscounts: vec![] })
            .query_codes(vec![])
            .build(),
        None
    );
    assert_eq!(complete().literal('亜').build().unwrap().literal, '亜');
}
