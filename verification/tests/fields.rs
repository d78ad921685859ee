use kanjidic_parser::busy_people::{BusyPeople, BusyPeopleError, Chapter};
use kanjidic_parser::codepoint::{Codepoint, CodepointError};
use kanjidic_parser::de_roo::{DeRoo, DeRooError, ExtremeBottom, ExtremeTop};
use kanjidic_parser::four_corner::{FourCorner, FourCornerError, Stroke};
use kanjidic_parser::grade::{Grade, GradeError};
use kanjidic_parser::kunyomi::{Kunyomi, KunyomiKind};
use kanjidic_parser::kuten::{Kuten, KutenError};
use kanjidic_parser::moro::{Moro, MoroSuffix};
use kanjidic_parser::oneill::{Oneill, OneillParseError, OneillSuffix};
use kanjidic_parser::pin_yin::{PinYin, PinYinParseError, Tone};
use kanjidic_parser::pos_error::PosError;
use kanjidic_parser::query_code::{
    Misclassification, MisclassificationKind, QueryCode, QueryCodeError,
};
use kanjidic_parser::radical::{Radical, RadicalError, RadicalKind};
use kanjidic_parser::reading::Reading;
use kanjidic_parser::reference::{Reference, ReferenceError};
use kanjidic_parser::sh_desc::{ShDesc, ShDescError};
use kanjidic_parser::shared::{
    attr, attr_uint, child, children, children_named, optional_attr, owned_text, text, text_u16,
    text_u8, text_uint, SharedError,
};
use kanjidic_parser::skip::{Skip, SkipError, SkipHorizontal, SkipParseError};
use kanjidic_parser::stroke_count::{StrokeCount, StrokeCountError};
use kanjidic_parser::text::Malformed;
use kanjidic_parser::translation::{Translation, TranslationError, Translations};
use kanjidic_parser::tree::{Attr, Attribute, Node, Position, Tag};
use kanjidic_parser::variant::{Variant, VariantError};

fn node(tag: &str, attributes: &[(&str, &str)], text: Option<&str>, children: Vec<Node>) -> Node {
    Node {
        tag: tag.to_owned(),
        attributes: attributes
            .iter()
            .map(|(name, value)| Attribute { name: name.to_string(), value: value.to_string() })
            .collect(),
        text: text.map(|s| s.to_owned()),
        children,
        position: Position { offset: 35 },
    }
}

fn leaf(tag: &str, attributes: &[(&str, &str)], text: &str) -> Node {
    node(tag, attributes, Some(text), vec![])
}

fn at(tag: Option<Tag>) -> PosError {
    PosError { tag, position: Position { offset: 35 } }
}

#[test]
fn tags_and_their_names() {
    let tags = [
        Tag::Character,
        Tag::Literal,
        Tag::Codepoint,
        Tag::CpValue,
        Tag::Radical,
        Tag::RadValue,
        Tag::Misc,
        Tag::Grade,
        Tag::StrokeCount,
        Tag::Variant,
        Tag::Freq,
        Tag::RadName,
        Tag::Jlpt,
        Tag::DicNumber,
        Tag::DicRef,
        Tag::QueryCode,
        Tag::QCode,
        Tag::ReadingMeaning,
        Tag::Rmgroup,
        Tag::Reading,
        Tag::Meaning,
        Tag::Nanori,
    ];
    for tag in tags {
        assert_eq!(Tag::from_name(tag.name()), Some(tag));
    }
    assert_eq!(Tag::DicRef.name(), "dic_ref");
    assert_eq!(Tag::from_name("header"), None);
    assert_eq!(Tag::from_name(""), None);
    assert_eq!(Attr::SkipMisclass.name(), "skip_misclass");
    assert_eq!(Attr::MLang.name(), "m_lang");
}

#[test]
fn position_of_a_node() {
    assert_eq!(PosError::from(&leaf("grade", &[], "8")), at(Some(Tag::Grade)));
    assert_eq!(PosError::from(&leaf("header", &[], "8")), at(None));
}

#[test]
fn child_is_the_first_of_its_name() {
    let parent = node(
        "misc",
        &[],
        None,
        vec![leaf("grade", &[], "8"), leaf("freq", &[], "1"), leaf("freq", &[], "2")],
    );
    assert_eq!(child(&parent, Tag::Freq), Ok(&parent.children[1]));
    assert_eq!(child(&parent, Tag::Grade), Ok(&parent.children[0]));
    assert_eq!(
        child(&parent, Tag::Jlpt),
        Err(SharedError::MissingChild(at(Some(Tag::Misc)), Tag::Jlpt))
    );
    assert_eq!(children_named(&parent, Tag::Freq), vec![&parent.children[1], &parent.children[2]]);
    assert_eq!(children_named(&parent, Tag::Jlpt), Vec::<&Node>::new());
}

#[test]
fn children_are_decoded_in_order_until_one_fails() {
    let parent = node(
        "misc",
        &[],
        None,
        vec![
            leaf("stroke_count", &[], "7"),
            leaf("freq", &[], "x"),
            leaf("stroke_count", &[], "8"),
            leaf("stroke_count", &[], "6"),
        ],
    );
    assert_eq!(children(&parent, Tag::StrokeCount, text_u8), Ok(vec![7, 8, 6]));
    assert_eq!(children(&parent, Tag::Jlpt, text_u8), Ok(vec![]));
    let parent = node(
        "misc",
        &[],
        None,
        vec![
            leaf("stroke_count", &[], "7"),
            node("stroke_count", &[], None, vec![]),
            leaf("stroke_count", &[], "six"),
        ],
    );
    assert_eq!(
        children(&parent, Tag::StrokeCount, text_u8),
        Err(SharedError::MissingText(at(Some(Tag::StrokeCount))))
    );
}

#[test]
fn text_and_attributes() {
    let n = leaf("dic_ref", &[("dr_type", "moro"), ("m_vol", "1"), ("m_vol", "2")], "272");
    assert_eq!(text(&n), Ok("272"));
    assert_eq!(owned_text(&n), Ok("272".to_owned()));
    assert_eq!(attr(&n, Attr::DrType), Ok("moro"));
    assert_eq!(attr(&n, Attr::MVol), Ok("1"));
    assert_eq!(optional_attr(&n, Attr::MPage), None);
    assert_eq!(
        attr(&n, Attr::MPage),
        Err(SharedError::MissingAttribute(at(Some(Tag::DicRef)), Attr::MPage))
    );
    let empty = node("dic_ref", &[], None, vec![]);
    assert_eq!(text(&empty), Err(SharedError::MissingText(at(Some(Tag::DicRef)))));
    assert_eq!(owned_text(&empty), Err(SharedError::MissingText(at(Some(Tag::DicRef)))));
}

#[test]
fn numbers_in_text_and_attributes() {
    assert_eq!(text_u8(&leaf("jlpt", &[], "1")), Ok(1));
    assert_eq!(text_u8(&leaf("jlpt", &[], "255")), Ok(255));
    assert_eq!(
        text_u8(&leaf("jlpt", &[], "256")),
        Err(SharedError::NotANumber(at(Some(Tag::Jlpt))))
    );
    assert_eq!(text_u16(&leaf("freq", &[], "1509")), Ok(1509));
    assert_eq!(
        text_u16(&leaf("freq", &[], "65536")),
        Err(SharedError::NotANumber(at(Some(Tag::Freq))))
    );
    assert_eq!(
        text_u16(&leaf("freq", &[], "")),
        Err(SharedError::NotANumber(at(Some(Tag::Freq))))
    );
    assert_eq!(
        text_u16(&node("freq", &[], None, vec![])),
        Err(SharedError::MissingText(at(Some(Tag::Freq))))
    );
    assert_eq!(text_uint(&leaf("cp_value", &[], "4e9c"), 16, u32::MAX), Ok(20124));
    let n = leaf("dic_ref", &[("m_vol", "1"), ("m_page", "0525x")], "272");
    assert_eq!(attr_uint(&n, Attr::MVol, 255), Ok(Some(1)));
    assert_eq!(attr_uint(&n, Attr::DrType, 255), Ok(None));
    assert_eq!(
        attr_uint(&n, Attr::MPage, 65535),
        Err(SharedError::NotANumber(at(Some(Tag::DicRef))))
    );
}

#[test]
fn grade_of_each_number() {
    for n in 1..=6u8 {
        assert_eq!(Grade::try_from(&leaf("grade", &[], &n.to_string())), Ok(Grade::Kyouiku(n)));
    }
    assert_eq!(Grade::try_from(&leaf("grade", &[], "8")), Ok(Grade::Jouyou));
    assert_eq!(Grade::try_from(&leaf("grade", &[], "9")), Ok(Grade::Jinmeiyou));
    assert_eq!(Grade::try_from(&leaf("grade", &[], "10")), Ok(Grade::JinmeiyouJouyouVariant));
    for n in [0u8, 7, 11, 12, 100, 255] {
        assert_eq!(
            Grade::try_from(&leaf("grade", &[], &n.to_string())),
            Err(GradeError::Unrecognized)
        );
    }
    for text in ["256", "300", "65536", "4294967296", "99999999999999999999999", "+11", "007", "000"] {
        assert_eq!(Grade::try_from(&leaf("grade", &[], text)), Err(GradeError::Unrecognized));
    }
    assert_eq!(Grade::try_from(&leaf("grade", &[], "+8")), Ok(Grade::Jouyou));
    assert_eq!(Grade::try_from(&leaf("grade", &[], "008")), Ok(Grade::Jouyou));
    assert_eq!(
        Grade::try_from(&leaf("grade", &[], "0000000000000000000000010")),
        Ok(Grade::JinmeiyouJouyouVariant)
    );
    for text in ["", "x", "one", "8 ", " 8", "-1", "1.5", "+", "8x", "300x", "3 00", "８"] {
        assert_eq!(Grade::try_from(&leaf("grade", &[], text)), Err(GradeError::Digit));
    }
    assert_eq!(Grade::try_from(&node("grade", &[], None, vec![])), Err(GradeError::NoText));
}

#[test]
fn radical_of_a_scheme() {
    assert_eq!(
        kanjidic_parser::radical::from(&leaf("rad_value", &[("rad_type", "classical")], "7")),
        Ok(Radical { kind: RadicalKind::Classical, radical: 7 })
    );
    assert_eq!(
        kanjidic_parser::radical::from(&leaf("rad_value", &[("rad_type", "nelson_c")], "214")),
        Ok(Radical { kind: RadicalKind::Nelson, radical: 214 })
    );
    let here = at(Some(Tag::RadValue));
    assert_eq!(
        kanjidic_parser::radical::from(&leaf("rad_value", &[("rad_type", "classical")], "0")),
        Err(RadicalError::OutOfRange(here))
    );
    for text in ["215", "255", "256", "300", "99999999999999999999999"] {
        assert_eq!(
            kanjidic_parser::radical::from(&leaf("rad_value", &[("rad_type", "classical")], text)),
            Err(RadicalError::OutOfRange(here))
        );
    }
    assert_eq!(
        kanjidic_parser::radical::from(&leaf("rad_value", &[("rad_type", "classical")], "0214")),
        Ok(Radical { kind: RadicalKind::Classical, radical: 214 })
    );
    assert_eq!(
        kanjidic_parser::radical::from(&node("rad_value", &[("rad_type", "classical")], None, vec![])),
        Err(RadicalError::Shared(SharedError::MissingText(here)))
    );
    for text in ["", "7x", "-7", "seven"] {
        assert_eq!(
            kanjidic_parser::radical::from(&leaf("rad_value", &[("rad_type", "classical")], text)),
            Err(RadicalError::Shared(SharedError::NotANumber(here)))
        );
    }
    assert_eq!(
        kanjidic_parser::radical::from(&leaf("rad_value", &[("rad_type", "kangxi")], "7")),
        Err(RadicalError::Kind(here))
    );
    assert_eq!(
        kanjidic_parser::radical::from(&leaf("rad_value", &[], "7")),
        Err(RadicalError::Shared(SharedError::MissingAttribute(here, Attr::RadType)))
    );
    assert_eq!(
        kanjidic_parser::radical::from(&leaf("rad_value", &[("rad_type", "classical")], "x")),
        Err(RadicalError::Shared(SharedError::NotANumber(here)))
    );
}

#[test]
fn codepoint_of_an_encoding() {
    let from = kanjidic_parser::codepoint::from;
    let kuten = Kuten { plane: 1, ku: 16, ten: 1 };
    assert_eq!(from(&leaf("cp_value", &[("cp_type", "ucs")], "4e9c")), Ok(Codepoint::Unicode(20124)));
    assert_eq!(from(&leaf("cp_value", &[("cp_type", "jis208")], "1-16-01")), Ok(Codepoint::Jis208(kuten)));
    assert_eq!(from(&leaf("cp_value", &[("cp_type", "jis212")], "1-16-01")), Ok(Codepoint::Jis212(kuten)));
    assert_eq!(from(&leaf("cp_value", &[("cp_type", "jis213")], "1-16-01")), Ok(Codepoint::Jis213(kuten)));
    let here = at(Some(Tag::CpValue));
    assert_eq!(
        from(&leaf("cp_value", &[("cp_type", "big5")], "4e9c")),
        Err(CodepointError::Encoding(here))
    );
    assert_eq!(
        from(&leaf("cp_value", &[("cp_type", "ucs")], "4e9g")),
        Err(CodepointError::Shared(SharedError::NotANumber(here)))
    );
    assert_eq!(
        from(&leaf("cp_value", &[("cp_type", "jis208")], "16-01")),
        Err(CodepointError::Kuten(KutenError::Format(here, Malformed::MissingDelimiter)))
    );
    assert_eq!(
        from(&node("cp_value", &[("cp_type", "jis208")], None, vec![])),
        Err(CodepointError::Kuten(KutenError::Shared(SharedError::MissingText(here))))
    );
    assert_eq!(
        from(&leaf("cp_value", &[], "4e9c")),
        Err(CodepointError::Shared(SharedError::MissingAttribute(here, Attr::CpType)))
    );
}

#[test]
fn stroke_counts_and_miscounts() {
    let from = kanjidic_parser::stroke_count::from;
    let misc = node(
        "misc",
        &[],
        None,
        vec![
            leaf("grade", &[], "8"),
            leaf("stroke_count", &[], "7"),
            leaf("stroke_count", &[], "8"),
            leaf("stroke_count", &[], "6"),
        ],
    );
    assert_eq!(from(&misc), Ok(StrokeCount { accepted: 7, miscounts: vec![8, 6] }));
    let misc = node("misc", &[], None, vec![leaf("stroke_count", &[], "7")]);
    assert_eq!(from(&misc), Ok(StrokeCount { accepted: 7, miscounts: vec![] }));
    let misc = node("misc", &[], None, vec![leaf("grade", &[], "8")]);
    assert_eq!(from(&misc), Err(StrokeCountError::NoStrokeCount(at(Some(Tag::Misc)))));
}

#[test]
fn malformed_stroke_count_is_an_error() {
    let from = kanjidic_parser::stroke_count::from;
    let here = at(Some(Tag::StrokeCount));
    for text in ["seven", "", "7a", "256", "-7"] {
        let misc = node("misc", &[], None, vec![leaf("stroke_count", &[], text)]);
        assert_eq!(from(&misc), Err(StrokeCountError::Shared(SharedError::NotANumber(here))));
    }
    let misc = node(
        "misc",
        &[],
        None,
        vec![leaf("stroke_count", &[], "7"), leaf("stroke_count", &[], "x")],
    );
    assert_eq!(from(&misc), Err(StrokeCountError::Shared(SharedError::NotANumber(here))));
    let misc = node("misc", &[], None, vec![node("stroke_count", &[], None, vec![])]);
    assert_eq!(from(&misc), Err(StrokeCountError::Shared(SharedError::MissingText(here))));
}

#[test]
fn variant_of_each_kind() {
    let from = kanjidic_parser::variant::from;
    let v = |kind: &str, text: &str| from(&leaf("variant", &[("var_type", kind)], text));
    let kuten = Kuten { plane: 1, ku: 48, ten: 19 };
    assert_eq!(v("jis208", "1-48-19"), Ok(Variant::Jis208(kuten)));
    assert_eq!(v("jis212", "1-48-19"), Ok(Variant::Jis212(kuten)));
    assert_eq!(v("jis213", "1-48-19"), Ok(Variant::Jis213(kuten)));
    assert_eq!(v("ucs", "5516"), Ok(Variant::Unicode(0x5516)));
    assert_eq!(
        v("deroo", "3273"),
        Ok(Variant::DeRoo(DeRoo { top: ExtremeTop::Bald, bottom: ExtremeBottom::StandingBottom }))
    );
    assert_eq!(v("njecd", "2204"), Ok(Variant::Halpern(2204)));
    assert_eq!(
        v("s_h", "2k4.2"),
        Ok(Variant::SpahnHadamitzky(ShDesc {
            radical_strokes: 2,
            radical: 'k',
            other_strokes: 4,
            sequence: 2
        }))
    );
    assert_eq!(v("nelson_c", "43"), Ok(Variant::Nelson(43)));
    assert_eq!(
        v("oneill", "525A"),
        Ok(Variant::ONeill(Oneill { number: 525, suffix: Some(OneillSuffix::A) }))
    );
    let here = at(Some(Tag::Variant));
    assert_eq!(v("other", "1"), Err(VariantError::UnknownVariant(here)));
    assert_eq!(
        v("jis208", "x"),
        Err(VariantError::Kuten(KutenError::Format(here, Malformed::MissingNumber)))
    );
    assert_eq!(v("deroo", "12"), Err(VariantError::DeRoo(DeRooError::Length(here))));
    assert_eq!(
        v("s_h", "2k4"),
        Err(VariantError::ShDesc(ShDescError::Format(here, Malformed::MissingDelimiter)))
    );
    assert_eq!(v("oneill", "525B"), Err(VariantError::Oneill(here, OneillParseError::UnknownSuffix)));
    assert_eq!(v("njecd", "x"), Err(VariantError::Shared(SharedError::NotANumber(here))));
    assert_eq!(
        from(&leaf("variant", &[], "1")),
        Err(VariantError::Shared(SharedError::MissingAttribute(here, Attr::VarType)))
    );
    assert_eq!(
        from(&node("variant", &[("var_type", "oneill")], None, vec![])),
        Err(VariantError::Shared(SharedError::MissingText(here)))
    );
}

#[test]
fn reference_to_each_book() {
    let from = kanjidic_parser::reference::from;
    let r = |book: &str, text: &str| from(&leaf("dic_ref", &[("dr_type", book)], text));
    assert_eq!(r("nelson_c", "43"), Ok(Reference::NelsonClassic(43)));
    assert_eq!(r("nelson_n", "81"), Ok(Reference::NelsonNew(81)));
    assert_eq!(r("halpern_njecd", "3540"), Ok(Reference::Njecd(3540)));
    assert_eq!(r("halpern_kkd", "4354"), Ok(Reference::Kkd(4354)));
    assert_eq!(r("halpern_kkld", "2204"), Ok(Reference::Kkld(2204)));
    assert_eq!(r("halpern_kkld_2ed", "2966"), Ok(Reference::Kkld2ed(2966)));
    assert_eq!(r("heisig", "1809"), Ok(Reference::Heisig(1809)));
    assert_eq!(r("heisig6", "1950"), Ok(Reference::Heisig6(1950)));
    assert_eq!(r("gakken", "1331"), Ok(Reference::Gakken(1331)));
    assert_eq!(
        r("oneill_names", "525A"),
        Ok(Reference::OneillNames(Oneill { number: 525, suffix: Some(OneillSuffix::A) }))
    );
    assert_eq!(r("oneill_kk", "1788"), Ok(Reference::OneillKk(1788)));
    assert_eq!(r("henshall", "997"), Ok(Reference::Henshall(997)));
    assert_eq!(r("sh_kk", "1616"), Ok(Reference::ShKk(1616)));
    assert_eq!(r("sh_kk2", "1724"), Ok(Reference::ShKk2(1724)));
    assert_eq!(r("sakade", "7"), Ok(Reference::Sakade(7)));
    assert_eq!(r("jf_cards", "1032"), Ok(Reference::Jfcards(1032)));
    assert_eq!(r("henshall3", "8"), Ok(Reference::Henshall3(8)));
    assert_eq!(r("tutt_cards", "1092"), Ok(Reference::TuttleCards(1092)));
    assert_eq!(r("crowley", "9"), Ok(Reference::Crowley(9)));
    assert_eq!(r("kanji_in_context", "1818"), Ok(Reference::KanjiInContext(1818)));
    assert_eq!(
        r("busy_people", "3.A"),
        Ok(Reference::BusyPeople(BusyPeople { volume: 3, chapter: Chapter::A }))
    );
    assert_eq!(r("kodansha_compact", "35"), Ok(Reference::KodanshaCompact(35)));
    assert_eq!(r("maniette", "1827"), Ok(Reference::Maniette(1827)));
    assert_eq!(
        r("moro", "272PX"),
        Ok(Reference::Moro(Moro {
            volume: None,
            page: None,
            index: 272,
            suffix: Some(MoroSuffix::PX)
        }))
    );
}

#[test]
fn reference_errors() {
    let from = kanjidic_parser::reference::from;
    let r = |book: &str, text: &str| from(&leaf("dic_ref", &[("dr_type", book)], text));
    let here = at(Some(Tag::DicRef));
    assert_eq!(r("unknown", "1"), Err(ReferenceError::UnknownReference(here)));
    assert_eq!(r("nelson_c", "x"), Err(ReferenceError::Shared(SharedError::NotANumber(here))));
    assert_eq!(r("nelson_c", "65536"), Err(ReferenceError::Shared(SharedError::NotANumber(here))));
    assert_eq!(
        r("oneill_names", "B"),
        Err(ReferenceError::Oneill(here, OneillParseError::Format(Malformed::MissingNumber)))
    );
    assert_eq!(
        r("busy_people", "3"),
        Err(ReferenceError::BusyPeople(BusyPeopleError::Format(here, Malformed::MissingDelimiter)))
    );
    assert_eq!(r("moro", "272Q"), Err(ReferenceError::Moro(kanjidic_parser::moro::Error::IndexSuffix)));
    assert_eq!(
        from(&leaf("dic_ref", &[], "1")),
        Err(ReferenceError::Shared(SharedError::MissingAttribute(here, Attr::DrType)))
    );
}

#[test]
fn moro_entry_with_volume_and_page() {
    let from = kanjidic_parser::moro::from;
    let here = at(Some(Tag::DicRef));
    assert_eq!(
        from(&leaf("dic_ref", &[("m_page", "0525")], "272X")),
        Ok(Moro { volume: None, page: Some(525), index: 272, suffix: Some(MoroSuffix::X) })
    );
    assert_eq!(
        from(&leaf("dic_ref", &[("m_vol", "13")], "48902")),
        Ok(Moro { volume: Some(13), page: None, index: 48902, suffix: None })
    );
    assert_eq!(
        from(&leaf("dic_ref", &[], "x")),
        Err(kanjidic_parser::moro::Error::Format(here, Malformed::MissingNumber))
    );
    assert_eq!(from(&leaf("dic_ref", &[], "1Z")), Err(kanjidic_parser::moro::Error::IndexSuffix));
    assert_eq!(
        from(&leaf("dic_ref", &[("m_vol", "256")], "1")),
        Err(kanjidic_parser::moro::Error::Shared(SharedError::NotANumber(here)))
    );
    assert_eq!(
        from(&leaf("dic_ref", &[("m_page", "p5")], "1")),
        Err(kanjidic_parser::moro::Error::Shared(SharedError::NotANumber(here)))
    );
    assert_eq!(
        from(&node("dic_ref", &[], None, vec![])),
        Err(kanjidic_parser::moro::Error::Shared(SharedError::MissingText(here)))
    );
}

#[test]
fn query_code_of_each_kind() {
    let from = kanjidic_parser::query_code::from;
    let skip = Skip::Horizontal(SkipHorizontal { left: 4, right: 3 });
    assert_eq!(from(&leaf("q_code", &[("qc_type", "skip")], "1-4-3")), Ok(QueryCode::Skip(skip)));
    for (name, kind) in [
        ("posn", MisclassificationKind::Position),
        ("stroke_count", MisclassificationKind::StrokeCount),
        ("stroke_and_posn", MisclassificationKind::StrokeAndPosition),
        ("stroke_diff", MisclassificationKind::StrokeDifference),
    ] {
        assert_eq!(
            from(&leaf("q_code", &[("qc_type", "skip"), ("skip_misclass", name)], "1-4-3")),
            Ok(QueryCode::Misclassification(Misclassification { kind, skip }))
        );
    }
    assert_eq!(
        from(&leaf("q_code", &[("qc_type", "deroo")], "3273")),
        Ok(QueryCode::DeRoo(DeRoo { top: ExtremeTop::Bald, bottom: ExtremeBottom::StandingBottom }))
    );
    let here = at(Some(Tag::QCode));
    assert_eq!(
        from(&leaf("q_code", &[("qc_type", "skip"), ("skip_misclass", "other")], "1-4-3")),
        Err(QueryCodeError::UnknownMisclassification(here))
    );
    assert_eq!(
        from(&leaf("q_code", &[("qc_type", "skip")], "9-4-3")),
        Err(QueryCodeError::Skip(SkipError::Parse(here, SkipParseError::Pattern)))
    );
    assert_eq!(
        from(&leaf("q_code", &[("qc_type", "four_corner")], "12")),
        Err(QueryCodeError::FourCorner(FourCornerError::Format(here, Malformed::MissingSymbol)))
    );
    assert_eq!(
        from(&leaf("q_code", &[("qc_type", "sh_desc")], "x")),
        Err(QueryCodeError::ShDesc(ShDescError::Format(here, Malformed::MissingNumber)))
    );
    assert_eq!(
        from(&leaf("q_code", &[("qc_type", "deroo")], "0173")),
        Err(QueryCodeError::DeRoo(DeRooError::Top(here)))
    );
    assert_eq!(
        from(&leaf("q_code", &[("qc_type", "deroo")], "3239")),
        Err(QueryCodeError::DeRoo(DeRooError::Bottom(here)))
    );
    assert_eq!(
        from(&leaf("q_code", &[("qc_type", "deroo")], "x")),
        Err(QueryCodeError::DeRoo(DeRooError::Format(here, Malformed::MissingNumber)))
    );
    assert_eq!(
        from(&node("q_code", &[("qc_type", "deroo")], None, vec![])),
        Err(QueryCodeError::DeRoo(DeRooError::Shared(SharedError::MissingText(here))))
    );
    assert_eq!(
        from(&leaf("q_code", &[("qc_type", "cangjie")], "x")),
        Err(QueryCodeError::UnknownType(here))
    );
    assert_eq!(
        from(&leaf("q_code", &[], "1-4-3")),
        Err(QueryCodeError::Shared(SharedError::MissingAttribute(here, Attr::QcType)))
    );
}

#[test]
fn reading_of_each_kind() {
    let from = kanjidic_parser::reading::from;
    let r = |kind: &str, text: &str| from(&leaf("reading", &[("r_type", kind)], text));
    assert_eq!(r("korean_r", "a"), Ok(Reading::KoreanRomanized("a".to_owned())));
    assert_eq!(r("korean_h", "아"), Ok(Reading::KoreanHangul("아".to_owned())));
    assert_eq!(r("vietnam", "Á"), Ok(Reading::Vietnam("Á".to_owned())));
    assert_eq!(r("ja_on", "ア"), Ok(Reading::Onyomi("ア".to_owned())));
    assert_eq!(
        r("ja_kun", "-あ.がり"),
        Ok(Reading::Kunyomi(Kunyomi {
            kind: KunyomiKind::Suffix,
            okurigana: vec!["あ".to_owned(), "がり".to_owned()]
        }))
    );
    let here = at(Some(Tag::Reading));
    assert_eq!(r("ja_nanori", "a"), Err(kanjidic_parser::reading::Error::UnrecognizedType(here)));
    assert_eq!(
        r("pinyin", "ya"),
        Err(kanjidic_parser::reading::Error::PinYin(kanjidic_parser::pin_yin::Error::Parse(
            here,
            PinYinParseError::MissingTone
        )))
    );
    assert_eq!(
        from(&node("reading", &[("r_type", "pinyin")], None, vec![])),
        Err(kanjidic_parser::reading::Error::PinYin(kanjidic_parser::pin_yin::Error::Shared(
            SharedError::MissingText(here)
        )))
    );
    assert_eq!(
        from(&node("reading", &[("r_type", "ja_kun")], None, vec![])),
        Err(kanjidic_parser::reading::Error::Kunyomi(kanjidic_parser::kunyomi::Error::Shared(
            SharedError::MissingText(here)
        )))
    );
    assert_eq!(
        from(&node("reading", &[("r_type", "ja_on")], None, vec![])),
        Err(kanjidic_parser::reading::Error::Shared(SharedError::MissingText(here)))
    );
    assert_eq!(
        from(&leaf("reading", &[], "a")),
        Err(kanjidic_parser::reading::Error::Shared(SharedError::MissingAttribute(
            here,
            Attr::RType
        )))
    );
}

#[test]
fn gloss_with_its_language() {
    assert_eq!(
        Translation::try_from(&leaf("meaning", &[], "Asia")),
        Ok(Translation { text: "Asia".to_owned(), language: "en".to_owned() })
    );
    assert_eq!(
        Translation::try_from(&leaf("meaning", &[("m_lang", "fr")], "Asie")),
        Ok(Translation { text: "Asie".to_owned(), language: "fr".to_owned() })
    );
    assert_eq!(
        Translation::try_from(&node("meaning", &[("m_lang", "fr")], None, vec![])),
        Err(TranslationError::Shared(SharedError::MissingText(at(Some(Tag::Meaning)))))
    );
}

#[test]
fn glosses_are_gathered_by_language() {
    let rmgroup = node(
        "rmgroup",
        &[],
        None,
        vec![
            leaf("meaning", &[], "Asia"),
            leaf("meaning", &[("m_lang", "fr")], "Asie"),
            leaf("reading", &[("r_type", "ja_on")], "ア"),
            leaf("meaning", &[("m_lang", "en")], "rank next"),
            leaf("meaning", &[("m_lang", "fr")], "suivant"),
        ],
    );
    let found = kanjidic_parser::translation::from(&rmgroup).unwrap();
    assert_eq!(found.len(), 2);
    assert_eq!(found.languages(), vec!["en".to_owned(), "fr".to_owned()]);
    assert_eq!(found.get("en"), Some(&vec!["Asia".to_owned(), "rank next".to_owned()]));
    assert_eq!(found.get("fr"), Some(&vec!["Asie".to_owned(), "suivant".to_owned()]));
    assert_eq!(found.get("es"), None);
    let empty = node("rmgroup", &[], None, vec![]);
    assert_eq!(kanjidic_parser::translation::from(&empty), Ok(Translations::new()));
    let broken = node(
        "rmgroup",
        &[],
        None,
        vec![leaf("meaning", &[], "Asia"), node("meaning", &[], None, vec![])],
    );
    assert_eq!(
        kanjidic_parser::translation::from(&broken),
        Err(TranslationError::Shared(SharedError::MissingText(at(Some(Tag::Meaning)))))
    );
}

#[test]
fn translations_are_equal_whatever_the_order_of_languages() {
    let mut a = Translations::new();
    a.add("en", "Asia".to_owned());
    a.add("fr", "Asie".to_owned());
    a.add("en", "rank next".to_owned());
    let mut b = Translations::new();
    b.add("fr", "Asie".to_owned());
    b.add("en", "Asia".to_owned());
    b.add("en", "rank next".to_owned());
    assert_eq!(a, b);
    assert_eq!(a.clone(), a);
    assert_eq!(Translations::default(), Translations::new());
    assert_ne!(Translations::default(), a);
    let mut c = Translations::new();
    c.add("fr", "Asie".to_owned());
    c.add("en", "rank next".to_owned());
    c.add("en", "Asia".to_owned());
    assert_ne!(a, c);
    let mut d = Translations::new();
    d.add("en", "Asia".to_owned());
    d.add("en", "rank next".to_owned());
    assert_ne!(a, d);
    assert_ne!(d, a);
    d.add("es", "Asie".to_owned());
    assert_ne!(a, d);
    assert_eq!(
        Translations::gather(&vec![
            Translation { text: "Asia".to_owned(), language: "en".to_owned() },
            Translation { text: "Asie".to_owned(), language: "fr".to_owned() },
            Translation { text: "rank next".to_owned(), language: "en".to_owned() },
        ]),
        a
    );
}

#[test]
fn codes_are_the_text_of_their_node() {
    let here = at(Some(Tag::QCode));
    let empty = || node("q_code", &[], None, vec![]);
    assert_eq!(
        kanjidic_parser::kuten::from(&leaf("q_code", &[], "1-16-01")),
        Ok(Kuten { plane: 1, ku: 16, ten: 1 })
    );
    assert_eq!(
        kanjidic_parser::kuten::from(&empty()),
        Err(KutenError::Shared(SharedError::MissingText(here)))
    );
    assert_eq!(
        kanjidic_parser::kuten::from(&leaf("q_code", &[], "1-999-1")),
        Err(KutenError::Format(here, Malformed::NumberTooLarge))
    );
    assert_eq!(
        kanjidic_parser::skip::from(&leaf("q_code", &[], "1-4-3")),
        Ok(Skip::Horizontal(SkipHorizontal { left: 4, right: 3 }))
    );
    assert_eq!(
        kanjidic_parser::skip::from(&empty()),
        Err(SkipError::Shared(SharedError::MissingText(here)))
    );
    assert_eq!(
        kanjidic_parser::skip::from(&leaf("q_code", &[], "4-1-9")),
        Err(SkipError::Parse(here, SkipParseError::SolidSubpattern))
    );
    assert_eq!(
        kanjidic_parser::four_corner::from(&leaf("q_code", &[], "3333")),
        Ok(FourCorner {
            top_left: Stroke::Dot,
            top_right: Stroke::Dot,
            bottom_left: Stroke::Dot,
            bottom_right: Stroke::Dot,
            fifth_corner: None
        })
    );
    assert_eq!(
        kanjidic_parser::four_corner::from(&empty()),
        Err(FourCornerError::Shared(SharedError::MissingText(here)))
    );
    assert_eq!(
        kanjidic_parser::sh_desc::from(&leaf("q_code", &[], "3k10.12")),
        Ok(ShDesc { radical_strokes: 3, radical: 'k', other_strokes: 10, sequence: 12 })
    );
    assert_eq!(
        kanjidic_parser::sh_desc::from(&empty()),
        Err(ShDescError::Shared(SharedError::MissingText(here)))
    );
    assert_eq!(
        kanjidic_parser::busy_people::from(&leaf("q_code", &[], "1.7")),
        Ok(BusyPeople { volume: 1, chapter: Chapter::Chapter(7) })
    );
    assert_eq!(
        kanjidic_parser::busy_people::from(&empty()),
        Err(BusyPeopleError::Shared(SharedError::MissingText(here)))
    );
    assert_eq!(
        kanjidic_parser::de_roo::from(&leaf("q_code", &[], "3273")),
        Ok(DeRoo { top: ExtremeTop::Bald, bottom: ExtremeBottom::StandingBottom })
    );
    assert_eq!(
        kanjidic_parser::pin_yin::from(&leaf("q_code", &[], "ya4")),
        Ok(PinYin { romanization: "ya".to_owned(), tone: Tone::Falling })
    );
    assert_eq!(
        kanjidic_parser::pin_yin::from(&leaf("q_code", &[], "ya9")),
        Err(kanjidic_parser::pin_yin::Error::Parse(here, PinYinParseError::UnknownTone))
    );
    assert_eq!(
        kanjidic_parser::kunyomi::from(&leaf("q_code", &[], "お-")),
        Ok(Kunyomi { kind: KunyomiKind::Prefix, okurigana: vec!["お".to_owned()] })
    );
}
