use kanjidic_parser::character::{from, Character};
use kanjidic_parser::codepoint::Codepoint;
use kanjidic_parser::de_roo::{DeRoo, ExtremeBottom, ExtremeTop};
use kanjidic_parser::four_corner::{FourCorner, Stroke};
use kanjidic_parser::grade::Grade;
use kanjidic_parser::kunyomi::{Kunyomi, KunyomiKind};
use kanjidic_parser::kuten::Kuten;
use kanjidic_parser::meaning::Meaning;
use kanjidic_parser::moro::Moro;
use kanjidic_parser::oneill::Oneill;
use kanjidic_parser::pin_yin::{PinYin, Tone};
use kanjidic_parser::query_code::QueryCode;
use kanjidic_parser::radical::{Radical, RadicalKind};
use kanjidic_parser::reading::Reading;
use kanjidic_parser::reference::Reference;
use kanjidic_parser::sh_desc::ShDesc;
use kanjidic_parser::skip::{Skip, SkipSolid, SolidSubpattern};
use kanjidic_parser::stroke_count::StrokeCount;
use kanjidic_parser::translation::{Translation, Translations};
use kanjidic_parser::tree::{Attribute, Node, Position};
use kanjidic_parser::variant::Variant;

const DOC: &str = r#"<?xml version="1.0" encoding="UTF-8"?>
<kanjidic2>
<header>
<file_version>4</file_version>
<database_version>2021-115</database_version>
<date_of_creation>2021-04-25</date_of_creation>
</header>
<character>
<literal>亜</literal>
<codepoint>
<cp_value cp_type="ucs">4e9c</cp_value>
<cp_value cp_type="jis208">1-16-01</cp_value>
</codepoint>
<radical>
<rad_value rad_type="classical">2</rad_value>
<rad_value rad_type="nelson_c">1</rad_value>
</radical>
<misc>
<grade>8</grade>
<stroke_count>7</stroke_count>
<variant var_type="jis208">1-48-19</variant>
<freq>1509</freq>
<jlpt>1</jlpt>
</misc>
<dic_number>
<dic_ref dr_type="nelson_c">43</dic_ref>
<dic_ref dr_type="nelson_n">81</dic_ref>
<dic_ref dr_type="halpern_njecd">3540</dic_ref>
<dic_ref dr_type="halpern_kkd">4354</dic_ref>
<dic_ref dr_type="halpern_kkld">2204</dic_ref>
<dic_ref dr_type="halpern_kkld_2ed">2966</dic_ref>
<dic_ref dr_type="heisig">1809</dic_ref>
<dic_ref dr_type="heisig6">1950</dic_ref>
<dic_ref dr_type="gakken">1331</dic_ref>
<dic_ref dr_type="oneill_names">525</dic_ref>
<dic_ref dr_type="oneill_kk">1788</dic_ref>
<dic_ref dr_type="moro" m_vol="1" m_page="0525">272</dic_ref>
<dic_ref dr_type="henshall">997</dic_ref>
<dic_ref dr_type="sh_kk">1616</dic_ref>
<dic_ref dr_type="sh_kk2">1724</dic_ref>
<dic_ref dr_type="jf_cards">1032</dic_ref>
<dic_ref dr_type="tutt_cards">1092</dic_ref>
<dic_ref dr_type="kanji_in_context">1818</dic_ref>
<dic_ref dr_type="kodansha_compact">35</dic_ref>
<dic_ref dr_type="maniette">1827</dic_ref>
</dic_number>
<query_code>
<q_code qc_type="skip">4-7-1</q_code>
<q_code qc_type="sh_desc">0a7.14</q_code>
<q_code qc_type="four_corner">1010.6</q_code>
<q_code qc_type="deroo">3273</q_code>
</query_code>
<reading_meaning>
<rmgroup>
<reading r_type="pinyin">ya4</reading>
<reading r_type="korean_r">a</reading>
<reading r_type="korean_h">아</reading>
<reading r_type="vietnam">A</reading>
<reading r_type="vietnam">Á</reading>
<reading r_type="ja_on">ア</reading>
<reading r_type="ja_kun">つ.ぐ</reading>
<meaning>Asia</meaning>
<meaning>rank next</meaning>
<meaning>come after</meaning>
<meaning>-ous</meaning>
<meaning m_lang="fr">Asie</meaning>
<meaning m_lang="fr">suivant</meaning>
<meaning m_lang="fr">sub-</meaning>
<meaning m_lang="fr">sous-</meaning>
<meaning m_lang="es">pref. para indicar</meaning>
<meaning m_lang="es">venir después de</meaning>
<meaning m_lang="es">Asia</meaning>
<meaning m_lang="pt">Ásia</meaning>
<meaning m_lang="pt">próxima</meaning>
<meaning m_lang="pt">o que vem depois</meaning>
<meaning m_lang="pt">-ous</meaning>
</rmgroup>
<nanori>や</nanori>
<nanori>つぎ</nanori>
<nanori>つぐ</nanori>
</reading_meaning>
</character>
</kanjidic2>
"#;

fn convert(node: roxmltree::Node) -> Node {
    Node {
        tag: node.tag_name().name().to_owned(),
        attributes: node
            .attributes()
            .map(|a| Attribute { name: a.name().to_owned(), value: a.value().to_owned() })
            .collect(),
        text: node.text().map(|s| s.to_owned()),
        children: node.children().filter(|c| c.is_element()).map(convert).collect(),
        position: Position { offset: node.range().start },
    }
}

fn first(tag: &str) -> Node {
    let doc = roxmltree::Document::parse(DOC).unwrap();
    let node = doc.descendants().find(|node| node.has_tag_name(tag)).unwrap();
    convert(node)
}

fn translations(entries: Vec<(String, Vec<String>)>) -> Translations {
    let mut out = Translations::new();
    for (language, glosses) in entries {
        for gloss in glosses {
            out.add(&language, gloss);
        }
    }
    out
}

fn gloss(text: &str, language: &str) -> Translation {
    Translation { text: text.to_owned(), language: language.to_owned() }
}

#[test]
fn character() {
    let node = first("character");
    let character = from(&node);
    assert_eq!(
        character,
        Ok(Character {
            literal: '亜',
            decomposition: vec!['｜', '一', '口'],
            codepoints: vec![
                Codepoint::Unicode(20124),
                Codepoint::Jis208(Kuten { plane: 1, ku: 16, ten: 1 })
            ],
            radicals: vec![
                Radical { kind: RadicalKind::Classical, radical: 2 },
                Radical { kind: RadicalKind::Nelson, radical: 1 },
            ],
            grade: Some(Grade::Jouyou),
            stroke_counts: StrokeCount { accepted: 7, miscounts: vec![] },
            variants: vec![Variant::Jis208(Kuten { plane: 1, ku: 48, ten: 19 })],
            frequency: Some(1509),
            jlpt: Some(1),
            references: vec![
                Reference::NelsonClassic(43),
                Reference::NelsonNew(81),
                Reference::Njecd(3540),
                Reference::Kkd(4354),
                Reference::Kkld(2204),
                Reference::Kkld2ed(2966),
                Reference::Heisig(1809),
                Reference::Heisig6(1950),
                Reference::Gakken(1331),
                Reference::OneillNames(Oneill { number: 525, suffix: None }),
                Reference::OneillKk(1788),
                Reference::Moro(Moro {
                    volume: Some(1),
                    page: Some(525),
                    index: 272,
                    suffix: None,
                }),
                Reference::Henshall(997),
                Reference::ShKk(1616),
                Reference::ShKk2(1724),
                Reference::Jfcards(1032),
                Reference::TuttleCards(1092),
                Reference::KanjiInContext(1818),
                Reference::KodanshaCompact(35),
                Reference::Maniette(1827),
            ],
            query_codes: vec![
                QueryCode::Skip(Skip::Solid(SkipSolid {
                    total_stroke_count: 7,
                    solid_subpattern: SolidSubpattern::TopLine,
                })),
                QueryCode::SpahnHadamitzky(ShDesc {
                    radical_strokes: 0,
                    radical: 'a',
                    other_strokes: 7,
                    sequence: 14,
                }),
                QueryCode::FourCorner(FourCorner {
                    top_left: Stroke::LineHorizontal,
                    top_right: Stroke::Lid,
                    bottom_left: Stroke::LineHorizontal,
                    bottom_right: Stroke::Lid,
                    fifth_corner: Some(Stroke::Box),
                }),
                QueryCode::DeRoo(DeRoo {
                    top: ExtremeTop::Bald,
                    bottom: ExtremeBottom::StandingBottom,
                }),
            ],
            radical_names: vec![],
            nanori: vec!["や".into(), "つぎ".into(), "つぐ".into(),],
            readings: vec![
                Reading::PinYin(PinYin { romanization: "ya".into(), tone: Tone::Falling }),
                Reading::KoreanRomanized("a".into()),
                Reading::KoreanHangul("아".into()),
                Reading::Vietnam("A".into()),
                Reading::Vietnam("Á".into()),
                Reading::Onyomi("ア".into()),
                Reading::Kunyomi(Kunyomi {
                    kind: KunyomiKind::Normal,
                    okurigana: vec!["つ".into(), "ぐ".into(),]
                })
            ],
            translations: translations(vec![
                (
                    "en".to_owned(),
                    vec![
                        "Asia".to_owned(),
                        "rank next".to_owned(),
                        "come after".to_owned(),
                        "-ous".to_owned(),
                    ]
                ),
                (
                    "fr".to_owned(),
                    vec![
                        "Asie".to_owned(),
                        "suivant".to_owned(),
                        "sub-".to_owned(),
                        "sous-".to_owned(),
                    ]
                ),
                (
                    "pt".to_owned(),
                    vec![
                        "Ásia".to_owned(),
                        "próxima".to_owned(),
                        "o que vem depois".to_owned(),
                        "-ous".to_owned(),
                    ]
                ),
                (
                    "es".to_owned(),
                    vec![
                        "pref. para indicar".to_owned(),
                        "venir después de".to_owned(),
                        "Asia".to_owned(),
                    ]
                )
            ])
        })
    )
}

#[test]
fn four_corner() {
    let node = first("grade");
    let grade = Grade::try_from(&node);
    assert_eq!(grade, Ok(Grade::Jouyou))
}

#[test]
fn meaning() {
    let node = first("reading_meaning");
    let meaning = Meaning::try_from(&node);
    assert_eq!(
        meaning,
        Ok(Meaning {
            nanori: vec!["や".to_owned(), "つぎ".to_owned(), "つぐ".to_owned(),],
            readings: vec![
                Reading::PinYin(PinYin { romanization: "ya".to_string(), tone: Tone::Falling }),
                Reading::KoreanRomanized("a".to_owned()),
                Reading::KoreanHangul("아".to_owned()),
                Reading::Vietnam("A".to_owned()),
                Reading::Vietnam("Á".to_owned()),
                Reading::Onyomi("ア".to_owned()),
                Reading::Kunyomi(Kunyomi {
                    kind: KunyomiKind::Normal,
                    okurigana: vec!["つ".to_owned(), "ぐ".to_owned(),]
                })
            ],
            translations: vec![
                gloss("Asia", "en"),
                gloss("rank next", "en"),
                gloss("come after", "en"),
                gloss("-ous", "en"),
                gloss("Asie", "fr"),
                gloss("suivant", "fr"),
                gloss("sub-", "fr"),
                gloss("sous-", "fr"),
                gloss("pref. para indicar", "es"),
                gloss("venir después de", "es"),
                gloss("Asia", "es"),
                gloss("Ásia", "pt"),
                gloss("próxima", "pt"),
                gloss("o que vem depois", "pt"),
                gloss("-ous", "pt"),
            ],
        })
    )
}

#[test]
fn pin_yin() {
    let doc = roxmltree::Document::parse(DOC).unwrap();
    let node = doc
        .descendants()
        .find(|node| {
            node.has_tag_name("dic_ref")
                && node.attribute("dr_type").map(|value| value.eq("moro")).unwrap_or(false)
        })
        .unwrap();
    let moro = kanjidic_parser::moro::from(&convert(node));
    assert_eq!(moro, Ok(Moro { volume: Some(1), page: Some(525), index: 272, suffix: None }))
}

#[test]
fn reading() {
    let node = first("reading");
    let reading = kanjidic_parser::reading::from(&node);
    assert_eq!(
        reading,
        Ok(Reading::PinYin(PinYin { romanization: "ya".into(), tone: Tone::Falling }))
    )
}

#[test]
fn every_entry_of_the_document() {
    let doc = roxmltree::Document::parse(DOC).unwrap();
    let root = convert(doc.root_element());
    let entries = kanjidic_parser::shared::children(
        &root,
        kanjidic_parser::tree::Tag::Character,
        kanjidic_parser::character::from,
    )
    .unwrap();
    assert_eq!(entries.len(), 1);
    assert_eq!(entries[0].literal, '亜');
    assert_eq!(entries[0].translations.len(), 4);
    assert_eq!(
        entries[0].translations.get("es"),
        Some(&vec!["pref. para indicar".to_owned(), "venir después de".to_owned(), "Asia".to_owned()])
    );
}

#[test]
fn errors_point_into_the_document() {
    let broken = DOC.replace("<stroke_count>7</stroke_count>", "<stroke_count>seven</stroke_count>");
    let doc = roxmltree::Document::parse(&broken).unwrap();
    let node = doc.descendants().find(|node| node.has_tag_name("character")).unwrap();
    let count = doc.descendants().find(|node| node.has_tag_name("stroke_count")).unwrap();
    let error = from(&convert(node)).unwrap_err();
    assert_eq!(
        error,
        kanjidic_parser::character::CharacterError::StrokeCount(
            kanjidic_parser::stroke_count::StrokeCountError::Shared(
                kanjidic_parser::shared::SharedError::NotANumber(
                    kanjidic_parser::pos_error::PosError {
                        tag: Some(kanjidic_parser::tree::Tag::StrokeCount),
                        position: Position { offset: count.range().start },
                    }
                )
            )
        )
    );
    assert_eq!(&broken[count.range().start..count.range().start + 14], "<stroke_count>");
    let without = DOC.replace("<codepoint>", "<codepoints>").replace("</codepoint>", "</codepoints>");
    let doc = roxmltree::Document::parse(&without).unwrap();
    let node = doc.descendants().find(|node| node.has_tag_name("character")).unwrap();
    assert_eq!(
        from(&convert(node)),
        Err(kanjidic_parser::character::CharacterError::Shared(
            kanjidic_parser::shared::SharedError::MissingChild(
                kanjidic_parser::pos_error::PosError {
                    tag: Some(kanjidic_parser::tree::Tag::Character),
                    position: Position { offset: node.range().start },
                },
                kanjidic_parser::tree::Tag::Codepoint
            )
        ))
    );
}

#[test]
fn names_are_looked_up_as_the_parser_looks_them_up() {
    let doc = roxmltree::Document::parse(
        "<character xmlns:k='urn:k'><k:literal>亜</k:literal><literal k:a='1'>唖</literal><dic_ref k:dr_type='moro' dr_type='heisig'>7</dic_ref></character>",
    )
    .unwrap();
    let root = doc.root_element();
    let node = convert(root);
    let first = root.children().find(|c| c.has_tag_name("literal")).unwrap();
    assert_eq!(
        kanjidic_parser::shared::child(&node, kanjidic_parser::tree::Tag::Literal)
            .unwrap()
            .text
            .as_deref(),
        first.text()
    );
    assert_eq!(kanjidic_parser::character::literal(&node), Ok('亜'));
    let reference = root.children().find(|c| c.has_tag_name("dic_ref")).unwrap();
    assert_eq!(
        kanjidic_parser::shared::optional_attr(&node.children[2], kanjidic_parser::tree::Attr::DrType),
        reference.attribute("dr_type")
    );
    assert_eq!(
        kanjidic_parser::shared::optional_attr(&node.children[2], kanjidic_parser::tree::Attr::MVol),
        reference.attribute("m_vol")
    );
}
