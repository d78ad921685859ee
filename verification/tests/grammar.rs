use kanjidic_parser::kuten::Kuten;
use kanjidic_parser::moro::{parse_index, MoroSuffix};
use kanjidic_parser::oneill::{Oneill, OneillSuffix};
use kanjidic_parser::text::{chars_of, take_letters, take_uint};
use nom::bytes::complete::take_while;
use nom::character::complete::{char, digit1};
use nom::combinator::map_res;
use nom::sequence::tuple;
use nom::IResult;

fn uint16(s: &str) -> IResult<&str, u16> {
    map_res(digit1, |digits: &str| digits.parse::<u16>())(s)
}

fn uint8(s: &str) -> IResult<&str, u8> {
    map_res(digit1, |digits: &str| digits.parse::<u8>())(s)
}

fn moro_suffix(s: &str) -> IResult<&str, Option<MoroSuffix>> {
    map_res(take_while(|c: char| c.is_ascii_alphabetic()), |text| match text {
        "X" => Ok(Some(MoroSuffix::X)),
        "P" => Ok(Some(MoroSuffix::P)),
        "PX" => Ok(Some(MoroSuffix::PX)),
        "" => Ok(None),
        _ => Err(()),
    })(s)
}

fn moro_index(s: &str) -> IResult<&str, (u16, Option<MoroSuffix>)> {
    tuple((uint16, moro_suffix))(s)
}

fn oneill_suffix(s: &str) -> IResult<&str, Option<OneillSuffix>> {
    map_res(take_while(|c: char| c.is_ascii_alphabetic()), |v| match v {
        "A" => Ok(Some(OneillSuffix::A)),
        "" => Ok(None),
        _ => Err(()),
    })(s)
}

fn oneill(s: &str) -> IResult<&str, Oneill> {
    nom::combinator::map(tuple((uint16, oneill_suffix)), |(number, suffix)| Oneill {
        number,
        suffix,
    })(s)
}

fn kuten(s: &str) -> IResult<&str, Kuten> {
    nom::combinator::map(tuple((uint8, char('-'), uint8, char('-'), uint8)), |(plane, _, ku, _, ten)| Kuten {
        plane,
        ku,
        ten,
    })(s)
}

fn texts() -> Vec<String> {
    let alphabet = ['0', '1', '2', '7', '9', 'A', 'P', 'X', 'a', '-', '.', ' ', '亜'];
    let mut all = vec![String::new()];
    let mut last = vec![String::new()];
    for _ in 0..4 {
        let mut next = Vec::new();
        for text in &last {
            for c in alphabet {
                let mut longer = text.clone();
                longer.push(c);
                next.push(longer);
            }
        }
        all.extend(next.iter().cloned());
        last = next;
    }
    for text in [
        "65535", "65536", "65535PX", "0000000000000000000272X", "99999999999999999999999",
        "255-255-255", "256-1-1", "1-256-1", "1-1-256", "001-016-001", "1-16-01", "12-34-56-78",
        "272PXA", "525AB", "525A1", "1--1", "٣", "１２", "1-16-1亜",
    ] {
        all.push(text.to_owned());
    }
    all
}

#[test]
fn moro_index_agrees_with_the_combinators() {
    for text in texts() {
        assert_eq!(parse_index(&text).ok(), moro_index(&text).ok().map(|(_, found)| found), "{:?}", text);
    }
}

#[test]
fn oneill_index_agrees_with_the_combinators() {
    for text in texts() {
        assert_eq!(Oneill::try_from(&text).ok(), oneill(&text).ok().map(|(_, found)| found), "{:?}", text);
    }
}

#[test]
fn kuten_agrees_with_the_combinators() {
    for text in texts() {
        assert_eq!(Kuten::try_from(&text).ok(), kuten(&text).ok().map(|(_, found)| found), "{:?}", text);
    }
}

#[test]
fn numbers_and_letters_agree_with_the_combinators() {
    for text in texts() {
        let s = chars_of(&text);
        let expected = uint16(&text).ok().map(|(rest, n)| (n as u32, text.chars().count() - rest.chars().count()));
        assert_eq!(take_uint(&s, 0, 10, 0xffff).ok(), expected, "{:?}", text);
        let letters: IResult<&str, &str> = take_while(|c: char| c.is_ascii_alphabetic())(text.as_str());
        let (_, run) = letters.unwrap();
        assert_eq!(take_letters(&s, 0), run.chars().count(), "{:?}", text);
    }
}
