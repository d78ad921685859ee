//! The code of a kanji in Father Joseph De Roo's system: the shape at the
//! extreme top of the kanji and the shape at its extreme bottom, each written
//! as a number.

use crate::pos_error::{spec_pos, PosError};
use crate::shared::{spec_text, text, SharedError};
use crate::text::{
    chars_of, digits_end, is_digit, lemma_digits_end_bounds, lemma_value_bound, nines,
    number_value, take_digits, take_uint, Malformed,
};
use crate::tree::Node;
use vstd::prelude::*;
use vstd::string::StringExecFns;

verus! {

/// The code of a kanji in the De Roo system.
#[derive(Debug, Clone, Copy, PartialEq, Eq, PartialOrd, Ord, Hash)]
pub struct DeRoo {
    /// The shape at the extreme top of the kanji.
    pub top: ExtremeTop,
    /// The shape at the extreme bottom of the kanji.
    pub bottom: ExtremeBottom,
}

/// The shape at the top or upper left of a kanji.
#[derive(Debug, Clone, Copy, PartialEq, Eq, PartialOrd, Ord, Hash)]
pub enum ExtremeTop {
    Dot,
    RoofDot,
    DottedCliff,
    Altar,
    KanaU,
    Lid,
    Horns,
    SmallOnBox,
    Small,
    VerticalLine,
    HandOnTheLeft,
    Cross,
    CrossOnBox,
    KanaKa,
    Woman,
    Tree,
    LetterH,
    ManOnTheLeft,
    ThinMan,
    KanaNo,
    Fingers,
    KanaKu,
    Wrap,
    Grain,
    Bird,
    Moon,
    Fang,
    Cliff,
    TopLine,
    Bald,
    Mouth,
    Sun,
    Eye,
    Net,
    Gate,
    Enclosure,
    KanaYo,
}

/// The shape at the bottom or lower right of a kanji.
#[derive(Debug, Clone, Copy, PartialEq, Eq, PartialOrd, Ord, Hash)]
pub enum ExtremeBottom {
    FourDots,
    SmallBottom,
    Water,
    Cloth,
    Heart,
    Rice,
    TreeBottom,
    Fire,
    Thread,
    Shell,
    Legs,
    HumanLegs,
    Table,
    Wind,
    Big,
    Sky,
    Husband,
    Literature,
    Again,
    Go,
    Hook,
    Inch,
    Child,
    Hand,
    Knife,
    Power,
    MoonBottom,
    WrapBottom,
    Bow,
    Ten,
    Ground,
    Soil,
    King,
    StandingBottom,
    Dish,
    Stop,
    Correct,
    Life,
    Stand,
    Bean,
    MouthBottom,
    SunBottom,
    EyeBottom,
    Field,
    White,
    Oneself,
    Stone,
    Speech,
    Melody,
    BoxBottom,
    VerticalBottom,
    Middle,
    Dry,
    Thousand,
    Cow,
    Sheep,
    Car,
    Rain,
    Leather,
    Sound,
}

/// Why a node could not be decoded as a De Roo code.
#[derive(Debug, Clone, Copy, PartialEq, Eq, Hash)]
pub enum DeRooError {
    /// The node could not be read.
    Shared(SharedError),
    /// The node's text does not begin with a number.
    Format(PosError, Malformed),
    /// The code has neither three nor four digits.
    Length(PosError),
    /// The first digits stand for no shape of the top.
    Top(PosError),
    /// The last two digits stand for no shape of the bottom.
    Bottom(PosError),
}

/// Why a text is no De Roo code.
#[derive(Debug, Clone, Copy, PartialEq, Eq, Hash)]
pub enum DeRooParseError {
    /// The text does not begin with a number.
    Format(Malformed),
    /// The code has neither three nor four digits.
    Length,
    /// The first digits stand for no shape of the top.
    Top,
    /// The last two digits stand for no shape of the bottom.
    Bottom,
}

impl ExtremeTop {
    /// The number that stands for this shape in a code.
    pub open spec fn spec_code(self) -> u8 {
        match self {
            ExtremeTop::Dot => 3,
            ExtremeTop::RoofDot => 4,
            ExtremeTop::DottedCliff => 5,
            ExtremeTop::Altar => 6,
            ExtremeTop::KanaU => 7,
            ExtremeTop::Lid => 8,
            ExtremeTop::Horns => 9,
            ExtremeTop::SmallOnBox => 10,
            ExtremeTop::Small => 11,
            ExtremeTop::VerticalLine => 12,
            ExtremeTop::HandOnTheLeft => 13,
            ExtremeTop::Cross => 14,
            ExtremeTop::CrossOnBox => 15,
            ExtremeTop::KanaKa => 16,
            ExtremeTop::Woman => 17,
            ExtremeTop::Tree => 18,
            ExtremeTop::LetterH => 19,
            ExtremeTop::ManOnTheLeft => 20,
            ExtremeTop::ThinMan => 21,
            ExtremeTop::KanaNo => 22,
            ExtremeTop::Fingers => 23,
            ExtremeTop::KanaKu => 24,
            ExtremeTop::Wrap => 25,
            ExtremeTop::Grain => 26,
            ExtremeTop::Bird => 27,
            ExtremeTop::Moon => 28,
            ExtremeTop::Fang => 29,
            ExtremeTop::Cliff => 30,
            ExtremeTop::TopLine => 31,
            ExtremeTop::Bald => 32,
            ExtremeTop::Mouth => 33,
            ExtremeTop::Sun => 34,
            ExtremeTop::Eye => 35,
            ExtremeTop::Net => 36,
            ExtremeTop::Gate => 37,
            ExtremeTop::Enclosure => 38,
            ExtremeTop::KanaYo => 39,
        }
    }

    /// The shape that `code` stands for: each number from 3 to 39 is one.
    pub open spec fn spec_from_code(code: nat) -> Option<ExtremeTop> {
        if code == 3 {
            Some(ExtremeTop::Dot)
        } else if code == 4 {
            Some(ExtremeTop::RoofDot)
        } else if code == 5 {
            Some(ExtremeTop::DottedCliff)
        } else if code == 6 {
            Some(ExtremeTop::Altar)
        } else if code == 7 {
            Some(ExtremeTop::KanaU)
        } else if code == 8 {
            Some(ExtremeTop::Lid)
        } else if code == 9 {
            Some(ExtremeTop::Horns)
        } else if code == 10 {
            Some(ExtremeTop::SmallOnBox)
        } else if code == 11 {
            Some(ExtremeTop::Small)
        } else if code == 12 {
            Some(ExtremeTop::VerticalLine)
        } else if code == 13 {
            Some(ExtremeTop::HandOnTheLeft)
        } else if code == 14 {
            Some(ExtremeTop::Cross)
        } else if code == 15 {
            Some(ExtremeTop::CrossOnBox)
        } else if code == 16 {
            Some(ExtremeTop::KanaKa)
        } else if code == 17 {
            Some(ExtremeTop::Woman)
        } else if code == 18 {
            Some(ExtremeTop::Tree)
        } else if code == 19 {
            Some(ExtremeTop::LetterH)
        } else if code == 20 {
            Some(ExtremeTop::ManOnTheLeft)
        } else if code == 21 {
            Some(ExtremeTop::ThinMan)
        } else if code == 22 {
            Some(ExtremeTop::KanaNo)
        } else if code == 23 {
            Some(ExtremeTop::Fingers)
        } else if code == 24 {
            Some(ExtremeTop::KanaKu)
        } else if code == 25 {
            Some(ExtremeTop::Wrap)
        } else if code == 26 {
            Some(ExtremeTop::Grain)
        } else if code == 27 {
            Some(ExtremeTop::Bird)
        } else if code == 28 {
            Some(ExtremeTop::Moon)
        } else if code == 29 {
            Some(ExtremeTop::Fang)
        } else if code == 30 {
            Some(ExtremeTop::Cliff)
        } else if code == 31 {
            Some(ExtremeTop::TopLine)
        } else if code == 32 {
            Some(ExtremeTop::Bald)
        } else if code == 33 {
            Some(ExtremeTop::Mouth)
        } else if code == 34 {
            Some(ExtremeTop::Sun)
        } else if code == 35 {
            Some(ExtremeTop::Eye)
        } else if code == 36 {
            Some(ExtremeTop::Net)
        } else if code == 37 {
            Some(ExtremeTop::Gate)
        } else if code == 38 {
            Some(ExtremeTop::Enclosure)
        } else if code == 39 {
            Some(ExtremeTop::KanaYo)
        } else {
            None
        }
    }

    /// The number that stands for this shape in a code.
    pub fn code(self) -> (r: u8)
        ensures
            r == self.spec_code(),
    {
        match self {
            ExtremeTop::Dot => 3,
            ExtremeTop::RoofDot => 4,
            ExtremeTop::DottedCliff => 5,
            ExtremeTop::Altar => 6,
            ExtremeTop::KanaU => 7,
            ExtremeTop::Lid => 8,
            ExtremeTop::Horns => 9,
            ExtremeTop::SmallOnBox => 10,
            ExtremeTop::Small => 11,
            ExtremeTop::VerticalLine => 12,
            ExtremeTop::HandOnTheLeft => 13,
            ExtremeTop::Cross => 14,
            ExtremeTop::CrossOnBox => 15,
            ExtremeTop::KanaKa => 16,
            ExtremeTop::Woman => 17,
            ExtremeTop::Tree => 18,
            ExtremeTop::LetterH => 19,
            ExtremeTop::ManOnTheLeft => 20,
            ExtremeTop::ThinMan => 21,
            ExtremeTop::KanaNo => 22,
            ExtremeTop::Fingers => 23,
            ExtremeTop::KanaKu => 24,
            ExtremeTop::Wrap => 25,
            ExtremeTop::Grain => 26,
            ExtremeTop::Bird => 27,
            ExtremeTop::Moon => 28,
            ExtremeTop::Fang => 29,
            ExtremeTop::Cliff => 30,
            ExtremeTop::TopLine => 31,
            ExtremeTop::Bald => 32,
            ExtremeTop::Mouth => 33,
            ExtremeTop::Sun => 34,
            ExtremeTop::Eye => 35,
            ExtremeTop::Net => 36,
            ExtremeTop::Gate => 37,
            ExtremeTop::Enclosure => 38,
            ExtremeTop::KanaYo => 39,
        }
    }

    /// The shape that `code` stands for.
    pub fn from_code(code: u8) -> (r: Option<ExtremeTop>)
        ensures
            r == ExtremeTop::spec_from_code(code as nat),
    {
        if code == 3 {
            Some(ExtremeTop::Dot)
        } else if code == 4 {
            Some(ExtremeTop::RoofDot)
        } else if code == 5 {
            Some(ExtremeTop::DottedCliff)
        } else if code == 6 {
            Some(ExtremeTop::Altar)
        } else if code == 7 {
            Some(ExtremeTop::KanaU)
        } else if code == 8 {
            Some(ExtremeTop::Lid)
        } else if code == 9 {
            Some(ExtremeTop::Horns)
        } else if code == 10 {
            Some(ExtremeTop::SmallOnBox)
        } else if code == 11 {
            Some(ExtremeTop::Small)
        } else if code == 12 {
            Some(ExtremeTop::VerticalLine)
        } else if code == 13 {
            Some(ExtremeTop::HandOnTheLeft)
        } else if code == 14 {
            Some(ExtremeTop::Cross)
        } else if code == 15 {
            Some(ExtremeTop::CrossOnBox)
        } else if code == 16 {
            Some(ExtremeTop::KanaKa)
        } else if code == 17 {
            Some(ExtremeTop::Woman)
        } else if code == 18 {
            Some(ExtremeTop::Tree)
        } else if code == 19 {
            Some(ExtremeTop::LetterH)
        } else if code == 20 {
            Some(ExtremeTop::ManOnTheLeft)
        } else if code == 21 {
            Some(ExtremeTop::ThinMan)
        } else if code == 22 {
            Some(ExtremeTop::KanaNo)
        } else if code == 23 {
            Some(ExtremeTop::Fingers)
        } else if code == 24 {
            Some(ExtremeTop::KanaKu)
        } else if code == 25 {
            Some(ExtremeTop::Wrap)
        } else if code == 26 {
            Some(ExtremeTop::Grain)
        } else if code == 27 {
            Some(ExtremeTop::Bird)
        } else if code == 28 {
            Some(ExtremeTop::Moon)
        } else if code == 29 {
            Some(ExtremeTop::Fang)
        } else if code == 30 {
            Some(ExtremeTop::Cliff)
        } else if code == 31 {
            Some(ExtremeTop::TopLine)
        } else if code == 32 {
            Some(ExtremeTop::Bald)
        } else if code == 33 {
            Some(ExtremeTop::Mouth)
        } else if code == 34 {
            Some(ExtremeTop::Sun)
        } else if code == 35 {
            Some(ExtremeTop::Eye)
        } else if code == 36 {
            Some(ExtremeTop::Net)
        } else if code == 37 {
            Some(ExtremeTop::Gate)
        } else if code == 38 {
            Some(ExtremeTop::Enclosure)
        } else if code == 39 {
            Some(ExtremeTop::KanaYo)
        } else {
            None
        }
    }
}

impl ExtremeBottom {
    /// The number that stands for this shape in a code.
    pub open spec fn spec_code(self) -> u8 {
        match self {
            ExtremeBottom::FourDots => 40,
            ExtremeBottom::SmallBottom => 41,
            ExtremeBottom::Water => 42,
            ExtremeBottom::Cloth => 43,
            ExtremeBottom::Heart => 44,
            ExtremeBottom::Rice => 45,
            ExtremeBottom::TreeBottom => 46,
            ExtremeBottom::Fire => 47,
            ExtremeBottom::Thread => 48,
            ExtremeBottom::Shell => 49,
            ExtremeBottom::Legs => 50,
            ExtremeBottom::HumanLegs => 51,
            ExtremeBottom::Table => 52,
            ExtremeBottom::Wind => 53,
            ExtremeBottom::Big => 54,
            ExtremeBottom::Sky => 55,
            ExtremeBottom::Husband => 56,
            ExtremeBottom::Literature => 57,
            ExtremeBottom::Again => 58,
            ExtremeBottom::Go => 59,
            ExtremeBottom::Hook => 60,
            ExtremeBottom::Inch => 61,
            ExtremeBottom::Child => 62,
            ExtremeBottom::Hand => 63,
            ExtremeBottom::Knife => 64,
            ExtremeBottom::Power => 65,
            ExtremeBottom::MoonBottom => 66,
            ExtremeBottom::WrapBottom => 67,
            ExtremeBottom::Bow => 68,
            ExtremeBottom::Ten => 69,
            ExtremeBottom::Ground => 70,
            ExtremeBottom::Soil => 71,
            ExtremeBottom::King => 72,
            ExtremeBottom::StandingBottom => 73,
            ExtremeBottom::Dish => 74,
            ExtremeBottom::Stop => 75,
            ExtremeBottom::Correct => 76,
            ExtremeBottom::Life => 77,
            ExtremeBottom::Stand => 78,
            ExtremeBottom::Bean => 79,
            ExtremeBottom::MouthBottom => 80,
            ExtremeBottom::SunBottom => 81,
            ExtremeBottom::EyeBottom => 82,
            ExtremeBottom::Field => 83,
            ExtremeBottom::White => 84,
            ExtremeBottom::Oneself => 85,
            ExtremeBottom::Stone => 86,
            ExtremeBottom::Speech => 87,
            ExtremeBottom::Melody => 88,
            ExtremeBottom::BoxBottom => 89,
            ExtremeBottom::VerticalBottom => 90,
            ExtremeBottom::Middle => 91,
            ExtremeBottom::Dry => 92,
            ExtremeBottom::Thousand => 93,
            ExtremeBottom::Cow => 94,
            ExtremeBottom::Sheep => 95,
            ExtremeBottom::Car => 96,
            ExtremeBottom::Rain => 97,
            ExtremeBottom::Leather => 98,
            ExtremeBottom::Sound => 99,
        }
    }

    /// The shape that `code` stands for: each number from 40 to 99 is one.
    pub open spec fn spec_from_code(code: nat) -> Option<ExtremeBottom> {
        if code == 40 {
            Some(ExtremeBottom::FourDots)
        } else if code == 41 {
            Some(ExtremeBottom::SmallBottom)
        } else if code == 42 {
            Some(ExtremeBottom::Water)
        } else if code == 43 {
            Some(ExtremeBottom::Cloth)
        } else if code == 44 {
            Some(ExtremeBottom::Heart)
        } else if code == 45 {
            Some(ExtremeBottom::Rice)
        } else if code == 46 {
            Some(ExtremeBottom::TreeBottom)
        } else if code == 47 {
            Some(ExtremeBottom::Fire)
        } else if code == 48 {
            Some(ExtremeBottom::Thread)
        } else if code == 49 {
            Some(ExtremeBottom::Shell)
        } else if code == 50 {
            Some(ExtremeBottom::Legs)
        } else if code == 51 {
            Some(ExtremeBottom::HumanLegs)
        } else if code == 52 {
            Some(ExtremeBottom::Table)
        } else if code == 53 {
            Some(ExtremeBottom::Wind)
        } else if code == 54 {
            Some(ExtremeBottom::Big)
        } else if code == 55 {
            Some(ExtremeBottom::Sky)
        } else if code == 56 {
            Some(ExtremeBottom::Husband)
        } else if code == 57 {
            Some(ExtremeBottom::Literature)
        } else if code == 58 {
            Some(ExtremeBottom::Again)
        } else if code == 59 {
            Some(ExtremeBottom::Go)
        } else if code == 60 {
            Some(ExtremeBottom::Hook)
        } else if code == 61 {
            Some(ExtremeBottom::Inch)
        } else if code == 62 {
            Some(ExtremeBottom::Child)
        } else if code == 63 {
            Some(ExtremeBottom::Hand)
        } else if code == 64 {
            Some(ExtremeBottom::Knife)
        } else if code == 65 {
            Some(ExtremeBottom::Power)
        } else if code == 66 {
            Some(ExtremeBottom::MoonBottom)
        } else if code == 67 {
            Some(ExtremeBottom::WrapBottom)
        } else if code == 68 {
            Some(ExtremeBottom::Bow)
        } else if code == 69 {
            Some(ExtremeBottom::Ten)
        } else if code == 70 {
            Some(ExtremeBottom::Ground)
        } else if code == 71 {
            Some(ExtremeBottom::Soil)
        } else if code == 72 {
            Some(ExtremeBottom::King)
        } else if code == 73 {
            Some(ExtremeBottom::StandingBottom)
        } else if code == 74 {
            Some(ExtremeBottom::Dish)
        } else if code == 75 {
            Some(ExtremeBottom::Stop)
        } else if code == 76 {
            Some(ExtremeBottom::Correct)
        } else if code == 77 {
            Some(ExtremeBottom::Life)
        } else if code == 78 {
            Some(ExtremeBottom::Stand)
        } else if code == 79 {
            Some(ExtremeBottom::Bean)
        } else if code == 80 {
            Some(ExtremeBottom::MouthBottom)
        } else if code == 81 {
            Some(ExtremeBottom::SunBottom)
        } else if code == 82 {
            Some(ExtremeBottom::EyeBottom)
        } else if code == 83 {
            Some(ExtremeBottom::Field)
        } else if code == 84 {
            Some(ExtremeBottom::White)
        } else if code == 85 {
            Some(ExtremeBottom::Oneself)
        } else if code == 86 {
            Some(ExtremeBottom::Stone)
        } else if code == 87 {
            Some(ExtremeBottom::Speech)
        } else if code == 88 {
            Some(ExtremeBottom::Melody)
        } else if code == 89 {
            Some(ExtremeBottom::BoxBottom)
        } else if code == 90 {
            Some(ExtremeBottom::VerticalBottom)
        } else if code == 91 {
            Some(ExtremeBottom::Middle)
        } else if code == 92 {
            Some(ExtremeBottom::Dry)
        } else if code == 93 {
            Some(ExtremeBottom::Thousand)
        } else if code == 94 {
            Some(ExtremeBottom::Cow)
        } else if code == 95 {
            Some(ExtremeBottom::Sheep)
        } else if code == 96 {
            Some(ExtremeBottom::Car)
        } else if code == 97 {
            Some(ExtremeBottom::Rain)
        } else if code == 98 {
            Some(ExtremeBottom::Leather)
        } else if code == 99 {
            Some(ExtremeBottom::Sound)
        } else {
            None
        }
    }

    /// The number that stands for this shape in a code.
    pub fn code(self) -> (r: u8)
        ensures
            r == self.spec_code(),
    {
        match self {
            ExtremeBottom::FourDots => 40,
            ExtremeBottom::SmallBottom => 41,
            ExtremeBottom::Water => 42,
            ExtremeBottom::Cloth => 43,
            ExtremeBottom::Heart => 44,
            ExtremeBottom::Rice => 45,
            ExtremeBottom::TreeBottom => 46,
            ExtremeBottom::Fire => 47,
            ExtremeBottom::Thread => 48,
            ExtremeBottom::Shell => 49,
            ExtremeBottom::Legs => 50,
            ExtremeBottom::HumanLegs => 51,
            ExtremeBottom::Table => 52,
            ExtremeBottom::Wind => 53,
            ExtremeBottom::Big => 54,
            ExtremeBottom::Sky => 55,
            ExtremeBottom::Husband => 56,
            ExtremeBottom::Literature => 57,
            ExtremeBottom::Again => 58,
            ExtremeBottom::Go => 59,
            ExtremeBottom::Hook => 60,
            ExtremeBottom::Inch => 61,
            ExtremeBottom::Child => 62,
            ExtremeBottom::Hand => 63,
            ExtremeBottom::Knife => 64,
            ExtremeBottom::Power => 65,
            ExtremeBottom::MoonBottom => 66,
            ExtremeBottom::WrapBottom => 67,
            ExtremeBottom::Bow => 68,
            ExtremeBottom::Ten => 69,
            ExtremeBottom::Ground => 70,
            ExtremeBottom::Soil => 71,
            ExtremeBottom::King => 72,
            ExtremeBottom::StandingBottom => 73,
            ExtremeBottom::Dish => 74,
            ExtremeBottom::Stop => 75,
            ExtremeBottom::Correct => 76,
            ExtremeBottom::Life => 77,
            ExtremeBottom::Stand => 78,
            ExtremeBottom::Bean => 79,
            ExtremeBottom::MouthBottom => 80,
            ExtremeBottom::SunBottom => 81,
            ExtremeBottom::EyeBottom => 82,
            ExtremeBottom::Field => 83,
            ExtremeBottom::White => 84,
            ExtremeBottom::Oneself => 85,
            ExtremeBottom::Stone => 86,
            ExtremeBottom::Speech => 87,
            ExtremeBottom::Melody => 88,
            ExtremeBottom::BoxBottom => 89,
            ExtremeBottom::VerticalBottom => 90,
            ExtremeBottom::Middle => 91,
            ExtremeBottom::Dry => 92,
            ExtremeBottom::Thousand => 93,
            ExtremeBottom::Cow => 94,
            ExtremeBottom::Sheep => 95,
            ExtremeBottom::Car => 96,
            ExtremeBottom::Rain => 97,
            ExtremeBottom::Leather => 98,
            ExtremeBottom::Sound => 99,
        }
    }

    /// The shape that `code` stands for.
    pub fn from_code(code: u8) -> (r: Option<ExtremeBottom>)
        ensures
            r == ExtremeBottom::spec_from_code(code as nat),
    {
        if code == 40 {
            Some(ExtremeBottom::FourDots)
        } else if code == 41 {
            Some(ExtremeBottom::SmallBottom)
        } else if code == 42 {
            Some(ExtremeBottom::Water)
        } else if code == 43 {
            Some(ExtremeBottom::Cloth)
        } else if code == 44 {
            Some(ExtremeBottom::Heart)
        } else if code == 45 {
            Some(ExtremeBottom::Rice)
        } else if code == 46 {
            Some(ExtremeBottom::TreeBottom)
        } else if code == 47 {
            Some(ExtremeBottom::Fire)
        } else if code == 48 {
            Some(ExtremeBottom::Thread)
        } else if code == 49 {
            Some(ExtremeBottom::Shell)
        } else if code == 50 {
            Some(ExtremeBottom::Legs)
        } else if code == 51 {
            Some(ExtremeBottom::HumanLegs)
        } else if code == 52 {
            Some(ExtremeBottom::Table)
        } else if code == 53 {
            Some(ExtremeBottom::Wind)
        } else if code == 54 {
            Some(ExtremeBottom::Big)
        } else if code == 55 {
            Some(ExtremeBottom::Sky)
        } else if code == 56 {
            Some(ExtremeBottom::Husband)
        } else if code == 57 {
            Some(ExtremeBottom::Literature)
        } else if code == 58 {
            Some(ExtremeBottom::Again)
        } else if code == 59 {
            Some(ExtremeBottom::Go)
        } else if code == 60 {
            Some(ExtremeBottom::Hook)
        } else if code == 61 {
            Some(ExtremeBottom::Inch)
        } else if code == 62 {
            Some(ExtremeBottom::Child)
        } else if code == 63 {
            Some(ExtremeBottom::Hand)
        } else if code == 64 {
            Some(ExtremeBottom::Knife)
        } else if code == 65 {
            Some(ExtremeBottom::Power)
        } else if code == 66 {
            Some(ExtremeBottom::MoonBottom)
        } else if code == 67 {
            Some(ExtremeBottom::WrapBottom)
        } else if code == 68 {
            Some(ExtremeBottom::Bow)
        } else if code == 69 {
            Some(ExtremeBottom::Ten)
        } else if code == 70 {
            Some(ExtremeBottom::Ground)
        } else if code == 71 {
            Some(ExtremeBottom::Soil)
        } else if code == 72 {
            Some(ExtremeBottom::King)
        } else if code == 73 {
            Some(ExtremeBottom::StandingBottom)
        } else if code == 74 {
            Some(ExtremeBottom::Dish)
        } else if code == 75 {
            Some(ExtremeBottom::Stop)
        } else if code == 76 {
            Some(ExtremeBottom::Correct)
        } else if code == 77 {
            Some(ExtremeBottom::Life)
        } else if code == 78 {
            Some(ExtremeBottom::Stand)
        } else if code == 79 {
            Some(ExtremeBottom::Bean)
        } else if code == 80 {
            Some(ExtremeBottom::MouthBottom)
        } else if code == 81 {
            Some(ExtremeBottom::SunBottom)
        } else if code == 82 {
            Some(ExtremeBottom::EyeBottom)
        } else if code == 83 {
            Some(ExtremeBottom::Field)
        } else if code == 84 {
            Some(ExtremeBottom::White)
        } else if code == 85 {
            Some(ExtremeBottom::Oneself)
        } else if code == 86 {
            Some(ExtremeBottom::Stone)
        } else if code == 87 {
            Some(ExtremeBottom::Speech)
        } else if code == 88 {
            Some(ExtremeBottom::Melody)
        } else if code == 89 {
            Some(ExtremeBottom::BoxBottom)
        } else if code == 90 {
            Some(ExtremeBottom::VerticalBottom)
        } else if code == 91 {
            Some(ExtremeBottom::Middle)
        } else if code == 92 {
            Some(ExtremeBottom::Dry)
        } else if code == 93 {
            Some(ExtremeBottom::Thousand)
        } else if code == 94 {
            Some(ExtremeBottom::Cow)
        } else if code == 95 {
            Some(ExtremeBottom::Sheep)
        } else if code == 96 {
            Some(ExtremeBottom::Car)
        } else if code == 97 {
            Some(ExtremeBottom::Rain)
        } else if code == 98 {
            Some(ExtremeBottom::Leather)
        } else if code == 99 {
            Some(ExtremeBottom::Sound)
        } else {
            None
        }
    }
}

/// The code that `s` begins with: a run of three or four digits, of which the
/// last two stand for the bottom and those before them for the top. A run of
/// any other length is no code, whatever its digits.
pub open spec fn spec_parse(s: Seq<char>) -> Result<DeRoo, DeRooParseError> {
    let end = digits_end(s, 0, 10);
    if end <= 0 {
        Err(DeRooParseError::Format(Malformed::MissingNumber))
    } else if end != 3 && end != 4 {
        Err(DeRooParseError::Length)
    } else {
        let n = number_value(s.subrange(0, end), 10);
        match ExtremeTop::spec_from_code(n / 100) {
            None => Err(DeRooParseError::Top),
            Some(top) => match ExtremeBottom::spec_from_code(n % 100) {
                None => Err(DeRooParseError::Bottom),
                Some(bottom) => Ok(DeRoo { top, bottom }),
            },
        }
    }
}

/// The code that `node` writes as its text.
pub open spec fn spec_from(node: Node) -> Result<DeRoo, DeRooError> {
    match spec_text(node) {
        None => Err(DeRooError::Shared(SharedError::MissingText(spec_pos(node)))),
        Some(s) => match spec_parse(s) {
            Ok(code) => Ok(code),
            Err(DeRooParseError::Format(e)) => Err(DeRooError::Format(spec_pos(node), e)),
            Err(DeRooParseError::Length) => Err(DeRooError::Length(spec_pos(node))),
            Err(DeRooParseError::Top) => Err(DeRooError::Top(spec_pos(node))),
            Err(DeRooParseError::Bottom) => Err(DeRooError::Bottom(spec_pos(node))),
        },
    }
}

impl DeRoo {
    /// Reads a code from the beginning of `text`.
    pub fn try_from(text: &str) -> (r: Result<DeRoo, DeRooParseError>)
        ensures
            r == spec_parse(text@),
    {
        let s = chars_of(text);
        let end = take_digits(&s, 0, 10);
        if end == 0 {
            return Err(DeRooParseError::Format(Malformed::MissingNumber));
        }
        if end != 3 && end != 4 {
            return Err(DeRooParseError::Length);
        }
        proof {
            lemma_digits_end_bounds(s@, 0, 10);
            let digits = s@.subrange(0, end as int);
            assert forall|k: int| 0 <= k < digits.len() implies is_digit(digits[k], 10) by {
                assert(digits[k] == s@[k]);
            }
            lemma_value_bound(digits);
            reveal_with_fuel(nines, 5);
        }
        let n = match take_uint(&s, 0, 10, 9999) {
            Ok((n, _)) => n,
            Err(e) => {
                return Err(DeRooParseError::Format(e));
            },
        };
        let top = match ExtremeTop::from_code((n / 100) as u8) {
            Some(top) => top,
            None => {
                return Err(DeRooParseError::Top);
            },
        };
        match ExtremeBottom::from_code((n % 100) as u8) {
            Some(bottom) => Ok(DeRoo { top, bottom }),
            None => Err(DeRooParseError::Bottom),
        }
    }
}

/// Decodes the code that `node` writes.
pub fn from(node: &Node) -> (r: Result<DeRoo, DeRooError>)
    ensures
        r == spec_from(*node),
{
    let s = match text(node) {
        Ok(s) => s,
        Err(e) => {
            return Err(DeRooError::Shared(e));
        },
    };
    match DeRoo::try_from(s) {
        Ok(code) => Ok(code),
        Err(DeRooParseError::Format(e)) => Err(DeRooError::Format(PosError::from(node), e)),
        Err(DeRooParseError::Length) => Err(DeRooError::Length(PosError::from(node))),
        Err(DeRooParseError::Top) => Err(DeRooError::Top(PosError::from(node))),
        Err(DeRooParseError::Bottom) => Err(DeRooError::Bottom(PosError::from(node))),
    }
}

/// Each shape of the top is the one that its number stands for.
pub proof fn lemma_top_code(top: ExtremeTop)
    ensures
        ExtremeTop::spec_from_code(top.spec_code() as nat) == Some(top),
{
}

/// Each shape of the bottom is the one that its number stands for.
pub proof fn lemma_bottom_code(bottom: ExtremeBottom)
    ensures
        ExtremeBottom::spec_from_code(bottom.spec_code() as nat) == Some(bottom),
{
}


impl DeRooError {
    /// What the error says: the component that reports it, then what went
    /// wrong, then what the error holds.
    pub open spec fn spec_message(self) -> Seq<char> {
        match self {
            DeRooError::Shared(error) => "(De Roo) Shared: "@ + error.spec_message(),
            DeRooError::Format(pos, reason) => "(De Roo) Format: "@ + pos.spec_message() + ", "@ + reason.spec_message(),
            DeRooError::Length(pos) => "(De Roo) Length: "@ + pos.spec_message(),
            DeRooError::Top(pos) => "(De Roo) Top: "@ + pos.spec_message(),
            DeRooError::Bottom(pos) => "(De Roo) Bottom: "@ + pos.spec_message(),
        }
    }

    /// Appends what the error says to `out`.
    pub fn write(&self, out: &mut String)
        ensures
            final(out)@ == old(out)@ + self.spec_message(),
    {
        match *self {
            DeRooError::Shared(error) => {
                out.append("(De Roo) Shared: ");
                error.write(out);
                assert(out@ =~= old(out)@ + self.spec_message());
            },
            DeRooError::Format(pos, reason) => {
                out.append("(De Roo) Format: ");
                pos.write(out);
                out.append(", ");
                reason.write(out);
                assert(out@ =~= old(out)@ + self.spec_message());
            },
            DeRooError::Length(pos) => {
                out.append("(De Roo) Length: ");
                pos.write(out);
                assert(out@ =~= old(out)@ + self.spec_message());
            },
            DeRooError::Top(pos) => {
                out.append("(De Roo) Top: ");
                pos.write(out);
                assert(out@ =~= old(out)@ + self.spec_message());
            },
            DeRooError::Bottom(pos) => {
                out.append("(De Roo) Bottom: ");
                pos.write(out);
                assert(out@ =~= old(out)@ + self.spec_message());
            },
        }
    }

    /// What the error says.
    pub fn message(&self) -> (r: String)
        ensures
            r@ == self.spec_message(),
    {
        let mut out = String::new();
        self.write(&mut out);
        assert(out@ =~= self.spec_message());
        out
    }
}

impl DeRooParseError {
    /// What the error says: the component that reports it, then what went
    /// wrong, then what the error holds.
    pub open spec fn spec_message(self) -> Seq<char> {
        match self {
            DeRooParseError::Format(reason) => "(De Roo) Format: "@ + reason.spec_message(),
            DeRooParseError::Length => "(De Roo) Length"@,
            DeRooParseError::Top => "(De Roo) Top"@,
            DeRooParseError::Bottom => "(De Roo) Bottom"@,
        }
    }

    /// Appends what the error says to `out`.
    pub fn write(&self, out: &mut String)
        ensures
            final(out)@ == old(out)@ + self.spec_message(),
    {
        match *self {
            DeRooParseError::Format(reason) => {
                out.append("(De Roo) Format: ");
                reason.write(out);
                assert(out@ =~= old(out)@ + self.spec_message());
            },
            DeRooParseError::Length => {
                out.append("(De Roo) Length");
                assert(out@ =~= old(out)@ + self.spec_message());
            },
            DeRooParseError::Top => {
                out.append("(De Roo) Top");
                assert(out@ =~= old(out)@ + self.spec_message());
            },
            DeRooParseError::Bottom => {
                out.append("(De Roo) Bottom");
                assert(out@ =~= old(out)@ + self.spec_message());
            },
        }
    }

    /// What the error says.
    pub fn message(&self) -> (r: String)
        ensures
            r@ == self.spec_message(),
    {
        let mut out = String::new();
        self.write(&mut out);
        assert(out@ =~= self.spec_message());
        out
    }
}

} // verus!
