//! Decoders for the entries of KANJIDIC, the dictionary of kanji.
//!
//! An entry arrives as a tree of named nodes ([`tree::Node`]) that a markup
//! parser has read. [`character::from`] turns the `character` node of an entry
//! into a [`character::Character`]; the other modules decode the groups of an
//! entry and the compact codes that they hold, each with the error that says
//! what could not be decoded and where.
//!
//! Every decoder is verified against a specification of what it returns for
//! every node: an open `spec` function of the same module, over the node's
//! names, attributes and text.

pub mod busy_people;
pub mod character;
pub mod codepoint;
pub mod de_roo;
pub mod decomposition;
pub mod four_corner;
pub mod grade;
pub mod kunyomi;
pub mod kuten;
pub mod meaning;
pub mod moro;
pub mod oneill;
pub mod pin_yin;
pub mod pos_error;
pub mod query_code;
pub mod radical;
pub mod reading;
pub mod reference;
pub mod sh_desc;
pub mod shared;
pub mod skip;
pub mod stroke_count;
pub mod text;
pub mod translation;
pub mod tree;
pub mod variant;

pub use crate::busy_people::{BusyPeople, BusyPeopleError, Chapter};
pub use crate::character::{Character, CharacterBuilder, CharacterError};
pub use crate::codepoint::{Codepoint, CodepointError};
pub use crate::de_roo::{DeRoo, DeRooError, ExtremeBottom, ExtremeTop};
pub use crate::four_corner::{FourCorner, FourCornerError, Stroke};
pub use crate::grade::{Grade, GradeError};
pub use crate::kunyomi::Error as KunyomiError;
pub use crate::kunyomi::{Kunyomi, KunyomiKind};
pub use crate::kuten::{Kuten, KutenError};
pub use crate::meaning::{Meaning, MeaningError};
pub use crate::moro::Error as MoroError;
pub use crate::moro::{Moro, MoroSuffix};
pub use crate::oneill::{Oneill, OneillParseError, OneillSuffix};
pub use crate::pin_yin::Error as PinYinError;
pub use crate::pin_yin::{PinYin, Tone};
pub use crate::pos_error::PosError;
pub use crate::query_code::{Misclassification, MisclassificationKind, QueryCode, QueryCodeError};
pub use crate::radical::{Radical, RadicalError, RadicalKind};
pub use crate::reading::Error as ReadingError;
pub use crate::reading::Reading;
pub use crate::reference::{Reference, ReferenceError};
pub use crate::sh_desc::{ShDesc, ShDescError};
pub use crate::shared::SharedError;
pub use crate::skip::{
    Skip, SkipEnclosure, SkipError, SkipHorizontal, SkipSolid, SkipVertical, SolidSubpattern,
};
pub use crate::stroke_count::{StrokeCount, StrokeCountError};
pub use crate::text::Malformed;
pub use crate::translation::{Translation, TranslationError, Translations};
pub use crate::tree::{Attr, Attribute, Node, Position, Tag};
pub use crate::variant::{Variant, VariantError};
