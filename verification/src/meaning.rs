//! The readings and meanings of a kanji as the document groups them.

use crate::pos_error::{spec_pos, PosError};
use crate::reading::{Reading, ReadingView};
use crate::shared::{
    child, children, collect, lemma_children, owned_text, spec_child, spec_children,
    spec_owned_text, viewed, SharedError,
};
use crate::translation::{
    spec_translation, views, Translation, TranslationError, TranslationView,
};
use crate::text::texts;
use crate::tree::{Node, Tag};
use vstd::prelude::*;
use vstd::string::StringExecFns;

verus! {

/// Why a node could not be decoded as the readings and meanings.
#[derive(Debug, Clone, Copy, PartialEq, Eq, Hash)]
pub enum MeaningError {
    /// A node could not be read.
    Shared(SharedError),
    /// A `nanori` child of the node that stands at this place holds no text.
    NanoriText(PosError),
    /// A reading could not be decoded.
    Reading(crate::reading::Error),
    /// A gloss could not be decoded.
    Translation(TranslationError),
}

/// The readings, the glosses and the name readings of a kanji, each in
/// document order.
#[derive(Debug, Clone, PartialEq, Eq)]
pub struct Meaning {
    /// Different ways the kanji can be read.
    pub readings: Vec<Reading>,
    /// The glosses of the kanji, each with its language.
    pub translations: Vec<Translation>,
    /// Japanese readings associated with names.
    pub nanori: Vec<String>,
}

/// What `Meaning` holds, as plain values.
pub struct MeaningView {
    pub readings: Seq<ReadingView>,
    pub translations: Seq<TranslationView>,
    pub nanori: Seq<Seq<char>>,
}

/// The views of `readings`, in order.
pub open spec fn reading_views(readings: Seq<Reading>) -> Seq<ReadingView> {
    readings.map_values(|r: Reading| r@)
}

impl View for Meaning {
    type V = MeaningView;

    open spec fn view(&self) -> MeaningView {
        MeaningView {
            readings: reading_views(self.readings@),
            translations: views(self.translations@),
            nanori: texts(self.nanori@),
        }
    }
}

/// The name readings under `node`: the text of each `nanori` child, in
/// document order. A child without text is an error at `node`.
pub open spec fn spec_nanori(node: Node) -> Result<Seq<Seq<char>>, PosError> {
    match collect(spec_children(node, Tag::Nanori).map_values(|n: Node| spec_owned_text(n))) {
        Ok(nanori) => Ok(nanori),
        Err(_) => Err(spec_pos(node)),
    }
}

/// The readings under `rmgroup`: what each `reading` child writes, in document
/// order.
pub open spec fn spec_readings(rmgroup: Node) -> Result<Seq<ReadingView>, crate::reading::Error> {
    collect(spec_children(rmgroup, Tag::Reading).map_values(|n: Node| crate::reading::spec_from(n)))
}

/// The glosses under `rmgroup`: what each `meaning` child writes, in document
/// order.
pub open spec fn spec_translations(rmgroup: Node) -> Result<
    Seq<TranslationView>,
    TranslationError,
> {
    collect(spec_children(rmgroup, Tag::Meaning).map_values(|n: Node| spec_translation(n)))
}

/// What the `reading_meaning` node `node` writes: its name readings, then the
/// readings and the glosses of its `rmgroup` child, which must be there. The
/// first failure in that order is the error.
pub open spec fn spec_from(node: Node) -> Result<MeaningView, MeaningError> {
    match spec_nanori(node) {
        Err(pos) => Err(MeaningError::NanoriText(pos)),
        Ok(nanori) => match spec_child(node, Tag::Rmgroup) {
            None => Err(
                MeaningError::Shared(SharedError::MissingChild(spec_pos(node), Tag::Rmgroup)),
            ),
            Some(rmgroup) => match spec_readings(rmgroup) {
                Err(e) => Err(MeaningError::Reading(e)),
                Ok(readings) => match spec_translations(rmgroup) {
                    Err(e) => Err(MeaningError::Translation(e)),
                    Ok(translations) => Ok(MeaningView { readings, translations, nanori }),
                },
            },
        },
    }
}

/// Decodes the name readings under `node`.
pub fn nanori(node: &Node) -> (r: Result<Vec<String>, PosError>)
    ensures
        match r {
            Ok(names) => spec_nanori(*node) == Ok::<Seq<Seq<char>>, PosError>(texts(names@)),
            Err(e) => spec_nanori(*node) == Err::<Seq<Seq<char>>, PosError>(e),
        },
{
    let names = children(node, Tag::Nanori, owned_text);
    proof {
        lemma_children(
            owned_text,
            spec_children(*node, Tag::Nanori),
            names,
            |s: String| s@,
            |n: Node| spec_owned_text(n),
        );
    }
    match names {
        Ok(names) => Ok(names),
        Err(_) => Err(PosError::from(node)),
    }
}

/// Decodes the readings under `rmgroup`.
pub fn readings(rmgroup: &Node) -> (r: Result<Vec<Reading>, crate::reading::Error>)
    ensures
        match r {
            Ok(found) => spec_readings(*rmgroup) == Ok::<Seq<ReadingView>, crate::reading::Error>(
                reading_views(found@),
            ),
            Err(e) => spec_readings(*rmgroup) == Err::<Seq<ReadingView>, crate::reading::Error>(e),
        },
{
    let found = children(rmgroup, Tag::Reading, crate::reading::from);
    proof {
        lemma_children(
            crate::reading::from,
            spec_children(*rmgroup, Tag::Reading),
            found,
            |r: Reading| r@,
            |n: Node| crate::reading::spec_from(n),
        );
    }
    found
}

/// Decodes the glosses under `rmgroup`.
pub fn translations(rmgroup: &Node) -> (r: Result<Vec<Translation>, TranslationError>)
    ensures
        match r {
            Ok(found) => spec_translations(*rmgroup) == Ok::<
                Seq<TranslationView>,
                TranslationError,
            >(views(found@)),
            Err(e) => spec_translations(*rmgroup) == Err::<Seq<TranslationView>, TranslationError>(
                e,
            ),
        },
{
    let found = children(rmgroup, Tag::Meaning, Translation::try_from);
    proof {
        lemma_children(
            Translation::try_from,
            spec_children(*rmgroup, Tag::Meaning),
            found,
            |t: Translation| t@,
            |n: Node| spec_translation(n),
        );
    }
    found
}

impl Meaning {
    /// Decodes what the `reading_meaning` node `node` writes.
    pub fn try_from(node: &Node) -> (r: Result<Meaning, MeaningError>)
        ensures
            viewed(r) == spec_from(*node),
    {
        let nanori = match nanori(node) {
            Ok(nanori) => nanori,
            Err(pos) => {
                return Err(MeaningError::NanoriText(pos));
            },
        };
        let rmgroup = match child(node, Tag::Rmgroup) {
            Ok(rmgroup) => rmgroup,
            Err(e) => {
                return Err(MeaningError::Shared(e));
            },
        };
        let readings = match readings(rmgroup) {
            Ok(readings) => readings,
            Err(e) => {
                return Err(MeaningError::Reading(e));
            },
        };
        let translations = match translations(rmgroup) {
            Ok(translations) => translations,
            Err(e) => {
                return Err(MeaningError::Translation(e));
            },
        };
        Ok(Meaning { readings, translations, nanori })
    }
}


impl MeaningError {
    /// What the error says: the component that reports it, then what went
    /// wrong, then what the error holds.
    pub open spec fn spec_message(self) -> Seq<char> {
        match self {
            MeaningError::Shared(error) => "(Meaning) Shared: "@ + error.spec_message(),
            MeaningError::NanoriText(pos) => "(Meaning) Nanori node missing text: "@ + pos.spec_message(),
            MeaningError::Reading(error) => "(Meaning) Reading: "@ + error.spec_message(),
            MeaningError::Translation(error) => "(Meaning) Translation: "@ + error.spec_message(),
        }
    }

    /// Appends what the error says to `out`.
    pub fn write(&self, out: &mut String)
        ensures
            final(out)@ == old(out)@ + self.spec_message(),
    {
        match *self {
            MeaningError::Shared(error) => {
                out.append("(Meaning) Shared: ");
                error.write(out);
                assert(out@ =~= old(out)@ + self.spec_message());
            },
            MeaningError::NanoriText(pos) => {
                out.append("(Meaning) Nanori node missing text: ");
                pos.write(out);
                assert(out@ =~= old(out)@ + self.spec_message());
            },
            MeaningError::Reading(error) => {
                out.append("(Meaning) Reading: ");
                error.write(out);
                assert(out@ =~= old(out)@ + self.spec_message());
            },
            MeaningError::Translation(error) => {
                out.append("(Meaning) Translation: ");
                error.write(out);
                assert(out@ =~= old(out)@ + self.spec_message());
            },
        }
    }

    /// What the error says.
    pub fn message(&self) -> (r: String)
        ensures
            r@ == self.spec_message(),
    {
        let mut out = String::new();
        self.write(&mut out);
        assert(out@ =~= self.spec_message());
        out
    }
}

} // verus!
