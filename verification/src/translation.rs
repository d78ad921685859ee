//! The meanings of a kanji: each gloss with the language it is written in, and
//! the glosses of an entry gathered by language.

use crate::pos_error::spec_pos;
use crate::shared::{
    children, collect, lemma_children, optional_attr, spec_attr, spec_children, spec_text, text,
    viewed, SharedError,
};
use crate::text::{str_eq, texts};
use crate::tree::{Attr, Node, Tag};
use vstd::prelude::*;
use vstd::string::StringExecFns;

verus! {

/// One gloss of a kanji.
#[derive(Debug, Clone, PartialEq, Eq, PartialOrd, Ord, Hash)]
pub struct Translation {
    /// The gloss.
    pub text: String,
    /// The tag of the language in which the gloss is written.
    pub language: String,
}

/// What `Translation` holds, as plain values.
pub struct TranslationView {
    pub text: Seq<char>,
    pub language: Seq<char>,
}

/// Why a node could not be decoded as a gloss.
#[derive(Debug, Clone, Copy, PartialEq, Eq, Hash)]
pub enum TranslationError {
    /// A node could not be read.
    Shared(SharedError),
}

/// The glosses of one language, in the order in which they were added.
#[derive(Debug, Clone, PartialEq, Eq)]
pub struct Glosses {
    language: String,
    glosses: Vec<String>,
}

/// The glosses of a kanji by language: a map from the tag of a language to the
/// glosses in that language, in the order in which they were added. Two values
/// are equal where they are the same map.
#[derive(Debug)]
pub struct Translations {
    entries: Vec<Glosses>,
}

impl View for Translation {
    type V = TranslationView;

    open spec fn view(&self) -> TranslationView {
        TranslationView { text: self.text@, language: self.language@ }
    }
}

/// The views of `items`, in order.
pub open spec fn views(items: Seq<Translation>) -> Seq<TranslationView> {
    items.map_values(|t: Translation| t@)
}

/// The tag of the language of a gloss that names none.
pub open spec fn spec_default_language() -> Seq<char> {
    "en"@
}

/// The gloss that `node` writes: its text, in the language that its attribute
/// `m_lang` names, or in English where it has no such attribute.
pub open spec fn spec_translation(node: Node) -> Result<TranslationView, TranslationError> {
    match spec_text(node) {
        None => Err(TranslationError::Shared(SharedError::MissingText(spec_pos(node)))),
        Some(text) => Ok(
            TranslationView {
                text,
                language: match spec_attr(node, Attr::MLang) {
                    Some(language) => language,
                    None => spec_default_language(),
                },
            },
        ),
    }
}

/// The glosses that `map` holds for `language`: none where it does not hold the
/// language.
pub open spec fn spec_glosses(map: Map<Seq<char>, Seq<Seq<char>>>, language: Seq<char>) -> Seq<
    Seq<char>,
> {
    if map.contains_key(language) {
        map[language]
    } else {
        Seq::empty()
    }
}

/// `map` with `gloss` added at the end of the glosses of `language`.
pub open spec fn spec_add(
    map: Map<Seq<char>, Seq<Seq<char>>>,
    language: Seq<char>,
    gloss: Seq<char>,
) -> Map<Seq<char>, Seq<Seq<char>>> {
    map.insert(language, spec_glosses(map, language).push(gloss))
}

/// The glosses of `items` by language: under each language that occurs, the
/// glosses in that language in the order of `items`.
pub open spec fn spec_gather(items: Seq<TranslationView>) -> Map<Seq<char>, Seq<Seq<char>>>
    decreases items.len(),
{
    if items.len() == 0 {
        Map::empty()
    } else {
        spec_add(spec_gather(items.drop_last()), items.last().language, items.last().text)
    }
}

/// The translations under `rmgroup`: the glosses of its `meaning` children,
/// gathered by language.
pub open spec fn spec_from(rmgroup: Node) -> Result<
    Map<Seq<char>, Seq<Seq<char>>>,
    TranslationError,
> {
    match collect(
        spec_children(rmgroup, Tag::Meaning).map_values(|n: Node| spec_translation(n)),
    ) {
        Err(e) => Err(e),
        Ok(items) => Ok(spec_gather(items)),
    }
}

/// The map that a list of entries stands for.
pub closed spec fn entries_map(entries: Seq<Glosses>) -> Map<Seq<char>, Seq<Seq<char>>>
    decreases entries.len(),
{
    if entries.len() == 0 {
        Map::empty()
    } else {
        entries_map(entries.drop_last()).insert(
            entries.last().language@,
            texts(entries.last().glosses@),
        )
    }
}

/// Whether no language occurs twice in `entries`.
pub closed spec fn distinct(entries: Seq<Glosses>) -> bool {
    forall|i: int, j: int|
        0 <= i < j < entries.len() ==> entries[i].language@ != entries[j].language@
}

proof fn lemma_contains(entries: Seq<Glosses>, language: Seq<char>)
    ensures
        entries_map(entries).contains_key(language) <==> exists|i: int|
            0 <= i < entries.len() && entries[i].language@ == language,
    decreases entries.len(),
{
    if entries.len() > 0 {
        let before = entries.drop_last();
        lemma_contains(before, language);
        if entries_map(entries).contains_key(language) {
            if entries.last().language@ == language {
                assert(entries[entries.len() - 1].language@ == language);
            } else {
                let i = choose|i: int| 0 <= i < before.len() && before[i].language@ == language;
                assert(entries[i].language@ == language);
            }
        }
        if exists|i: int| 0 <= i < entries.len() && entries[i].language@ == language {
            let i = choose|i: int| 0 <= i < entries.len() && entries[i].language@ == language;
            if i < entries.len() - 1 {
                assert(before[i].language@ == language);
            }
        }
    }
}

proof fn lemma_lookup(entries: Seq<Glosses>, i: int)
    requires
        distinct(entries),
        0 <= i < entries.len(),
    ensures
        entries_map(entries).contains_key(entries[i].language@),
        entries_map(entries)[entries[i].language@] == texts(entries[i].glosses@),
    decreases entries.len(),
{
    if i < entries.len() - 1 {
        let before = entries.drop_last();
        assert(before[i] == entries[i]);
        lemma_lookup(before, i);
    }
}

proof fn lemma_replace(entries: Seq<Glosses>, i: int, entry: Glosses)
    requires
        distinct(entries),
        0 <= i < entries.len(),
        entry.language@ == entries[i].language@,
    ensures
        distinct(entries.update(i, entry)),
        entries_map(entries.update(i, entry)) == entries_map(entries).insert(
            entry.language@,
            texts(entry.glosses@),
        ),
    decreases entries.len(),
{
    let after = entries.update(i, entry);
    assert(distinct(after)) by {
        assert forall|a: int, b: int| 0 <= a < b < after.len() implies after[a].language@
            != after[b].language@ by {
            assert(after[a].language@ == entries[a].language@);
            assert(after[b].language@ == entries[b].language@);
        }
    }
    if i == entries.len() - 1 {
        assert(after.drop_last() =~= entries.drop_last());
        assert(entries_map(after) =~= entries_map(entries).insert(
            entry.language@,
            texts(entry.glosses@),
        ));
    } else {
        let before = entries.drop_last();
        assert(before[i] == entries[i]);
        lemma_replace(before, i, entry);
        assert(after.drop_last() =~= before.update(i, entry));
        assert(after.last() == entries.last());
        assert(entries.last().language@ != entry.language@);
        assert(entries_map(after) =~= entries_map(entries).insert(
            entry.language@,
            texts(entry.glosses@),
        ));
    }
}

impl View for Translations {
    type V = Map<Seq<char>, Seq<Seq<char>>>;

    closed spec fn view(&self) -> Map<Seq<char>, Seq<Seq<char>>> {
        entries_map(self.entries@)
    }
}

impl Translation {
    /// Decodes the gloss that `node` writes.
    pub fn try_from(node: &Node) -> (r: Result<Translation, TranslationError>)
        ensures
            viewed(r) == spec_translation(*node),
    {
        let text = match text(node) {
            Ok(text) => text,
            Err(e) => {
                return Err(TranslationError::Shared(e));
            },
        };
        let language = match optional_attr(node, Attr::MLang) {
            Some(language) => language,
            None => "en",
        };
        Ok(Translation { text: text.to_owned(), language: language.to_owned() })
    }
}

impl Translations {
    #[verifier::type_invariant]
    spec fn well_formed(self) -> bool {
        distinct(self.entries@)
    }

    /// No translations.
    pub fn new() -> (r: Translations)
        ensures
            r@ == Map::<Seq<char>, Seq<Seq<char>>>::empty(),
    {
        let r = Translations { entries: Vec::new() };
        assert(r.entries@.len() == 0);
        r
    }

    /// The number of languages.
    pub fn len(&self) -> (r: usize)
        ensures
            self@.dom().finite(),
            r == self@.dom().len(),
    {
        proof {
            use_type_invariant(self);
            lemma_size(self.entries@);
        }
        self.entries.len()
    }

    /// The glosses in `language`, if there are any.
    pub fn get(&self, language: &str) -> (r: Option<&Vec<String>>)
        ensures
            match r {
                Some(glosses) => self@.contains_key(language@) && self@[language@] == texts(
                    glosses@,
                ),
                None => !self@.contains_key(language@),
            },
    {
        proof {
            use_type_invariant(self);
        }
        let mut i: usize = 0;
        while i < self.entries.len()
            invariant
                i <= self.entries@.len(),
                distinct(self.entries@),
                forall|j: int| 0 <= j < i ==> self.entries@[j].language@ != language@,
            decreases self.entries@.len() - i,
        {
            if str_eq(self.entries[i].language.as_str(), language) {
                proof {
                    lemma_lookup(self.entries@, i as int);
                }
                return Some(&self.entries[i].glosses);
            }
            i += 1;
        }
        proof {
            lemma_contains(self.entries@, language@);
        }
        None
    }

    /// Adds `gloss` after the glosses that are there in `language`.
    pub fn add(&mut self, language: &str, gloss: String)
        ensures
            final(self)@ == spec_add(old(self)@, language@, gloss@),
    {
        proof {
            use_type_invariant(&*self);
        }
        let mut entries: Vec<Glosses> = Vec::new();
        core::mem::swap(&mut self.entries, &mut entries);
        let ghost before = entries@;
        let mut i: usize = 0;
        while i < entries.len()
            invariant
                i <= entries@.len(),
                entries@ == before,
                before == old(self).entries@,
                distinct(before),
                forall|j: int| 0 <= j < i ==> before[j].language@ != language@,
            decreases entries@.len() - i,
        {
            if str_eq(entries[i].language.as_str(), language) {
                let mut entry = entries.remove(i);
                let ghost had = entry.glosses@;
                entry.glosses.push(gloss);
                proof {
                    lemma_lookup(before, i as int);
                    lemma_replace(before, i as int, entry);
                    assert(texts(entry.glosses@) =~= texts(had).push(gloss@));
                }
                entries.insert(i, entry);
                assert(entries@ =~= before.update(i as int, entry));
                self.entries = entries;
                return ;
            }
            i += 1;
        }
        let mut glosses: Vec<String> = Vec::new();
        glosses.push(gloss);
        let entry = Glosses { language: language.to_owned(), glosses };
        entries.push(entry);
        proof {
            lemma_contains(before, language@);
            assert(entries@.drop_last() =~= before);
            assert(texts(entry.glosses@) =~= Seq::<Seq<char>>::empty().push(gloss@));
            assert(distinct(entries@)) by {
                assert forall|a: int, b: int| 0 <= a < b < entries@.len() implies entries@[a].language@
                    != entries@[b].language@ by {
                    assert(entries@[a] == before[a]);
                    if b < before.len() {
                        assert(entries@[b] == before[b]);
                    }
                }
            }
        }
        self.entries = entries;
    }

    /// The tags of the languages, each once.
    pub fn languages(&self) -> (r: Vec<String>)
        ensures
            r@.len() == self@.dom().len(),
            forall|i: int| 0 <= i < r@.len() ==> self@.contains_key(#[trigger] r@[i]@),
            forall|i: int, j: int| 0 <= i < j < r@.len() ==> r@[i]@ != r@[j]@,
    {
        proof {
            use_type_invariant(self);
            lemma_size(self.entries@);
        }
        let mut out: Vec<String> = Vec::new();
        let mut i: usize = 0;
        while i < self.entries.len()
            invariant
                i <= self.entries@.len(),
                out@.len() == i,
                distinct(self.entries@),
                forall|k: int| 0 <= k < i ==> out@[k]@ == self.entries@[k].language@,
            decreases self.entries@.len() - i,
        {
            out.push(self.entries[i].language.clone());
            i += 1;
        }
        proof {
            assert forall|k: int| 0 <= k < out@.len() implies self@.contains_key(
                #[trigger] out@[k]@,
            ) by {
                lemma_lookup(self.entries@, k);
            }
        }
        out
    }

    /// Gathers `items` by language.
    pub fn gather(items: &Vec<Translation>) -> (r: Translations)
        ensures
            r@ == spec_gather(views(items@)),
    {
        let mut out = Translations::new();
        let mut i: usize = 0;
        while i < items.len()
            invariant
                i <= items@.len(),
                out@ == spec_gather(views(items@).take(i as int)),
            decreases items@.len() - i,
        {
            proof {
                assert(views(items@).take(i + 1).drop_last() =~= views(items@).take(i as int));
            }
            out.add(items[i].language.as_str(), items[i].text.clone());
            i += 1;
        }
        proof {
            assert(views(items@).take(i as int) =~= views(items@));
        }
        out
    }
}

/// Whether two lists hold the same texts in the same order.
pub fn same_texts(a: &Vec<String>, b: &Vec<String>) -> (r: bool)
    ensures
        r == (texts(a@) == texts(b@)),
{
    if a.len() != b.len() {
        assert(texts(a@).len() != texts(b@).len());
        return false;
    }
    let mut i: usize = 0;
    while i < a.len()
        invariant
            i <= a@.len(),
            a@.len() == b@.len(),
            forall|k: int| 0 <= k < i ==> a@[k]@ == b@[k]@,
        decreases a@.len() - i,
    {
        if !(a[i] == b[i]) {
            assert(texts(a@)[i as int] != texts(b@)[i as int]);
            return false;
        }
        i += 1;
    }
    assert(texts(a@) =~= texts(b@));
    true
}

proof fn lemma_same_entries(a: Seq<Glosses>, b: Seq<Glosses>)
    requires
        a.len() == b.len(),
        forall|i: int|
            0 <= i < a.len() ==> a[i].language@ == b[i].language@ && texts(a[i].glosses@) == texts(
                b[i].glosses@,
            ),
    ensures
        entries_map(a) == entries_map(b),
        distinct(a) ==> distinct(b),
    decreases a.len(),
{
    if a.len() > 0 {
        lemma_same_entries(a.drop_last(), b.drop_last());
    }
}

/// A copy of `list`.
pub fn copy_texts(list: &Vec<String>) -> (r: Vec<String>)
    ensures
        texts(r@) == texts(list@),
{
    let mut out: Vec<String> = Vec::new();
    let mut i: usize = 0;
    while i < list.len()
        invariant
            i <= list@.len(),
            out@.len() == i,
            forall|k: int| 0 <= k < i ==> out@[k]@ == list@[k]@,
        decreases list@.len() - i,
    {
        out.push(list[i].clone());
        i += 1;
    }
    assert(texts(out@) =~= texts(list@));
    out
}

impl Default for Translations {
    /// No translations.
    fn default() -> (r: Self)
        ensures
            r@ == Map::<Seq<char>, Seq<Seq<char>>>::empty(),
    {
        Translations::new()
    }
}

impl Clone for Translations {
    fn clone(&self) -> (r: Self)
        ensures
            r@ == self@,
    {
        proof {
            use_type_invariant(self);
        }
        let mut entries: Vec<Glosses> = Vec::new();
        let mut i: usize = 0;
        while i < self.entries.len()
            invariant
                i <= self.entries@.len(),
                entries@.len() == i,
                forall|k: int|
                    0 <= k < i ==> entries@[k].language@ == self.entries@[k].language@ && texts(
                        entries@[k].glosses@,
                    ) == texts(self.entries@[k].glosses@),
            decreases self.entries@.len() - i,
        {
            entries.push(
                Glosses {
                    language: self.entries[i].language.clone(),
                    glosses: copy_texts(&self.entries[i].glosses),
                },
            );
            i += 1;
        }
        proof {
            lemma_same_entries(self.entries@, entries@);
        }
        Translations { entries }
    }
}

impl PartialEq for Translations {
    /// Whether both hold the same languages with the same glosses, in whatever
    /// order the languages stand.
    fn eq(&self, other: &Self) -> (r: bool) {
        proof {
            use_type_invariant(self);
            use_type_invariant(other);
            lemma_size(self.entries@);
            lemma_size(other.entries@);
        }
        if self.entries.len() != other.entries.len() {
            return false;
        }
        let mut i: usize = 0;
        while i < self.entries.len()
            invariant
                i <= self.entries@.len(),
                distinct(self.entries@),
                forall|k: int|
                    0 <= k < i ==> other@.contains_key(#[trigger] self.entries@[k].language@)
                        && other@[self.entries@[k].language@] == texts(self.entries@[k].glosses@),
            decreases self.entries@.len() - i,
        {
            proof {
                lemma_lookup(self.entries@, i as int);
            }
            match other.get(self.entries[i].language.as_str()) {
                None => {
                    return false;
                },
                Some(glosses) => {
                    if !same_texts(&self.entries[i].glosses, glosses) {
                        return false;
                    }
                },
            }
            i += 1;
        }
        proof {
            assert forall|language: Seq<char>| #[trigger]
                self@.dom().contains(language) implies other@.dom().contains(language)
                && self@[language] == other@[language] by {
                lemma_contains(self.entries@, language);
                let k = choose|k: int|
                    0 <= k < self.entries@.len() && self.entries@[k].language@ == language;
                lemma_lookup(self.entries@, k);
            }
            assert(self@.dom().subset_of(other@.dom()));
            vstd::set_lib::lemma_subset_equality(self@.dom(), other@.dom());
            assert(self@ =~= other@);
        }
        true
    }
}

impl vstd::std_specs::cmp::PartialEqSpecImpl for Translations {
    open spec fn obeys_eq_spec() -> bool {
        true
    }

    open spec fn eq_spec(&self, other: &Self) -> bool {
        self@ == other@
    }
}

impl Eq for Translations {

}

proof fn lemma_size(entries: Seq<Glosses>)
    requires
        distinct(entries),
    ensures
        entries_map(entries).dom().finite(),
        entries_map(entries).dom().len() == entries.len(),
    decreases entries.len(),
{
    if entries.len() > 0 {
        let before = entries.drop_last();
        lemma_size(before);
        lemma_contains(before, entries.last().language@);
        assert(!entries_map(before).contains_key(entries.last().language@)) by {
            if entries_map(before).contains_key(entries.last().language@) {
                let i = choose|i: int|
                    0 <= i < before.len() && before[i].language@ == entries.last().language@;
                assert(entries[i].language@ == entries[entries.len() - 1].language@);
            }
        }
        assert(entries_map(entries).dom() =~= entries_map(before).dom().insert(
            entries.last().language@,
        ));
    }
}

/// Decodes the translations under `rmgroup`.
pub fn from(rmgroup: &Node) -> (r: Result<Translations, TranslationError>)
    ensures
        viewed(r) == spec_from(*rmgroup),
{
    let items = children(rmgroup, Tag::Meaning, Translation::try_from);
    proof {
        lemma_children(
            Translation::try_from,
            spec_children(*rmgroup, Tag::Meaning),
            items,
            |t: Translation| t@,
            |n: Node| spec_translation(n),
        );
    }
    match items {
        Ok(items) => Ok(Translations::gather(&items)),
        Err(e) => Err(e),
    }
}


impl TranslationError {
    /// What the error says: the component that reports it, then what went
    /// wrong, then what the error holds.
    pub open spec fn spec_message(self) -> Seq<char> {
        match self {
            TranslationError::Shared(error) => "(Translation) Shared: "@ + error.spec_message(),
        }
    }

    /// Appends what the error says to `out`.
    pub fn write(&self, out: &mut String)
        ensures
            final(out)@ == old(out)@ + self.spec_message(),
    {
        match *self {
            TranslationError::Shared(error) => {
                out.append("(Translation) Shared: ");
                error.write(out);
                assert(out@ =~= old(out)@ + self.spec_message());
            },
        }
    }

    /// What the error says.
    pub fn message(&self) -> (r: String)
        ensures
            r@ == self.spec_message(),
    {
        let mut out = String::new();
        self.write(&mut out);
        assert(out@ =~= self.spec_message());
        out
    }
}

} // verus!
