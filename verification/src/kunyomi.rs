//! A Japanese reading of native origin. A hyphen in front marks a reading that
//! is used as a suffix, a hyphen at the end one that is used as a prefix, and
//! dots divide the reading into the stem and what okurigana write.

use crate::pos_error::spec_pos;
use crate::shared::{spec_text, text, viewed, SharedError};
use crate::text::{chars_of, texts};
use crate::tree::Node;
use vstd::prelude::*;
use vstd::string::StringExecFns;
use vstd::string::StrSliceExecFns;

verus! {

/// A kunyomi kanji reading.
#[derive(Debug, Clone, PartialEq, Eq, PartialOrd, Ord, Hash)]
pub struct Kunyomi {
    /// Whether the reading is a prefix, a suffix or neither.
    pub kind: KunyomiKind,
    /// The parts of the reading that dots divide, in order.
    pub okurigana: Vec<String>,
}

/// What `Kunyomi` holds, as plain values.
pub struct KunyomiView {
    pub kind: KunyomiKind,
    pub okurigana: Seq<Seq<char>>,
}

/// The kind of kunyomi reading.
#[derive(Debug, Clone, Copy, PartialEq, Eq, PartialOrd, Ord, Hash)]
pub enum KunyomiKind {
    /// A normal reading
    Normal,
    /// A prefix
    Prefix,
    /// A suffix
    Suffix,
}

/// Why a node could not be decoded as a kunyomi.
#[derive(Debug, Clone, Copy, PartialEq, Eq, Hash)]
pub enum Error {
    /// The node could not be read.
    Shared(SharedError),
}

impl View for Kunyomi {
    type V = KunyomiView;

    open spec fn view(&self) -> KunyomiView {
        KunyomiView { kind: self.kind, okurigana: texts(self.okurigana@) }
    }
}

/// The position of the first dot at or after `from`, or the length of the text
/// where there is none.
pub open spec fn part_end(s: Seq<char>, from: int) -> int
    decreases s.len() - from,
{
    if 0 <= from < s.len() && s[from] != '.' {
        part_end(s, from + 1)
    } else {
        from
    }
}

/// The parts of `s` from `from` on that dots divide. A text without a dot is
/// one part; between two dots that follow each other stands an empty part.
pub open spec fn spec_split(s: Seq<char>, from: int) -> Seq<Seq<char>>
    decreases s.len() - from,
{
    let end = part_end(s, from);
    if 0 <= from <= end < s.len() {
        seq![s.subrange(from, end)] + spec_split(s, end + 1)
    } else {
        seq![s.subrange(from, s.len() as int)]
    }
}

/// The kind of reading that the hyphens of `s` mark.
pub open spec fn spec_kind(s: Seq<char>) -> KunyomiKind {
    if s.len() > 0 && s[0] == '-' {
        KunyomiKind::Suffix
    } else if s.len() > 0 && s.last() == '-' {
        KunyomiKind::Prefix
    } else {
        KunyomiKind::Normal
    }
}

/// The text of `s` without the hyphen that marks its kind.
pub open spec fn spec_body(s: Seq<char>) -> Seq<char> {
    match spec_kind(s) {
        KunyomiKind::Suffix => s.subrange(1, s.len() as int),
        KunyomiKind::Prefix => s.subrange(0, s.len() - 1),
        KunyomiKind::Normal => s,
    }
}

/// The reading that `s` writes.
pub open spec fn spec_parse(s: Seq<char>) -> KunyomiView {
    KunyomiView { kind: spec_kind(s), okurigana: spec_split(spec_body(s), 0) }
}

/// The reading that `node` writes as its text.
pub open spec fn spec_from(node: Node) -> Result<KunyomiView, Error> {
    match spec_text(node) {
        None => Err(Error::Shared(SharedError::MissingText(spec_pos(node)))),
        Some(s) => Ok(spec_parse(s)),
    }
}

/// A part ends at the first dot.
pub proof fn lemma_part_end(s: Seq<char>, from: int, end: int)
    requires
        0 <= from <= end <= s.len(),
        forall|k: int| from <= k < end ==> s[k] != '.',
        end == s.len() || s[end] == '.',
    ensures
        part_end(s, from) == end,
    decreases end - from,
{
    if from < end {
        lemma_part_end(s, from + 1, end);
    }
}

/// Divides `text` at its dots.
pub fn split(text: &str) -> (r: Vec<String>)
    ensures
        texts(r@) == spec_split(text@, 0),
{
    let s = chars_of(text);
    let mut out: Vec<String> = Vec::new();
    let mut from: usize = 0;
    let mut i: usize = 0;
    while i < s.len()
        invariant
            from <= i <= s@.len(),
            s@ == text@,
            forall|k: int| from <= k < i ==> s@[k] != '.',
            texts(out@) + spec_split(s@, from as int) == spec_split(s@, 0),
        decreases s@.len() - i,
    {
        if s[i] == '.' {
            proof {
                lemma_part_end(s@, from as int, i as int);
            }
            let part = text.substring_char(from, i).to_owned();
            let ghost before = out@;
            out.push(part);
            proof {
                assert(texts(out@) =~= texts(before) + seq![s@.subrange(from as int, i as int)]);
                assert(texts(out@) + spec_split(s@, i + 1) =~= texts(before) + spec_split(
                    s@,
                    from as int,
                ));
            }
            from = i + 1;
        }
        i += 1;
    }
    proof {
        lemma_part_end(s@, from as int, s@.len() as int);
    }
    let part = text.substring_char(from, s.len()).to_owned();
    let ghost before = out@;
    out.push(part);
    proof {
        assert(texts(out@) =~= texts(before) + seq![s@.subrange(from as int, s@.len() as int)]);
    }
    out
}

impl Kunyomi {
    /// Reads the reading that `text` writes.
    pub fn parse(text: &str) -> (r: Kunyomi)
        ensures
            r@ == spec_parse(text@),
    {
        let s = chars_of(text);
        let n = s.len();
        if n > 0 && s[0] == '-' {
            Kunyomi { kind: KunyomiKind::Suffix, okurigana: split(text.substring_char(1, n)) }
        } else if n > 0 && s[n - 1] == '-' {
            Kunyomi { kind: KunyomiKind::Prefix, okurigana: split(text.substring_char(0, n - 1)) }
        } else {
            Kunyomi { kind: KunyomiKind::Normal, okurigana: split(text) }
        }
    }
}

/// Decodes the reading that `node` writes.
pub fn from(node: &Node) -> (r: Result<Kunyomi, Error>)
    ensures
        viewed(r) == spec_from(*node),
{
    match text(node) {
        Ok(s) => Ok(Kunyomi::parse(s)),
        Err(e) => Err(Error::Shared(e)),
    }
}


impl Error {
    /// What the error says: the component that reports it, then what went
    /// wrong, then what the error holds.
    pub open spec fn spec_message(self) -> Seq<char> {
        match self {
            Error::Shared(error) => "(Kunyomi) Shared: "@ + error.spec_message(),
        }
    }

    /// Appends what the error says to `out`.
    pub fn write(&self, out: &mut String)
        ensures
            final(out)@ == old(out)@ + self.spec_message(),
    {
        match *self {
            Error::Shared(error) => {
                out.append("(Kunyomi) Shared: ");
                error.write(out);
                assert(out@ =~= old(out)@ + self.spec_message());
            },
        }
    }

    /// What the error says.
    pub fn message(&self) -> (r: String)
        ensures
            r@ == self.spec_message(),
    {
        let mut out = String::new();
        self.write(&mut out);
        assert(out@ =~= self.spec_message());
        out
    }
}


/// The parts written one after the other with a dot between each two.
pub open spec fn spec_join(parts: Seq<Seq<char>>) -> Seq<char>
    decreases parts.len(),
{
    if parts.len() == 0 {
        Seq::empty()
    } else if parts.len() == 1 {
        parts[0]
    } else {
        parts[0] + seq!['.'] + spec_join(parts.drop_first())
    }
}

/// The text that writes `reading`: its parts with dots between them, after a
/// hyphen for a suffix and before a hyphen for a prefix.
pub open spec fn spec_encode(reading: KunyomiView) -> Seq<char> {
    match reading.kind {
        KunyomiKind::Suffix => seq!['-'] + spec_join(reading.okurigana),
        KunyomiKind::Prefix => spec_join(reading.okurigana) + seq!['-'],
        KunyomiKind::Normal => spec_join(reading.okurigana),
    }
}

/// What `part_end` returns is a dot or the end of the text, and no dot stands
/// before it.
pub proof fn lemma_part_end_bounds(s: Seq<char>, from: int)
    requires
        0 <= from <= s.len(),
    ensures
        from <= part_end(s, from) <= s.len(),
        forall|k: int| from <= k < part_end(s, from) ==> s[k] != '.',
        part_end(s, from) == s.len() || s[part_end(s, from)] == '.',
    decreases s.len() - from,
{
    if from < s.len() && s[from] != '.' {
        lemma_part_end_bounds(s, from + 1);
    }
}

/// Dividing a text at its dots and joining the parts with dots gives the text
/// back, there is at least one part, and no part holds a dot.
pub proof fn lemma_join_split(s: Seq<char>, from: int)
    requires
        0 <= from <= s.len(),
    ensures
        spec_split(s, from).len() >= 1,
        spec_join(spec_split(s, from)) == s.subrange(from, s.len() as int),
        forall|i: int, k: int|
            0 <= i < spec_split(s, from).len() && 0 <= k < spec_split(s, from)[i].len()
                ==> spec_split(s, from)[i][k] != '.',
    decreases s.len() - from,
{
    let end = part_end(s, from);
    lemma_part_end_bounds(s, from);
    if end < s.len() {
        let rest = spec_split(s, end + 1);
        let parts = seq![s.subrange(from, end)] + rest;
        lemma_join_split(s, end + 1);
        assert(parts.drop_first() =~= rest);
        assert(parts[0] == s.subrange(from, end));
        assert(spec_join(parts) =~= s.subrange(from, s.len() as int));
        assert forall|i: int, k: int|
            0 <= i < parts.len() && 0 <= k < parts[i].len() implies parts[i][k] != '.' by {
            if i > 0 {
                assert(parts[i] == rest[i - 1]);
            }
        }
    }
}

/// Writing the reading that a text decodes to gives the text back.
pub proof fn lemma_encode_parse(s: Seq<char>)
    ensures
        spec_encode(spec_parse(s)) == s,
{
    let body = spec_body(s);
    lemma_join_split(body, 0);
    assert(body.subrange(0, body.len() as int) =~= body);
    match spec_kind(s) {
        KunyomiKind::Suffix => {
            assert(seq!['-'] + body =~= s);
        },
        KunyomiKind::Prefix => {
            assert(body + seq!['-'] =~= s);
        },
        KunyomiKind::Normal => {},
    }
}

/// Joining one more part adds a dot and the part.
pub proof fn lemma_join_push(parts: Seq<Seq<char>>, part: Seq<char>)
    requires
        parts.len() > 0,
    ensures
        spec_join(parts.push(part)) == spec_join(parts) + seq!['.'] + part,
    decreases parts.len(),
{
    let all = parts.push(part);
    assert(all.drop_first() =~= parts.drop_first().push(part));
    assert(all[0] == parts[0]);
    if parts.len() == 1 {
        assert(parts.drop_first().push(part) =~= seq![part]);
        assert(spec_join(seq![part]) == part);
    } else {
        lemma_join_push(parts.drop_first(), part);
        assert(spec_join(all) =~= spec_join(parts) + seq!['.'] + part);
    }
}

impl Kunyomi {
    /// Writes the reading as text.
    pub fn encode(&self) -> (r: String)
        ensures
            r@ == spec_encode(self@),
    {
        proof {
            reveal_strlit("-");
            reveal_strlit(".");
            assert("-"@ =~= seq!['-']);
            assert("."@ =~= seq!['.']);
        }
        let mut out = String::new();
        match self.kind {
            KunyomiKind::Suffix => {
                out.append("-");
            },
            _ => {},
        }
        let ghost head = out@;
        let ghost parts = texts(self.okurigana@);
        let mut i: usize = 0;
        while i < self.okurigana.len()
            invariant
                i <= self.okurigana@.len(),
                parts == texts(self.okurigana@),
                "."@ == seq!['.'],
                out@ == head + spec_join(parts.take(i as int)),
            decreases self.okurigana@.len() - i,
        {
            proof {
                assert(parts.take(i + 1) =~= parts.take(i as int).push(parts[i as int]));
                if i > 0 {
                    lemma_join_push(parts.take(i as int), parts[i as int]);
                }
            }
            if i > 0 {
                out.append(".");
            }
            out.append(self.okurigana[i].as_str());
            assert(out@ =~= head + spec_join(parts.take(i + 1)));
            i += 1;
        }
        assert(parts.take(i as int) =~= parts);
        match self.kind {
            KunyomiKind::Prefix => {
                out.append("-");
            },
            _ => {},
        }
        assert(out@ =~= spec_encode(self@));
        out
    }
}

} // verus!
