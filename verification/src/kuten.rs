//! The row-and-column code of a character in one of the JIS character sets,
//! written as three decimal numbers that hyphens separate.

use crate::pos_error::{spec_pos, PosError};
use crate::shared::{spec_text, text, SharedError};
use crate::text::{
    chars_of, digits_end, expect, is_canonical_decimal, lemma_canonical_decimal,
    lemma_digits_end_bounds, lemma_take_decimal, push_decimal, spec_decimal, spec_expect,
    spec_take_uint, take_uint, Malformed,
};
use crate::tree::Node;
use vstd::prelude::*;
use vstd::string::StringExecFns;

verus! {

/// A code point of a JIS character set: plane, row (ku) and column (ten).
#[derive(Debug, Clone, Copy, PartialEq, Eq, PartialOrd, Ord, Hash)]
pub struct Kuten {
    pub plane: u8,
    pub ku: u8,
    pub ten: u8,
}

/// Why a node could not be decoded as a kuten code.
#[derive(Debug, Clone, Copy, PartialEq, Eq, Hash)]
pub enum KutenError {
    /// The node could not be read.
    Shared(SharedError),
    /// The node's text is no kuten code.
    Format(PosError, Malformed),
}

/// The code that `s` begins with: plane, `-`, ku, `-`, ten, each a decimal
/// number of at most 255. What follows the third number is not read.
pub open spec fn spec_parse(s: Seq<char>) -> Result<Kuten, Malformed> {
    match spec_take_uint(s, 0, 10, 0xff) {
        Err(e) => Err(e),
        Ok((plane, i)) => match spec_expect(s, i, '-') {
            Err(e) => Err(e),
            Ok(i) => match spec_take_uint(s, i, 10, 0xff) {
                Err(e) => Err(e),
                Ok((ku, j)) => match spec_expect(s, j, '-') {
                    Err(e) => Err(e),
                    Ok(j) => match spec_take_uint(s, j, 10, 0xff) {
                        Err(e) => Err(e),
                        Ok((ten, _)) => Ok(
                            Kuten { plane: plane as u8, ku: ku as u8, ten: ten as u8 },
                        ),
                    },
                },
            },
        },
    }
}

/// The text of `kuten`: its three numbers without leading zeros, with hyphens
/// between them.
pub open spec fn spec_encode(kuten: Kuten) -> Seq<char> {
    spec_decimal(kuten.plane as nat) + seq!['-'] + spec_decimal(kuten.ku as nat) + seq!['-']
        + spec_decimal(kuten.ten as nat)
}

/// Whether `s` is a kuten code in the form in which `spec_encode` writes one:
/// three canonical decimals with a hyphen after the first and the second, and
/// nothing after the third.
pub open spec fn is_canonical(s: Seq<char>) -> bool {
    let i = digits_end(s, 0, 10);
    let j = digits_end(s, i + 1, 10);
    let k = digits_end(s, j + 1, 10);
    &&& is_canonical_decimal(s.subrange(0, i))
    &&& i < s.len() && s[i] == '-'
    &&& is_canonical_decimal(s.subrange(i + 1, j))
    &&& j < s.len() && s[j] == '-'
    &&& is_canonical_decimal(s.subrange(j + 1, k))
    &&& k == s.len()
}

/// The kuten code of a node: the code that the node's text begins with.
pub open spec fn spec_from(node: Node) -> Result<Kuten, KutenError> {
    match spec_text(node) {
        None => Err(KutenError::Shared(SharedError::MissingText(spec_pos(node)))),
        Some(s) => match spec_parse(s) {
            Ok(kuten) => Ok(kuten),
            Err(e) => Err(KutenError::Format(spec_pos(node), e)),
        },
    }
}

impl Kuten {
    /// Reads a kuten code from the beginning of `text`.
    pub fn try_from(text: &str) -> (r: Result<Kuten, Malformed>)
        ensures
            r == spec_parse(text@),
    {
        let s = chars_of(text);
        let (plane, i) = match take_uint(&s, 0, 10, 0xff) {
            Ok(found) => found,
            Err(e) => {
                return Err(e);
            },
        };
        let i = match expect(&s, i, '-') {
            Ok(i) => i,
            Err(e) => {
                return Err(e);
            },
        };
        let (ku, j) = match take_uint(&s, i, 10, 0xff) {
            Ok(found) => found,
            Err(e) => {
                return Err(e);
            },
        };
        let j = match expect(&s, j, '-') {
            Ok(j) => j,
            Err(e) => {
                return Err(e);
            },
        };
        let (ten, _) = match take_uint(&s, j, 10, 0xff) {
            Ok(found) => found,
            Err(e) => {
                return Err(e);
            },
        };
        Ok(Kuten { plane: plane as u8, ku: ku as u8, ten: ten as u8 })
    }

    /// Writes the code as text.
    pub fn encode(&self) -> (r: String)
        ensures
            r@ == spec_encode(*self),
    {
        let mut out = String::new();
        push_decimal(&mut out, self.plane as u64);
        out.append("-");
        push_decimal(&mut out, self.ku as u64);
        out.append("-");
        push_decimal(&mut out, self.ten as u64);
        proof {
            reveal_strlit("-");
            assert("-"@ =~= seq!['-']);
            assert(out@ =~= spec_encode(*self));
        }
        out
    }
}

/// Decodes the kuten code that is the text of `node`.
pub fn from(node: &Node) -> (r: Result<Kuten, KutenError>)
    ensures
        r == spec_from(*node),
{
    let s = match text(node) {
        Ok(s) => s,
        Err(e) => {
            return Err(KutenError::Shared(e));
        },
    };
    match Kuten::try_from(s) {
        Ok(kuten) => Ok(kuten),
        Err(e) => Err(KutenError::Format(PosError::from(node), e)),
    }
}

/// Decoding the text of a code gives the code back.
pub proof fn lemma_parse_encode(kuten: Kuten)
    ensures
        spec_parse(spec_encode(kuten)) == Ok::<Kuten, Malformed>(kuten),
        is_canonical(spec_encode(kuten)),
{
    let plane = spec_decimal(kuten.plane as nat);
    let ku = spec_decimal(kuten.ku as nat);
    let ten = spec_decimal(kuten.ten as nat);
    let dash = seq!['-'];
    let s = spec_encode(kuten);
    let i = plane.len() as int;
    let j = i + 1 + ku.len();
    let k = j + 1 + ten.len();
    assert(s =~= Seq::<char>::empty() + plane + (dash + ku + dash + ten));
    lemma_take_decimal(Seq::empty(), kuten.plane as nat, dash + ku + dash + ten, 0xff);
    assert(s[i] == '-');
    assert(s =~= (plane + dash) + ku + (dash + ten));
    lemma_take_decimal(plane + dash, kuten.ku as nat, dash + ten, 0xff);
    assert(s[j] == '-');
    assert(s =~= (plane + dash + ku + dash) + ten + Seq::<char>::empty());
    lemma_take_decimal(plane + dash + ku + dash, kuten.ten as nat, Seq::empty(), 0xff);
    crate::text::lemma_decimal_value(kuten.plane as nat);
    crate::text::lemma_decimal_value(kuten.ku as nat);
    crate::text::lemma_decimal_value(kuten.ten as nat);
    assert(s.subrange(0, i) =~= plane);
    assert(s.subrange(i + 1, j) =~= ku);
    assert(s.subrange(j + 1, k) =~= ten);
}

/// Writing the code that a canonical text decodes to gives the text back.
pub proof fn lemma_encode_parse(s: Seq<char>, kuten: Kuten)
    requires
        spec_parse(s) == Ok::<Kuten, Malformed>(kuten),
        is_canonical(s),
    ensures
        spec_encode(kuten) == s,
{
    let i = digits_end(s, 0, 10);
    let j = digits_end(s, i + 1, 10);
    let k = digits_end(s, j + 1, 10);
    lemma_digits_end_bounds(s, 0, 10);
    lemma_digits_end_bounds(s, i + 1, 10);
    lemma_digits_end_bounds(s, j + 1, 10);
    lemma_canonical_decimal(s.subrange(0, i));
    lemma_canonical_decimal(s.subrange(i + 1, j));
    lemma_canonical_decimal(s.subrange(j + 1, k));
    assert(s =~= s.subrange(0, i) + seq!['-'] + s.subrange(i + 1, j) + seq!['-'] + s.subrange(
        j + 1,
        k,
    ));
}


impl KutenError {
    /// What the error says: the component that reports it, then what went
    /// wrong, then what the error holds.
    pub open spec fn spec_message(self) -> Seq<char> {
        match self {
            KutenError::Shared(error) => "(Kuten) Shared: "@ + error.spec_message(),
            KutenError::Format(pos, reason) => "(Kuten) Format: "@ + pos.spec_message() + ", "@ + reason.spec_message(),
        }
    }

    /// Appends what the error says to `out`.
    pub fn write(&self, out: &mut String)
        ensures
            final(out)@ == old(out)@ + self.spec_message(),
    {
        match *self {
            KutenError::Shared(error) => {
                out.append("(Kuten) Shared: ");
                error.write(out);
                assert(out@ =~= old(out)@ + self.spec_message());
            },
            KutenError::Format(pos, reason) => {
                out.append("(Kuten) Format: ");
                pos.write(out);
                out.append(", ");
                reason.write(out);
                assert(out@ =~= old(out)@ + self.spec_message());
            },
        }
    }

    /// What the error says.
    pub fn message(&self) -> (r: String)
        ensures
            r@ == self.spec_message(),
    {
        let mut out = String::new();
        self.write(&mut out);
        assert(out@ =~= self.spec_message());
        out
    }
}

} // verus!
