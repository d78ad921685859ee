//! The code of a kanji in a character encoding.

use crate::kuten::{Kuten, KutenError};
use crate::pos_error::{spec_pos, PosError};
use crate::shared::{attr, spec_attr, spec_text_uint, text_uint, SharedError};
use crate::text::str_eq;
use crate::tree::{Attr, Node};
use vstd::prelude::*;
use vstd::string::StringExecFns;

verus! {

/// The code of a kanji in one encoding.
#[derive(Debug, Clone, Copy, PartialEq, Eq, PartialOrd, Ord, Hash)]
pub enum Codepoint {
    /// Encoding in JIS X 0208-1997
    Jis208(Kuten),
    /// Encoding in JIS X 0212-1990
    Jis212(Kuten),
    /// Encoding in JIS X 0213-2000
    Jis213(Kuten),
    /// Unicode scalar value
    Unicode(u32),
}

/// Why a node could not be decoded as a codepoint.
#[derive(Debug, Clone, Copy, PartialEq, Eq, Hash)]
pub enum CodepointError {
    /// The node could not be read.
    Shared(SharedError),
    /// The node's text is no kuten code.
    Kuten(KutenError),
    /// The node's `cp_type` names no known encoding.
    Encoding(PosError),
}

/// The code that a kuten decoder's outcome comes to under the encoding named
/// `name`.
pub open spec fn spec_jis(name: Seq<char>, kuten: Result<Kuten, KutenError>) -> Result<
    Codepoint,
    CodepointError,
> {
    match kuten {
        Err(e) => Err(CodepointError::Kuten(e)),
        Ok(k) => if name == "jis208"@ {
            Ok(Codepoint::Jis208(k))
        } else if name == "jis212"@ {
            Ok(Codepoint::Jis212(k))
        } else {
            Ok(Codepoint::Jis213(k))
        },
    }
}

/// The code that `node` writes. Its attribute `cp_type` names the encoding:
/// `jis208`, `jis212` and `jis213` take a kuten code as text, `ucs` takes a
/// hexadecimal number.
pub open spec fn spec_from(node: Node) -> Result<Codepoint, CodepointError> {
    match spec_attr(node, Attr::CpType) {
        None => Err(
            CodepointError::Shared(SharedError::MissingAttribute(spec_pos(node), Attr::CpType)),
        ),
        Some(name) => if name == "jis208"@ || name == "jis212"@ || name == "jis213"@ {
            spec_jis(name, crate::kuten::spec_from(node))
        } else if name == "ucs"@ {
            match spec_text_uint(node, 16, 0xffff_ffff) {
                Err(e) => Err(CodepointError::Shared(e)),
                Ok(n) => Ok(Codepoint::Unicode(n as u32)),
            }
        } else {
            Err(CodepointError::Encoding(spec_pos(node)))
        },
    }
}

/// Decodes the code that `node` writes.
pub fn from(node: &Node) -> (r: Result<Codepoint, CodepointError>)
    ensures
        r == spec_from(*node),
{
    let name = match attr(node, Attr::CpType) {
        Ok(name) => name,
        Err(e) => {
            return Err(CodepointError::Shared(e));
        },
    };
    if str_eq(name, "jis208") {
        match crate::kuten::from(node) {
            Ok(k) => Ok(Codepoint::Jis208(k)),
            Err(e) => Err(CodepointError::Kuten(e)),
        }
    } else if str_eq(name, "jis212") {
        match crate::kuten::from(node) {
            Ok(k) => Ok(Codepoint::Jis212(k)),
            Err(e) => Err(CodepointError::Kuten(e)),
        }
    } else if str_eq(name, "jis213") {
        match crate::kuten::from(node) {
            Ok(k) => Ok(Codepoint::Jis213(k)),
            Err(e) => Err(CodepointError::Kuten(e)),
        }
    } else if str_eq(name, "ucs") {
        match text_uint(node, 16, 0xffff_ffff) {
            Ok(n) => Ok(Codepoint::Unicode(n)),
            Err(e) => Err(CodepointError::Shared(e)),
        }
    } else {
        Err(CodepointError::Encoding(PosError::from(node)))
    }
}


impl CodepointError {
    /// What the error says: the component that reports it, then what went
    /// wrong, then what the error holds.
    pub open spec fn spec_message(self) -> Seq<char> {
        match self {
            CodepointError::Shared(error) => "(Codepoint) Shared: "@ + error.spec_message(),
            CodepointError::Kuten(error) => "(Codepoint) Kuten: "@ + error.spec_message(),
            CodepointError::Encoding(pos) => "(Codepoint) Encoding: "@ + pos.spec_message(),
        }
    }

    /// Appends what the error says to `out`.
    pub fn write(&self, out: &mut String)
        ensures
            final(out)@ == old(out)@ + self.spec_message(),
    {
        match *self {
            CodepointError::Shared(error) => {
                out.append("(Codepoint) Shared: ");
                error.write(out);
                assert(out@ =~= old(out)@ + self.spec_message());
            },
            CodepointError::Kuten(error) => {
                out.append("(Codepoint) Kuten: ");
                error.write(out);
                assert(out@ =~= old(out)@ + self.spec_message());
            },
            CodepointError::Encoding(pos) => {
                out.append("(Codepoint) Encoding: ");
                pos.write(out);
                assert(out@ =~= old(out)@ + self.spec_message());
            },
        }
    }

    /// What the error says.
    pub fn message(&self) -> (r: String)
        ensures
            r@ == self.spec_message(),
    {
        let mut out = String::new();
        self.write(&mut out);
        assert(out@ =~= self.spec_message());
        out
    }
}

} // verus!
