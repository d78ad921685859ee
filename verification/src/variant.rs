//! A cross-reference from a kanji to a variant of it, or another index of the
//! same kanji.

use crate::de_roo::{DeRoo, DeRooError};
use crate::kuten::{Kuten, KutenError};
use crate::oneill::{Oneill, OneillParseError};
use crate::pos_error::{spec_pos, PosError};
use crate::sh_desc::{ShDesc, ShDescError};
use crate::shared::{attr, spec_attr, spec_text, spec_text_uint, text, text_u16, text_uint, SharedError};
use crate::text::str_eq;
use crate::tree::{Attr, Node};
use vstd::prelude::*;
use vstd::string::StringExecFns;

verus! {

/// Represents either of the following:
/// - A cross-reference to another kanji usually regarded as a variant
/// - An alternative indexing code for the current kanji
#[derive(Debug, Clone, Copy, PartialEq, Eq, PartialOrd, Ord, Hash)]
pub enum Variant {
    /// A coding in JIS X 0208
    Jis208(Kuten),
    /// A coding in JIS X 0212
    Jis212(Kuten),
    /// A coding in JIS X 0213
    Jis213(Kuten),
    /// A unicode codepoint
    Unicode(u32),
    /// An identification in the De Roo system
    DeRoo(DeRoo),
    /// Index in the NJECD system.
    Halpern(u16),
    /// The Kanji Dictionary kanji code.
    SpahnHadamitzky(ShDesc),
    /// Index in the Modern Reader's Japanese-English dictionary.
    Nelson(u16),
    /// Index in Japanese Names by P.G. O'Neill.
    ONeill(Oneill),
}

/// Why a node could not be decoded as a variant.
#[derive(Debug, Clone, Copy, PartialEq, Eq, Hash)]
pub enum VariantError {
    /// The node could not be read.
    Shared(SharedError),
    /// The node's text is no kuten code.
    Kuten(KutenError),
    /// The node's text is no De Roo code.
    DeRoo(DeRooError),
    /// The node's text is no descriptor of Spahn and Hadamitzky.
    ShDesc(ShDescError),
    /// The node's text is no index of O'Neill.
    Oneill(PosError, OneillParseError),
    /// The node's `var_type` names no known kind of variant.
    UnknownVariant(PosError),
}

/// The variant that a kuten decoder's outcome comes to under the encoding named
/// `name`.
pub open spec fn spec_jis(name: Seq<char>, kuten: Result<Kuten, KutenError>) -> Result<
    Variant,
    VariantError,
> {
    match kuten {
        Err(e) => Err(VariantError::Kuten(e)),
        Ok(k) => if name == "jis208"@ {
            Ok(Variant::Jis208(k))
        } else if name == "jis212"@ {
            Ok(Variant::Jis212(k))
        } else {
            Ok(Variant::Jis213(k))
        },
    }
}

/// The index of O'Neill that `node` writes as its text.
pub open spec fn spec_oneill(node: Node) -> Result<Variant, VariantError> {
    match spec_text(node) {
        None => Err(VariantError::Shared(SharedError::MissingText(spec_pos(node)))),
        Some(s) => match crate::oneill::spec_parse(s) {
            Ok(index) => Ok(Variant::ONeill(index)),
            Err(e) => Err(VariantError::Oneill(spec_pos(node), e)),
        },
    }
}

/// The variant that `node` writes. Its attribute `var_type` names the kind,
/// which decides how its text is read.
pub open spec fn spec_from(node: Node) -> Result<Variant, VariantError> {
    match spec_attr(node, Attr::VarType) {
        None => Err(
            VariantError::Shared(SharedError::MissingAttribute(spec_pos(node), Attr::VarType)),
        ),
        Some(name) => if name == "jis208"@ || name == "jis212"@ || name == "jis213"@ {
            spec_jis(name, crate::kuten::spec_from(node))
        } else if name == "ucs"@ {
            match spec_text_uint(node, 16, 0xffff_ffff) {
                Err(e) => Err(VariantError::Shared(e)),
                Ok(n) => Ok(Variant::Unicode(n as u32)),
            }
        } else if name == "deroo"@ {
            match crate::de_roo::spec_from(node) {
                Err(e) => Err(VariantError::DeRoo(e)),
                Ok(code) => Ok(Variant::DeRoo(code)),
            }
        } else if name == "njecd"@ {
            match spec_text_uint(node, 10, 0xffff) {
                Err(e) => Err(VariantError::Shared(e)),
                Ok(n) => Ok(Variant::Halpern(n as u16)),
            }
        } else if name == "s_h"@ {
            match crate::sh_desc::spec_from(node) {
                Err(e) => Err(VariantError::ShDesc(e)),
                Ok(desc) => Ok(Variant::SpahnHadamitzky(desc)),
            }
        } else if name == "nelson_c"@ {
            match spec_text_uint(node, 10, 0xffff) {
                Err(e) => Err(VariantError::Shared(e)),
                Ok(n) => Ok(Variant::Nelson(n as u16)),
            }
        } else if name == "oneill"@ {
            spec_oneill(node)
        } else {
            Err(VariantError::UnknownVariant(spec_pos(node)))
        },
    }
}

/// Decodes the variant that `node` writes.
pub fn from(node: &Node) -> (r: Result<Variant, VariantError>)
    ensures
        r == spec_from(*node),
{
    let name = match attr(node, Attr::VarType) {
        Ok(name) => name,
        Err(e) => {
            return Err(VariantError::Shared(e));
        },
    };
    if str_eq(name, "jis208") {
        match crate::kuten::from(node) {
            Ok(k) => Ok(Variant::Jis208(k)),
            Err(e) => Err(VariantError::Kuten(e)),
        }
    } else if str_eq(name, "jis212") {
        match crate::kuten::from(node) {
            Ok(k) => Ok(Variant::Jis212(k)),
            Err(e) => Err(VariantError::Kuten(e)),
        }
    } else if str_eq(name, "jis213") {
        match crate::kuten::from(node) {
            Ok(k) => Ok(Variant::Jis213(k)),
            Err(e) => Err(VariantError::Kuten(e)),
        }
    } else if str_eq(name, "ucs") {
        match text_uint(node, 16, 0xffff_ffff) {
            Ok(n) => Ok(Variant::Unicode(n)),
            Err(e) => Err(VariantError::Shared(e)),
        }
    } else if str_eq(name, "deroo") {
        match crate::de_roo::from(node) {
            Ok(code) => Ok(Variant::DeRoo(code)),
            Err(e) => Err(VariantError::DeRoo(e)),
        }
    } else if str_eq(name, "njecd") {
        match text_u16(node) {
            Ok(n) => Ok(Variant::Halpern(n)),
            Err(e) => Err(VariantError::Shared(e)),
        }
    } else if str_eq(name, "s_h") {
        match crate::sh_desc::from(node) {
            Ok(desc) => Ok(Variant::SpahnHadamitzky(desc)),
            Err(e) => Err(VariantError::ShDesc(e)),
        }
    } else if str_eq(name, "nelson_c") {
        match text_u16(node) {
            Ok(n) => Ok(Variant::Nelson(n)),
            Err(e) => Err(VariantError::Shared(e)),
        }
    } else if str_eq(name, "oneill") {
        let s = match text(node) {
            Ok(s) => s,
            Err(e) => {
                return Err(VariantError::Shared(e));
            },
        };
        match Oneill::try_from(s) {
            Ok(index) => Ok(Variant::ONeill(index)),
            Err(e) => Err(VariantError::Oneill(PosError::from(node), e)),
        }
    } else {
        Err(VariantError::UnknownVariant(PosError::from(node)))
    }
}


impl VariantError {
    /// What the error says: the component that reports it, then what went
    /// wrong, then what the error holds.
    pub open spec fn spec_message(self) -> Seq<char> {
        match self {
            VariantError::Shared(error) => "(Variant) Shared: "@ + error.spec_message(),
            VariantError::Kuten(error) => "(Variant) Kuten: "@ + error.spec_message(),
            VariantError::DeRoo(error) => "(Variant) De roo: "@ + error.spec_message(),
            VariantError::ShDesc(error) => "(Variant) Sh desc: "@ + error.spec_message(),
            VariantError::Oneill(pos, error) => "(Variant) Oneill: "@ + pos.spec_message() + ", "@ + error.spec_message(),
            VariantError::UnknownVariant(pos) => "(Variant) Unknown variant: "@ + pos.spec_message(),
        }
    }

    /// Appends what the error says to `out`.
    pub fn write(&self, out: &mut String)
        ensures
            final(out)@ == old(out)@ + self.spec_message(),
    {
        match *self {
            VariantError::Shared(error) => {
                out.append("(Variant) Shared: ");
                error.write(out);
                assert(out@ =~= old(out)@ + self.spec_message());
            },
            VariantError::Kuten(error) => {
                out.append("(Variant) Kuten: ");
                error.write(out);
                assert(out@ =~= old(out)@ + self.spec_message());
            },
            VariantError::DeRoo(error) => {
                out.append("(Variant) De roo: ");
                error.write(out);
                assert(out@ =~= old(out)@ + self.spec_message());
            },
            VariantError::ShDesc(error) => {
                out.append("(Variant) Sh desc: ");
                error.write(out);
                assert(out@ =~= old(out)@ + self.spec_message());
            },
            VariantError::Oneill(pos, error) => {
                out.append("(Variant) Oneill: ");
                pos.write(out);
                out.append(", ");
                error.write(out);
                assert(out@ =~= old(out)@ + self.spec_message());
            },
            VariantError::UnknownVariant(pos) => {
                out.append("(Variant) Unknown variant: ");
                pos.write(out);
                assert(out@ =~= old(out)@ + self.spec_message());
            },
        }
    }

    /// What the error says.
    pub fn message(&self) -> (r: String)
        ensures
            r@ == self.spec_message(),
    {
        let mut out = String::new();
        self.write(&mut out);
        assert(out@ =~= self.spec_message());
        out
    }
}

} // verus!
