//! The syntactic model of a sum-type declaration: the parts of the parsed
//! tree that the transformation reads or rewrites, as plain values.

use vstd::prelude::*;
use vstd::string::StringExecFns;

verus! {

/// An outer attribute on the declaration: a path identifier (e.g. `repr`)
/// and the raw text of its argument tokens, parentheses included
/// (e.g. `(u8)` or `(C)`).
#[derive(Clone, Debug)]
pub struct OuterAttr {
    pub name: String,
    pub args: String,
}

/// The field shape of one variant: no fields, `arity` anonymous fields, or
/// `arity` named fields.
#[derive(Clone, Copy, Debug, PartialEq, Eq)]
pub enum FieldShape {
    Unit,
    Tuple { arity: usize },
    Record { arity: usize },
}

/// One variant of the declared sum type. A discriminant carried by the
/// input is ignored and overwritten by the transformation.
#[derive(Clone, Debug)]
pub struct VariantDef {
    pub name: String,
    pub shape: FieldShape,
    pub discriminant: Option<usize>,
}

/// A generic parameter in declaration form: bounds, defaults and the
/// constant's type are kept as raw token text.
#[derive(Clone, Debug)]
pub enum GenParam {
    Lifetime { name: String },
    TypeParam { name: String, bounds: String, default: Option<String> },
    ConstParam { name: String, ty: String, default: Option<String> },
}

/// A generic parameter in use form: only the identifier survives; a
/// constant parameter collapses to a bare identifier.
#[derive(Clone, Debug)]
pub enum UseParam {
    Lifetime { name: String },
    Bare { name: String },
}

/// The parsed sum-type declaration handed in by the host adapter.
#[derive(Clone, Debug)]
pub struct EnumDecl {
    pub name: String,
    pub attrs: Vec<OuterAttr>,
    pub generics: Vec<GenParam>,
    /// Raw token text of the constraint clause, without the leading keyword.
    pub where_clause: Option<String>,
    pub variants: Vec<VariantDef>,
}

impl EnumDecl {
    /// Variant identifiers are pairwise distinct, as the host language
    /// guarantees of a well-formed declaration.
    pub open spec fn distinct_variant_names(self) -> bool {
        forall|i: int, j: int|
            0 <= i < j < self.variants@.len() ==> self.variants@[i].name@ != self.variants@[j].name@
    }
}

/// Why the transformation rejected a declaration.
#[derive(Clone, Debug)]
pub enum TransformError {
    /// A representation attribute is present but its argument text (kept
    /// here) does not name a signed or unsigned integer type.
    NonIntegerRepresentation { args: String },
}

impl TransformError {
    /// The diagnostic text shown at compile time for this error.
    pub open spec fn spec_message(self) -> Seq<char> {
        match self {
            TransformError::NonIntegerRepresentation { args } => "Found `#[repr"@ + args@
                + "]` attribute. Type must have `#[repr(inttype)]` attribute."@,
        }
    }

    /// Builds the diagnostic text.
    pub fn message(&self) -> (r: String)
        ensures
            r@ == self.spec_message(),
    {
        match self {
            TransformError::NonIntegerRepresentation { args } => {
                let mut r = String::from_str("Found `#[repr");
                r.append(args.as_str());
                r.append("]` attribute. Type must have `#[repr(inttype)]` attribute.");
                r
            },
        }
    }
}

} // verus!
