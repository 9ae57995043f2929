//! The transformation pipeline: resolve the representation, rewrite every
//! discriminant to its dense zero-based ordinal, project the generics, and
//! synthesize one match arm per variant. The result describes the emitted
//! code completely: the rewritten declaration, the representation integer,
//! the use-form generics shared by every emitted impl header, the match
//! arms of the accessor, and the variant count.

use vstd::prelude::*;
use vstd::pervasive::unreached;
use crate::ast::{EnumDecl, FieldShape, OuterAttr, TransformError, UseParam, VariantDef};
use crate::generics::{get_cleaned_generics, projected};
use crate::repr::{
    enforce_repr_inttype, find_repr, int_repr_args, repr_ladder, synth_args, trim_parens,
};

verus! {

/// One synthesized match arm: the pattern `Name::variant <shape wildcard>`
/// paired with the integer literal `value`.
#[derive(Clone, Debug)]
pub struct MatchArm {
    pub variant: String,
    pub shape: FieldShape,
    pub value: usize,
}

/// The result of the transformation.
#[derive(Clone, Debug)]
pub struct Output {
    /// The rewritten declaration: discriminants reassigned and, when none
    /// was present, a synthesized representation attribute appended.
    pub decl: EnumDecl,
    /// The representation integer type identifier.
    pub repr: String,
    /// The use-form generics, applied to the type name in every emitted
    /// impl header.
    pub use_generics: Vec<UseParam>,
    /// The arms of the discriminant accessor, one per variant in order.
    pub arms: Vec<MatchArm>,
    /// The value of the emitted `VARIANT_COUNT` constant.
    pub variant_count: usize,
}

/// The variants after rewriting: same names and shapes, every discriminant
/// the zero-based ordinal of its variant.
pub open spec fn rewritten_variants(before: Seq<VariantDef>, after: Seq<VariantDef>) -> bool {
    &&& after.len() == before.len()
    &&& forall|i: int|
        0 <= i < before.len() ==> {
            &&& (#[trigger] after[i]).name == before[i].name
            &&& after[i].shape == before[i].shape
            &&& after[i].discriminant == Some(i as usize)
        }
}

/// The synthesized arms: one per variant in order, its pattern shaped like
/// the variant, its expression the variant's index.
pub open spec fn arms_match(variants: Seq<VariantDef>, arms: Seq<MatchArm>) -> bool {
    &&& arms.len() == variants.len()
    &&& forall|i: int|
        0 <= i < variants.len() ==> {
            &&& (#[trigger] arms[i]).variant == variants[i].name
            &&& arms[i].shape == variants[i].shape
            &&& arms[i].value == i as usize
        }
}

/// The attribute list after resolution: untouched when a representation
/// attribute was already present, else the synthesized attribute appended.
pub open spec fn attrs_resolved(before: Seq<OuterAttr>, after: Seq<OuterAttr>, n: nat) -> bool {
    match find_repr(before) {
        Some(_) => after == before,
        None => {
            &&& after.len() == before.len() + 1
            &&& after.subrange(0, before.len() as int) == before
            &&& after.last().name@ == "repr"@
            &&& after.last().args@ == synth_args(n)
        },
    }
}

/// The declaration is accepted: either it carries no representation
/// attribute, or the first one names an integer type.
pub open spec fn transform_ok(decl: EnumDecl) -> bool {
    match find_repr(decl.attrs@) {
        Some(i) => int_repr_args(decl.attrs@[i].args@),
        None => true,
    }
}

/// The representation integer of an accepted declaration: the type named
/// by the first representation attribute, or the ladder's choice.
pub open spec fn resolved_repr(decl: EnumDecl) -> Seq<char> {
    match find_repr(decl.attrs@) {
        Some(i) => trim_parens(decl.attrs@[i].args@),
        None => repr_ladder(decl.variants@.len() as nat),
    }
}

/// Everything the transformation promises of its result.
pub open spec fn transformed(input: EnumDecl, out: Output) -> bool {
    &&& out.decl.name == input.name
    &&& out.decl.generics == input.generics
    &&& out.decl.where_clause == input.where_clause
    &&& rewritten_variants(input.variants@, out.decl.variants@)
    &&& attrs_resolved(input.attrs@, out.decl.attrs@, input.variants@.len() as nat)
    &&& out.repr@ == resolved_repr(input)
    &&& projected(input.generics@, out.use_generics@)
    &&& arms_match(input.variants@, out.arms@)
    &&& out.variant_count == input.variants@.len()
}

/// Reassigns every discriminant to the variant's zero-based ordinal,
/// overwriting whatever the input carried.
pub fn rewrite_discriminants(variants: Vec<VariantDef>) -> (out: Vec<VariantDef>)
    ensures
        rewritten_variants(variants@, out@),
{
    let n = variants.len();
    let mut out: Vec<VariantDef> = Vec::new();
    let mut i: usize = 0;
    while i < n
        invariant
            i <= n,
            n == variants@.len(),
            out@.len() == i,
            forall|k: int|
                0 <= k < i ==> {
                    &&& (#[trigger] out@[k]).name == variants@[k].name
                    &&& out@[k].shape == variants@[k].shape
                    &&& out@[k].discriminant == Some(k as usize)
                },
        decreases n - i,
    {
        let v = VariantDef {
            name: variants[i].name.clone(),
            shape: variants[i].shape,
            discriminant: Some(i),
        };
        out.push(v);
        i = i + 1;
    }
    out
}

/// Synthesizes the accessor's match arms from the rewritten variants.
pub fn make_arms(decl: &EnumDecl) -> (arms: Vec<MatchArm>)
    requires
        forall|i: int|
            0 <= i < decl.variants@.len() ==> (#[trigger] decl.variants@[i]).discriminant
                == Some(i as usize),
    ensures
        arms_match(decl.variants@, arms@),
{
    let n = decl.variants.len();
    let mut arms: Vec<MatchArm> = Vec::new();
    let mut i: usize = 0;
    while i < n
        invariant
            n == decl.variants@.len(),
            i <= n,
            arms@.len() == i,
            forall|k: int|
                0 <= k < n ==> (#[trigger] decl.variants@[k]).discriminant == Some(k as usize),
            forall|k: int|
                0 <= k < i ==> {
                    &&& (#[trigger] arms@[k]).variant == decl.variants@[k].name
                    &&& arms@[k].shape == decl.variants@[k].shape
                    &&& arms@[k].value == k as usize
                },
        decreases n - i,
    {
        let value: usize = match decl.variants[i].discriminant {
            Some(d) => d,
            None => unreached(),
        };
        let arm = MatchArm {
            variant: decl.variants[i].name.clone(),
            shape: decl.variants[i].shape,
            value,
        };
        arms.push(arm);
        i = i + 1;
    }
    arms
}

/// Runs the whole transformation on a parsed declaration: resolves the
/// representation, rewrites the discriminants, projects the generics and
/// synthesizes the accessor arms. Fails exactly when the declaration
/// carries a representation attribute whose argument is not an integer
/// type, and then returns that argument text in the error.
pub fn variant_values_internal(decl: EnumDecl) -> (res: Result<Output, TransformError>)
    ensures
        match res {
            Ok(out) => transform_ok(decl) && transformed(decl, out),
            Err(e) => !transform_ok(decl) && (e matches TransformError::NonIntegerRepresentation {
                args,
            } && (find_repr(decl.attrs@) matches Some(i) && args@ == decl.attrs@[i].args@)),
        },
{
    let mut work = decl;
    let repr = match enforce_repr_inttype(&mut work) {
        Ok(r) => r,
        Err(e) => {
            return Err(e);
        },
    };
    work.variants = rewrite_discriminants(work.variants);
    let use_generics = get_cleaned_generics(&work);
    let arms = make_arms(&work);
    let variant_count = work.variants.len();
    Ok(Output { decl: work, repr, use_generics, arms, variant_count })
}

} // verus!
