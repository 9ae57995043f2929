//! What the transformation guarantees of the code it emits, stated over
//! the model and proved: the accessor returns each variant's ordinal, the
//! ordinals are pairwise distinct, the conversions agree with the
//! accessor, every impl header carries the full generic arity, and the
//! synthesized representation is the narrowest sufficient unsigned width.

use vstd::prelude::*;
use crate::ast::EnumDecl;
use crate::render::{dec_str, spec_render_arm, spec_render_pattern};
use crate::repr::{find_repr, repr_ladder, synth_args};
use crate::transform::{transformed, MatchArm, Output};

verus! {

/// The pattern of `arm` matches a value inhabiting the variant named
/// `active`. The synthesized patterns wildcard every field, so only the
/// variant identity decides.
pub open spec fn arm_matches(arm: MatchArm, active: Seq<char>) -> bool {
    arm.variant@ == active
}

/// The result of the emitted match on a value inhabiting the variant
/// named `active`: the expression of the first arm whose pattern matches,
/// `None` if no arm does.
pub open spec fn eval_match(arms: Seq<MatchArm>, active: Seq<char>) -> Option<usize>
    decreases arms.len(),
{
    if arms.len() == 0 {
        None
    } else if arm_matches(arms[0], active) {
        Some(arms[0].value)
    } else {
        eval_match(arms.subrange(1, arms.len() as int), active)
    }
}

/// The value returned by the emitted conversion from a shared reference:
/// its body delegates to the discriminant accessor.
pub open spec fn eval_conv_ref(out: Output, active: Seq<char>) -> Option<usize> {
    eval_match(out.arms@, active)
}

/// The value returned by the emitted conversion by value: its body
/// delegates to the shared-reference conversion.
pub open spec fn eval_conv_val(out: Output, active: Seq<char>) -> Option<usize> {
    eval_conv_ref(out, active)
}

proof fn lemma_eval_match_from(arms: Seq<MatchArm>, j: int, i: int, active: Seq<char>)
    requires
        0 <= j <= i < arms.len(),
        arms[i].variant@ == active,
        forall|k: int| j <= k < i ==> (#[trigger] arms[k]).variant@ != active,
    ensures
        eval_match(arms.subrange(j, arms.len() as int), active) == Some(arms[i].value),
    decreases i - j,
{
    let t = arms.subrange(j, arms.len() as int);
    assert(t[0] == arms[j]);
    if j < i {
        lemma_eval_match_from(arms, j + 1, i, active);
        assert(t.subrange(1, t.len() as int) =~= arms.subrange(j + 1, arms.len() as int));
    }
}

/// For every variant at declaration index `i`, the emitted accessor
/// returns exactly `i`: the match over the synthesized arms, evaluated on
/// a value inhabiting that variant, yields the variant's ordinal.
pub proof fn lemma_discriminant_is_index(input: EnumDecl, out: Output, i: int)
    requires
        input.distinct_variant_names(),
        transformed(input, out),
        0 <= i < input.variants@.len(),
    ensures
        eval_match(out.arms@, input.variants@[i].name@) == Some(i as usize),
{
    let active = input.variants@[i].name@;
    assert(forall|k: int| 0 <= k < i ==> (#[trigger] out.arms@[k]).variant@ != active);
    lemma_eval_match_from(out.arms@, 0, i, active);
    assert(out.arms@.subrange(0, out.arms@.len() as int) =~= out.arms@);
}

/// Both emitted conversions return the same ordinal as the accessor: for
/// the variant at index `i`, each yields `i`.
pub proof fn lemma_conversions_agree(input: EnumDecl, out: Output, i: int)
    requires
        input.distinct_variant_names(),
        transformed(input, out),
        0 <= i < input.variants@.len(),
    ensures
        eval_conv_ref(out, input.variants@[i].name@) == Some(i as usize),
        eval_conv_val(out, input.variants@[i].name@) == Some(i as usize),
{
    lemma_discriminant_is_index(input, out, i);
}

/// Two distinct variants receive distinct discriminants, both in the
/// rewritten declaration and in the accessor's arms.
pub proof fn lemma_discriminants_distinct(input: EnumDecl, out: Output, i: int, j: int)
    requires
        transformed(input, out),
        0 <= i < input.variants@.len(),
        0 <= j < input.variants@.len(),
        i != j,
    ensures
        out.decl.variants@[i].discriminant != out.decl.variants@[j].discriminant,
        out.arms@[i].value != out.arms@[j].value,
{
}

/// Every emitted impl header carries the declaration's full generic
/// arity, at the definition position and at the use position alike.
pub proof fn lemma_impl_header_arity(input: EnumDecl, out: Output)
    requires
        transformed(input, out),
    ensures
        out.decl.generics@.len() == input.generics@.len(),
        out.use_generics@.len() == input.generics@.len(),
{
}

/// The rung of the unsigned ladder at index `i`.
pub open spec fn rung_name(i: int) -> Seq<char> {
    if i == 0 {
        "u8"@
    } else if i == 1 {
        "u16"@
    } else if i == 2 {
        "u32"@
    } else if i == 3 {
        "u64"@
    } else {
        "u128"@
    }
}

/// The greatest value the rung at index `i` can hold.
pub open spec fn rung_max(i: int) -> nat {
    if i == 0 {
        0xff
    } else if i == 1 {
        0xffff
    } else if i == 2 {
        0xffff_ffff
    } else if i == 3 {
        0xffff_ffff_ffff_ffff
    } else {
        0xffff_ffff_ffff_ffff_ffff_ffff_ffff_ffff
    }
}

/// The synthesized representation is minimal: the chosen rung holds `n`,
/// and every narrower rung does not.
pub proof fn lemma_repr_ladder_minimal(n: nat)
    requires
        n <= 0xffff_ffff_ffff_ffff_ffff_ffff_ffff_ffff,
    ensures
        exists|i: int|
            {
                &&& 0 <= i <= 4
                &&& repr_ladder(n) == #[trigger] rung_name(i)
                &&& n <= rung_max(i)
                &&& forall|j: int| 0 <= j < i ==> n > rung_max(j)
            },
{
    let i: int = if n <= 0xff {
        0
    } else if n <= 0xffff {
        1
    } else if n <= 0xffff_ffff {
        2
    } else if n <= 0xffff_ffff_ffff_ffff {
        3
    } else {
        4
    };
    assert(repr_ladder(n) == rung_name(i));
    assert(n <= rung_max(i));
    assert(forall|j: int| 0 <= j < i ==> n > rung_max(j));
}

/// When the input carried no representation attribute, the rewritten
/// declaration ends with a synthesized `repr` attribute whose argument
/// names the narrowest sufficient unsigned rung.
pub proof fn lemma_synthesized_repr_minimal(input: EnumDecl, out: Output)
    requires
        transformed(input, out),
        find_repr(input.attrs@) is None,
        input.variants@.len() <= 0xffff_ffff_ffff_ffff_ffff_ffff_ffff_ffff,
    ensures
        out.decl.attrs@.last().name@ == "repr"@,
        exists|i: int|
            {
                &&& 0 <= i <= 4
                &&& out.decl.attrs@.last().args@ == seq!['('] + #[trigger] rung_name(i)
                    + seq![')']
                &&& input.variants@.len() <= rung_max(i)
                &&& forall|j: int| 0 <= j < i ==> input.variants@.len() > rung_max(j)
            },
{
    let n = input.variants@.len() as nat;
    lemma_repr_ladder_minimal(n);
    let i = choose|i: int|
        {
            &&& 0 <= i <= 4
            &&& repr_ladder(n) == #[trigger] rung_name(i)
            &&& n <= rung_max(i)
            &&& forall|j: int| 0 <= j < i ==> n > rung_max(j)
        };
    assert(out.decl.attrs@.last().args@ == synth_args(n));
    assert(out.decl.attrs@.last().args@ == seq!['('] + rung_name(i) + seq![')']);
}

/// Each arm of the emitted accessor is the variant's own path, its
/// shape's wildcard pattern, and the bare decimal literal of its ordinal —
/// nothing else stands in the accessor's body, which is what makes it
/// evaluable in compile-time constant contexts.
pub proof fn lemma_accessor_arm_is_literal(input: EnumDecl, out: Output, i: int)
    requires
        transformed(input, out),
        0 <= i < input.variants@.len(),
    ensures
        spec_render_arm(out.decl.name@, out.arms@[i]) == input.name@ + "::"@
            + input.variants@[i].name@ + spec_render_pattern(input.variants@[i].shape) + " => "@
            + dec_str(i as nat) + ", "@,
{
}

} // verus!
