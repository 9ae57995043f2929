//! The emitter: renders the generated inherent-operations block and the
//! two conversion implementations as source text. The host adapter turns
//! this text, together with the rewritten declaration, back into a token
//! stream. Every rendering function is proved equal to its specification,
//! so the emitted text is pinned down character by character.

use vstd::prelude::*;
use vstd::string::{StrSliceExecFns, StringExecFns};
use crate::ast::{FieldShape, GenParam, UseParam};
use crate::transform::{MatchArm, Output};

verus! {

/// The decimal digit character for `d` in `0..10`.
pub open spec fn dec_digit(d: nat) -> char {
    if d == 0 {
        '0'
    } else if d == 1 {
        '1'
    } else if d == 2 {
        '2'
    } else if d == 3 {
        '3'
    } else if d == 4 {
        '4'
    } else if d == 5 {
        '5'
    } else if d == 6 {
        '6'
    } else if d == 7 {
        '7'
    } else if d == 8 {
        '8'
    } else {
        '9'
    }
}

/// The decimal rendering of `n`, most significant digit first.
pub open spec fn dec_str(n: nat) -> Seq<char>
    decreases n,
{
    if n < 10 {
        seq![dec_digit(n)]
    } else {
        dec_str(n / 10) + seq![dec_digit(n % 10)]
    }
}

/// One declaration-form generic parameter, bounds and default included.
pub open spec fn spec_render_gen_param(p: GenParam) -> Seq<char> {
    match p {
        GenParam::Lifetime { name } => "'"@ + name@,
        GenParam::TypeParam { name, bounds, default } => name@ + (if bounds@.len() == 0 {
            Seq::<char>::empty()
        } else {
            ": "@ + bounds@
        }) + (match default {
            Some(d) => " = "@ + d@,
            None => Seq::<char>::empty(),
        }),
        GenParam::ConstParam { name, ty, default } => "const "@ + name@ + ": "@ + ty@ + (
        match default {
            Some(d) => " = "@ + d@,
            None => Seq::<char>::empty(),
        }),
    }
}

/// The comma-separated declaration-form parameters from index `i` on.
pub open spec fn spec_render_gen_from(ps: Seq<GenParam>, i: int) -> Seq<char>
    decreases ps.len() - i,
{
    if i < 0 || i >= ps.len() {
        Seq::<char>::empty()
    } else if i == ps.len() - 1 {
        spec_render_gen_param(ps[i])
    } else {
        spec_render_gen_param(ps[i]) + ", "@ + spec_render_gen_from(ps, i + 1)
    }
}

/// The declaration-form generics with their angle brackets; empty when
/// the declaration has no parameters.
pub open spec fn spec_render_decl_generics(ps: Seq<GenParam>) -> Seq<char> {
    if ps.len() == 0 {
        Seq::<char>::empty()
    } else {
        "<"@ + spec_render_gen_from(ps, 0) + ">"@
    }
}

/// One use-form parameter: a bare identifier, or a lifetime.
pub open spec fn spec_render_use_param(p: UseParam) -> Seq<char> {
    match p {
        UseParam::Lifetime { name } => "'"@ + name@,
        UseParam::Bare { name } => name@,
    }
}

/// The comma-separated use-form parameters from index `i` on.
pub open spec fn spec_render_use_from(ps: Seq<UseParam>, i: int) -> Seq<char>
    decreases ps.len() - i,
{
    if i < 0 || i >= ps.len() {
        Seq::<char>::empty()
    } else if i == ps.len() - 1 {
        spec_render_use_param(ps[i])
    } else {
        spec_render_use_param(ps[i]) + ", "@ + spec_render_use_from(ps, i + 1)
    }
}

/// The use-form generics with their angle brackets; empty when the
/// declaration has no parameters.
pub open spec fn spec_render_use_generics(ps: Seq<UseParam>) -> Seq<char> {
    if ps.len() == 0 {
        Seq::<char>::empty()
    } else {
        "<"@ + spec_render_use_from(ps, 0) + ">"@
    }
}

/// The constraint clause, rendered only at definition sites.
pub open spec fn spec_render_where(w: Option<String>) -> Seq<char> {
    match w {
        Some(c) => " where "@ + c@,
        None => Seq::<char>::empty(),
    }
}

/// The wildcard field pattern that matches the variant's shape: nothing
/// for a unit variant, a parenthesized rest pattern for a tuple variant of
/// any arity, a braced rest pattern for a record variant of any field set.
pub open spec fn spec_render_pattern(shape: FieldShape) -> Seq<char> {
    match shape {
        FieldShape::Unit => Seq::<char>::empty(),
        FieldShape::Tuple { arity: _ } => "(..)"@,
        FieldShape::Record { arity: _ } => " { .. }"@,
    }
}

/// One accessor arm: `Name::Variant<pattern> => <ordinal>, `.
pub open spec fn spec_render_arm(name: Seq<char>, arm: MatchArm) -> Seq<char> {
    name + "::"@ + arm.variant@ + spec_render_pattern(arm.shape) + " => "@ + dec_str(
        arm.value as nat,
    ) + ", "@
}

/// The arms from index `i` on, in declaration order.
pub open spec fn spec_render_arms_from(name: Seq<char>, arms: Seq<MatchArm>, i: int) -> Seq<char>
    decreases arms.len() - i,
{
    if i < 0 || i >= arms.len() {
        Seq::<char>::empty()
    } else {
        spec_render_arm(name, arms[i]) + spec_render_arms_from(name, arms, i + 1)
    }
}

/// The inherent-operations block: the variant count constant and the
/// compile-time-evaluable discriminant accessor, a total match over the
/// synthesized arms.
pub open spec fn spec_render_ops(out: Output) -> Seq<char> {
    "impl"@ + spec_render_decl_generics(out.decl.generics@) + " "@ + out.decl.name@
        + spec_render_use_generics(out.use_generics@) + spec_render_where(out.decl.where_clause)
        + " { const VARIANT_COUNT: usize = "@ + dec_str(out.variant_count as nat) + "; const "@
        + "fn discriminant(&self) -> "@ + out.repr@ + " { match self { "@ + spec_render_arms_from(
        out.decl.name@,
        out.arms@,
        0,
    ) + "} } }"@
}

/// The conversion from a shared reference, delegating to the accessor.
pub open spec fn spec_render_conv_ref(out: Output) -> Seq<char> {
    "impl"@ + spec_render_decl_generics(out.decl.generics@) + " From<&"@ + out.decl.name@
        + spec_render_use_generics(out.use_generics@) + "> for "@ + out.repr@ + spec_render_where(
        out.decl.where_clause,
    ) + " { fn from(value: &"@ + out.decl.name@ + spec_render_use_generics(out.use_generics@)
        + ") -> Self { value.discriminant() } }"@
}

/// The conversion by value, delegating to the shared-reference form.
pub open spec fn spec_render_conv_val(out: Output) -> Seq<char> {
    "impl"@ + spec_render_decl_generics(out.decl.generics@) + " From<"@ + out.decl.name@
        + spec_render_use_generics(out.use_generics@) + "> for "@ + out.repr@ + spec_render_where(
        out.decl.where_clause,
    ) + " { fn from(value: "@ + out.decl.name@ + spec_render_use_generics(out.use_generics@)
        + ") -> Self { Self::from(&value) } }"@
}

/// Everything the transformation appends after the rewritten declaration.
pub open spec fn spec_render_impls(out: Output) -> Seq<char> {
    spec_render_ops(out) + " "@ + spec_render_conv_ref(out) + " "@ + spec_render_conv_val(out)
}

fn digit_str(d: usize) -> (r: &'static str)
    requires
        d < 10,
    ensures
        r@ == seq![dec_digit(d as nat)],
{
    let r = match d {
        0 => "0",
        1 => "1",
        2 => "2",
        3 => "3",
        4 => "4",
        5 => "5",
        6 => "6",
        7 => "7",
        8 => "8",
        _ => "9",
    };
    proof {
        reveal_strlit("0");
        reveal_strlit("1");
        reveal_strlit("2");
        reveal_strlit("3");
        reveal_strlit("4");
        reveal_strlit("5");
        reveal_strlit("6");
        reveal_strlit("7");
        reveal_strlit("8");
        reveal_strlit("9");
        assert(r@ =~= seq![dec_digit(d as nat)]);
    }
    r
}

/// Renders `n` in decimal.
pub fn usize_to_dec(n: usize) -> (r: String)
    ensures
        r@ == dec_str(n as nat),
    decreases n,
{
    if n < 10 {
        digit_str(n).to_owned()
    } else {
        let mut r = usize_to_dec(n / 10);
        r.append(digit_str(n % 10));
        r
    }
}

fn render_gen_param(p: &GenParam) -> (r: String)
    ensures
        r@ == spec_render_gen_param(*p),
{
    match p {
        GenParam::Lifetime { name } => {
            let mut r = String::from_str("'");
            r.append(name.as_str());
            r
        },
        GenParam::TypeParam { name, bounds, default } => {
            let mut r = String::from_str("");
            r.append(name.as_str());
            if bounds.as_str().unicode_len() > 0 {
                r.append(": ");
                r.append(bounds.as_str());
            }
            if let Some(d) = default {
                r.append(" = ");
                r.append(d.as_str());
            }
            proof {
                reveal_strlit("");
            }
            r
        },
        GenParam::ConstParam { name, ty, default } => {
            let mut r = String::from_str("const ");
            r.append(name.as_str());
            r.append(": ");
            r.append(ty.as_str());
            if let Some(d) = default {
                r.append(" = ");
                r.append(d.as_str());
            }
            r
        },
    }
}

fn render_gen_from(ps: &Vec<GenParam>, i: usize) -> (r: String)
    ensures
        r@ == spec_render_gen_from(ps@, i as int),
    decreases ps.len() - i,
{
    if i >= ps.len() {
        String::new()
    } else {
        let mut r = render_gen_param(&ps[i]);
        if i + 1 < ps.len() {
            r.append(", ");
            let rest = render_gen_from(ps, i + 1);
            r.append(rest.as_str());
        }
        r
    }
}

/// Renders the declaration-form generics for an impl header.
pub fn render_decl_generics(ps: &Vec<GenParam>) -> (r: String)
    ensures
        r@ == spec_render_decl_generics(ps@),
{
    if ps.len() == 0 {
        String::new()
    } else {
        let mut r = String::from_str("<");
        let inner = render_gen_from(ps, 0);
        r.append(inner.as_str());
        r.append(">");
        r
    }
}

fn render_use_param(p: &UseParam) -> (r: String)
    ensures
        r@ == spec_render_use_param(*p),
{
    match p {
        UseParam::Lifetime { name } => {
            let mut r = String::from_str("'");
            r.append(name.as_str());
            r
        },
        UseParam::Bare { name } => name.clone(),
    }
}

fn render_use_from(ps: &Vec<UseParam>, i: usize) -> (r: String)
    ensures
        r@ == spec_render_use_from(ps@, i as int),
    decreases ps.len() - i,
{
    if i >= ps.len() {
        String::new()
    } else {
        let mut r = render_use_param(&ps[i]);
        if i + 1 < ps.len() {
            r.append(", ");
            let rest = render_use_from(ps, i + 1);
            r.append(rest.as_str());
        }
        r
    }
}

/// Renders the use-form generics as applied to the type name.
pub fn render_use_generics(ps: &Vec<UseParam>) -> (r: String)
    ensures
        r@ == spec_render_use_generics(ps@),
{
    if ps.len() == 0 {
        String::new()
    } else {
        let mut r = String::from_str("<");
        let inner = render_use_from(ps, 0);
        r.append(inner.as_str());
        r.append(">");
        r
    }
}

fn render_where(w: &Option<String>) -> (r: String)
    ensures
        r@ == spec_render_where(*w),
{
    match w {
        Some(c) => {
            let mut r = String::from_str(" where ");
            r.append(c.as_str());
            r
        },
        None => String::new(),
    }
}

fn render_pattern(shape: &FieldShape) -> (r: &'static str)
    ensures
        r@ == spec_render_pattern(*shape),
{
    let r = match shape {
        FieldShape::Unit => "",
        FieldShape::Tuple { arity: _ } => "(..)",
        FieldShape::Record { arity: _ } => " { .. }",
    };
    proof {
        reveal_strlit("");
        assert(""@ =~= Seq::<char>::empty());
    }
    r
}

fn render_arm(name: &str, arm: &MatchArm) -> (r: String)
    ensures
        r@ == spec_render_arm(name@, *arm),
{
    let mut r = name.to_owned();
    r.append("::");
    r.append(arm.variant.as_str());
    r.append(render_pattern(&arm.shape));
    r.append(" => ");
    let d = usize_to_dec(arm.value);
    r.append(d.as_str());
    r.append(", ");
    r
}

fn render_arms_from(name: &str, arms: &Vec<MatchArm>, i: usize) -> (r: String)
    ensures
        r@ == spec_render_arms_from(name@, arms@, i as int),
    decreases arms.len() - i,
{
    if i >= arms.len() {
        String::new()
    } else {
        let mut r = render_arm(name, &arms[i]);
        let rest = render_arms_from(name, arms, i + 1);
        r.append(rest.as_str());
        r
    }
}

/// Renders the inherent-operations block.
pub fn render_ops(out: &Output) -> (r: String)
    ensures
        r@ == spec_render_ops(*out),
{
    let mut r = String::from_str("impl");
    let g = render_decl_generics(&out.decl.generics);
    r.append(g.as_str());
    r.append(" ");
    r.append(out.decl.name.as_str());
    let u = render_use_generics(&out.use_generics);
    r.append(u.as_str());
    let w = render_where(&out.decl.where_clause);
    r.append(w.as_str());
    r.append(" { const VARIANT_COUNT: usize = ");
    let c = usize_to_dec(out.variant_count);
    r.append(c.as_str());
    r.append("; const ");
    r.append("fn discriminant(&self) -> ");
    r.append(out.repr.as_str());
    r.append(" { match self { ");
    let arms = render_arms_from(out.decl.name.as_str(), &out.arms, 0);
    r.append(arms.as_str());
    r.append("} } }");
    r
}

/// Renders the conversion from a shared reference.
pub fn render_conv_ref(out: &Output) -> (r: String)
    ensures
        r@ == spec_render_conv_ref(*out),
{
    let mut r = String::from_str("impl");
    let g = render_decl_generics(&out.decl.generics);
    r.append(g.as_str());
    r.append(" From<&");
    r.append(out.decl.name.as_str());
    let u = render_use_generics(&out.use_generics);
    r.append(u.as_str());
    r.append("> for ");
    r.append(out.repr.as_str());
    let w = render_where(&out.decl.where_clause);
    r.append(w.as_str());
    r.append(" { fn from(value: &");
    r.append(out.decl.name.as_str());
    r.append(u.as_str());
    r.append(") -> Self { value.discriminant() } }");
    r
}

/// Renders the conversion by value.
pub fn render_conv_val(out: &Output) -> (r: String)
    ensures
        r@ == spec_render_conv_val(*out),
{
    let mut r = String::from_str("impl");
    let g = render_decl_generics(&out.decl.generics);
    r.append(g.as_str());
    r.append(" From<");
    r.append(out.decl.name.as_str());
    let u = render_use_generics(&out.use_generics);
    r.append(u.as_str());
    r.append("> for ");
    r.append(out.repr.as_str());
    let w = render_where(&out.decl.where_clause);
    r.append(w.as_str());
    r.append(" { fn from(value: ");
    r.append(out.decl.name.as_str());
    r.append(u.as_str());
    r.append(") -> Self { Self::from(&value) } }");
    r
}

/// Renders everything the transformation appends after the rewritten
/// declaration: the operations block and the two conversions.
pub fn render_impls(out: &Output) -> (r: String)
    ensures
        r@ == spec_render_impls(*out),
{
    let mut r = render_ops(out);
    r.append(" ");
    let c1 = render_conv_ref(out);
    r.append(c1.as_str());
    r.append(" ");
    let c2 = render_conv_val(out);
    r.append(c2.as_str());
    r
}

} // verus!
