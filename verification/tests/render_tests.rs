use enum_util::ast::{EnumDecl, FieldShape, GenParam, OuterAttr, VariantDef};
use enum_util::render::{render_impls, render_ops, usize_to_dec};
use enum_util::repr::{choose_repr, trim_parens_str};
use enum_util::transform::variant_values_internal;

fn s(x: &str) -> String {
    x.to_string()
}

fn unit_variant(name: &str) -> VariantDef {
    VariantDef { name: s(name), shape: FieldShape::Unit, discriminant: None }
}

#[test]
fn rendered_impls_for_a_plain_enum() {
    let decl = EnumDecl {
        name: s("Color"),
        attrs: vec![],
        generics: vec![],
        where_clause: None,
        variants: vec![unit_variant("Red"), unit_variant("Green"), unit_variant("Blue")],
    };
    let out = variant_values_internal(decl).unwrap();
    let expected = "impl Color { const VARIANT_COUNT: usize = 3; \
const fn discriminant(&self) -> u8 \
{ match self { Color::Red => 0, Color::Green => 1, Color::Blue => 2, } } } \
impl From<&Color> for u8 { fn from(value: &Color) -> Self { value.discriminant() } } \
impl From<Color> for u8 { fn from(value: Color) -> Self { Self::from(&value) } }";
    assert_eq!(render_impls(&out), expected);
}

#[test]
fn rendered_patterns_follow_the_field_shapes() {
    let decl = EnumDecl {
        name: s("Shape"),
        attrs: vec![],
        generics: vec![],
        where_clause: None,
        variants: vec![
            unit_variant("Dot"),
            VariantDef { name: s("Line"), shape: FieldShape::Tuple { arity: 1 }, discriminant: None },
            VariantDef { name: s("Tri"), shape: FieldShape::Record { arity: 3 }, discriminant: None },
        ],
    };
    let out = variant_values_internal(decl).unwrap();
    let ops = render_ops(&out);
    assert!(ops.contains("Shape::Dot => 0, "));
    assert!(ops.contains("Shape::Line(..) => 1, "));
    assert!(ops.contains("Shape::Tri { .. } => 2, "));
}

#[test]
fn rendered_impl_headers_carry_the_generics_in_both_forms() {
    let decl = EnumDecl {
        name: s("G"),
        attrs: vec![],
        generics: vec![
            GenParam::Lifetime { name: s("a") },
            GenParam::TypeParam { name: s("T"), bounds: s("Clone"), default: None },
            GenParam::ConstParam { name: s("N"), ty: s("usize"), default: None },
        ],
        where_clause: Some(s("T: Default")),
        variants: vec![unit_variant("X"), unit_variant("Y")],
    };
    let out = variant_values_internal(decl).unwrap();
    let text = render_impls(&out);
    assert!(text.starts_with(
        "impl<'a, T: Clone, const N: usize> G<'a, T, N> where T: Default { const VARIANT_COUNT: usize = 2; "
    ));
    assert!(text.contains(
        "impl<'a, T: Clone, const N: usize> From<&G<'a, T, N>> for u8 where T: Default"
    ));
    assert!(text.contains(
        "impl<'a, T: Clone, const N: usize> From<G<'a, T, N>> for u8 where T: Default"
    ));
}

#[test]
fn type_parameter_defaults_are_kept_at_the_definition_site_only() {
    let decl = EnumDecl {
        name: s("D"),
        attrs: vec![],
        generics: vec![GenParam::TypeParam {
            name: s("T"),
            bounds: s(""),
            default: Some(s("u32")),
        }],
        where_clause: None,
        variants: vec![unit_variant("X")],
    };
    let out = variant_values_internal(decl).unwrap();
    let text = render_ops(&out);
    assert!(text.starts_with("impl<T = u32> D<T> {"));
}

#[test]
fn rendered_accessor_of_an_empty_enum_matches_nothing() {
    let decl = EnumDecl {
        name: s("Empty"),
        attrs: vec![],
        generics: vec![],
        where_clause: None,
        variants: vec![],
    };
    let out = variant_values_internal(decl).unwrap();
    let expected = "impl Empty { const VARIANT_COUNT: usize = 0; \
const fn discriminant(&self) -> u8 { match self { } } }";
    assert_eq!(render_ops(&out), expected);
}

#[test]
fn rendered_accessor_keeps_a_user_chosen_signed_type() {
    let decl = EnumDecl {
        name: s("Signed"),
        attrs: vec![OuterAttr { name: s("repr"), args: s("(i16)") }],
        generics: vec![],
        where_clause: None,
        variants: vec![unit_variant("A"), unit_variant("B")],
    };
    let out = variant_values_internal(decl).unwrap();
    assert!(render_ops(&out).contains("fn discriminant(&self) -> i16"));
}

#[test]
fn ladder_boundaries() {
    assert_eq!(choose_repr(0), "u8");
    assert_eq!(choose_repr(255), "u8");
    assert_eq!(choose_repr(256), "u16");
    assert_eq!(choose_repr(65535), "u16");
    assert_eq!(choose_repr(65536), "u32");
    assert_eq!(choose_repr(4294967295), "u32");
    assert_eq!(choose_repr(4294967296), "u64");
}

#[test]
fn decimal_rendering() {
    assert_eq!(usize_to_dec(0), "0");
    assert_eq!(usize_to_dec(9), "9");
    assert_eq!(usize_to_dec(10), "10");
    assert_eq!(usize_to_dec(255), "255");
    assert_eq!(usize_to_dec(1234567890), "1234567890");
}

#[test]
fn trimming_parentheses() {
    assert_eq!(trim_parens_str("(u8)"), "u8");
    assert_eq!(trim_parens_str("(usize)"), "usize");
    assert_eq!(trim_parens_str("((x))"), "x");
    assert_eq!(trim_parens_str(""), "");
    assert_eq!(trim_parens_str("()"), "");
    assert_eq!(trim_parens_str("(align(4))"), "align(4");
}
