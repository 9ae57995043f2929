use enum_util::ast::{EnumDecl, FieldShape, GenParam, OuterAttr, TransformError, VariantDef};
use enum_util::transform::variant_values_internal;

fn s(x: &str) -> String {
    x.to_string()
}

fn unit_variant(name: &str) -> VariantDef {
    VariantDef { name: s(name), shape: FieldShape::Unit, discriminant: None }
}

fn plain_decl(name: &str, attrs: Vec<OuterAttr>, variants: Vec<VariantDef>) -> EnumDecl {
    EnumDecl { name: s(name), attrs, generics: vec![], where_clause: None, variants }
}

#[test]
fn color_no_repr_gets_u8_and_ordinals() {
    let decl = plain_decl(
        "Color",
        vec![],
        vec![unit_variant("Red"), unit_variant("Green"), unit_variant("Blue")],
    );
    let out = variant_values_internal(decl).unwrap();
    assert_eq!(out.repr, "u8");
    assert_eq!(out.variant_count, 3);
    assert_eq!(out.decl.variants.len(), 3);
    assert_eq!(out.decl.variants[0].discriminant, Some(0));
    assert_eq!(out.decl.variants[1].discriminant, Some(1));
    assert_eq!(out.decl.variants[2].discriminant, Some(2));
    assert_eq!(out.decl.attrs.len(), 1);
    assert_eq!(out.decl.attrs[0].name, "repr");
    assert_eq!(out.decl.attrs[0].args, "(u8)");
    assert_eq!(out.arms.len(), 3);
    assert_eq!(out.arms[0].variant, "Red");
    assert_eq!(out.arms[0].value, 0);
    assert_eq!(out.arms[1].variant, "Green");
    assert_eq!(out.arms[1].value, 1);
    assert_eq!(out.arms[2].variant, "Blue");
    assert_eq!(out.arms[2].value, 2);
}

#[test]
fn shapes_keep_their_field_shapes() {
    let decl = plain_decl(
        "Shape",
        vec![],
        vec![
            unit_variant("Dot"),
            VariantDef { name: s("Line"), shape: FieldShape::Tuple { arity: 1 }, discriminant: None },
            VariantDef { name: s("Tri"), shape: FieldShape::Record { arity: 3 }, discriminant: None },
        ],
    );
    let out = variant_values_internal(decl).unwrap();
    assert_eq!(out.repr, "u8");
    assert_eq!(out.arms[0].shape, FieldShape::Unit);
    assert_eq!(out.arms[1].shape, FieldShape::Tuple { arity: 1 });
    assert_eq!(out.arms[1].value, 1);
    assert_eq!(out.arms[2].shape, FieldShape::Record { arity: 3 });
    assert_eq!(out.arms[2].value, 2);
    assert_eq!(out.decl.variants[0].discriminant, Some(0));
}

#[test]
fn user_signed_repr_is_preserved_verbatim() {
    let decl = plain_decl(
        "Signed",
        vec![OuterAttr { name: s("repr"), args: s("(i16)") }],
        vec![unit_variant("A"), unit_variant("B")],
    );
    let out = variant_values_internal(decl).unwrap();
    assert_eq!(out.repr, "i16");
    // no synthesized attribute was added, the user's stands as written
    assert_eq!(out.decl.attrs.len(), 1);
    assert_eq!(out.decl.attrs[0].name, "repr");
    assert_eq!(out.decl.attrs[0].args, "(i16)");
    assert_eq!(out.decl.variants[1].discriminant, Some(1));
}

#[test]
fn existing_discriminants_are_overwritten() {
    let decl = plain_decl(
        "Prior",
        vec![],
        vec![
            VariantDef { name: s("A"), shape: FieldShape::Unit, discriminant: Some(7) },
            VariantDef { name: s("B"), shape: FieldShape::Unit, discriminant: Some(7) },
        ],
    );
    let out = variant_values_internal(decl).unwrap();
    assert_eq!(out.decl.variants[0].discriminant, Some(0));
    assert_eq!(out.decl.variants[1].discriminant, Some(1));
}

#[test]
fn non_integer_repr_is_rejected_with_its_text() {
    let decl = plain_decl(
        "Bad",
        vec![OuterAttr { name: s("repr"), args: s("(C)") }],
        vec![unit_variant("A")],
    );
    let err = variant_values_internal(decl).unwrap_err();
    let TransformError::NonIntegerRepresentation { args } = &err;
    assert_eq!(args.as_str(), "(C)");
    assert_eq!(
        err.message(),
        "Found `#[repr(C)]` attribute. Type must have `#[repr(inttype)]` attribute."
    );
}

#[test]
fn only_the_first_repr_attribute_counts() {
    let decl = plain_decl(
        "Twice",
        vec![
            OuterAttr { name: s("derive"), args: s("(Debug)") },
            OuterAttr { name: s("repr"), args: s("(i8)") },
            OuterAttr { name: s("repr"), args: s("(C)") },
        ],
        vec![unit_variant("A")],
    );
    let out = variant_values_internal(decl).unwrap();
    assert_eq!(out.repr, "i8");
    assert_eq!(out.decl.attrs.len(), 3);
    assert_eq!(out.decl.attrs[2].args, "(C)");
}

#[test]
fn first_repr_attribute_invalid_rejects_even_if_a_later_one_is_valid() {
    let decl = plain_decl(
        "Order",
        vec![
            OuterAttr { name: s("repr"), args: s("(align(4))") },
            OuterAttr { name: s("repr"), args: s("(u8)") },
        ],
        vec![unit_variant("A")],
    );
    let err = variant_values_internal(decl).unwrap_err();
    let TransformError::NonIntegerRepresentation { args } = &err;
    assert_eq!(args.as_str(), "(align(4))");
}

#[test]
fn zero_variants_give_count_zero_and_u8() {
    let decl = plain_decl("Empty", vec![], vec![]);
    let out = variant_values_internal(decl).unwrap();
    assert_eq!(out.variant_count, 0);
    assert_eq!(out.repr, "u8");
    assert!(out.arms.is_empty());
    assert_eq!(out.decl.attrs.len(), 1);
    assert_eq!(out.decl.attrs[0].args, "(u8)");
}

#[test]
fn two_hundred_fifty_five_variants_still_fit_u8() {
    let variants: Vec<VariantDef> = (0..255).map(|i| unit_variant(&format!("V{i}"))).collect();
    let out = variant_values_internal(plain_decl("Wide", vec![], variants)).unwrap();
    assert_eq!(out.repr, "u8");
    assert_eq!(out.variant_count, 255);
    assert_eq!(out.decl.variants[254].discriminant, Some(254));
}

#[test]
fn two_hundred_fifty_six_variants_select_u16() {
    let variants: Vec<VariantDef> = (0..256).map(|i| unit_variant(&format!("V{i}"))).collect();
    let out = variant_values_internal(plain_decl("Wider", vec![], variants)).unwrap();
    assert_eq!(out.repr, "u16");
    assert_eq!(out.variant_count, 256);
    assert_eq!(out.decl.attrs[0].args, "(u16)");
    // discriminants are still the dense zero-based ordinals
    assert_eq!(out.decl.variants[255].discriminant, Some(255));
    assert_eq!(out.arms[255].value, 255);
}

#[test]
fn generics_survive_and_project_to_bare_identifiers() {
    let decl = EnumDecl {
        name: s("G"),
        attrs: vec![],
        generics: vec![
            GenParam::Lifetime { name: s("a") },
            GenParam::TypeParam { name: s("T"), bounds: s("Clone"), default: None },
            GenParam::ConstParam { name: s("N"), ty: s("usize"), default: None },
        ],
        where_clause: None,
        variants: vec![unit_variant("X"), unit_variant("Y")],
    };
    let out = variant_values_internal(decl).unwrap();
    assert_eq!(out.decl.generics.len(), 3);
    assert_eq!(out.use_generics.len(), 3);
    match &out.use_generics[0] {
        enum_util::ast::UseParam::Lifetime { name } => assert_eq!(name.as_str(), "a"),
        other => panic!("expected a lifetime, got {other:?}"),
    }
    match &out.use_generics[1] {
        enum_util::ast::UseParam::Bare { name } => assert_eq!(name.as_str(), "T"),
        other => panic!("expected a bare identifier, got {other:?}"),
    }
    match &out.use_generics[2] {
        enum_util::ast::UseParam::Bare { name } => assert_eq!(name.as_str(), "N"),
        other => panic!("expected a bare identifier, got {other:?}"),
    }
}
