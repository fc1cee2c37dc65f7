use debug_flat::derive_debug_flat;
use debug_flat::directive::{has_debug_flatten, has_debug_skip};
use debug_flat::model::{
    Annotation, Data, FieldDescriptor, FieldType, Fields, Token, TypeDescriptor, VariantDescriptor,
};
use debug_flat::plan::{GenError, Strategy, VariantPlan};

fn t(s: &str) -> Vec<char> {
    s.chars().collect()
}

fn s(v: &[char]) -> String {
    v.iter().collect()
}

fn debug_attr(words: &[&str]) -> Annotation {
    Annotation::List(vec![t("debug")], words.iter().map(|w| Token::Ident(t(w))).collect())
}

fn path_ty(segs: &[&str]) -> FieldType {
    FieldType::Path(segs.iter().map(|x| t(x)).collect())
}

fn field(ty: FieldType, attrs: Vec<Annotation>) -> FieldDescriptor {
    FieldDescriptor { name: None, ty, attrs }
}

fn named(name: &str, ty: FieldType, attrs: Vec<Annotation>) -> FieldDescriptor {
    FieldDescriptor { name: Some(t(name)), ty, attrs }
}

fn variant(name: &str, fields: Fields, attrs: Vec<Annotation>) -> VariantDescriptor {
    VariantDescriptor { name: t(name), fields, attrs }
}

fn enum_of(name: &str, vs: Vec<VariantDescriptor>) -> TypeDescriptor {
    TypeDescriptor { name: t(name), data: Data::Enum(vs) }
}

fn plans(ty: &TypeDescriptor) -> Vec<VariantPlan> {
    match derive_debug_flat(ty) {
        Ok(ps) => ps,
        Err(_) => panic!("planning failed"),
    }
}

#[test]
fn skip_marker_in_debug_group() {
    assert!(has_debug_skip(&vec![debug_attr(&["skip"])]));
    assert!(!has_debug_flatten(&vec![debug_attr(&["skip"])]));
    assert!(has_debug_flatten(&vec![debug_attr(&["other", "flatten"])]));
    assert!(has_debug_skip(&vec![debug_attr(&["flatten"]), debug_attr(&["skip"])]));
}

#[test]
fn other_groups_and_forms_are_ignored() {
    let serde = Annotation::List(vec![t("serde")], vec![Token::Ident(t("skip"))]);
    let qualified = Annotation::List(vec![t("x"), t("debug")], vec![Token::Ident(t("skip"))]);
    let bare = Annotation::Path(vec![t("debug")]);
    let assigned = Annotation::NameValue(vec![t("debug")]);
    let literal = Annotation::List(vec![t("debug")], vec![Token::Other]);
    let attrs = vec![serde, qualified, bare, assigned, literal];
    assert!(!has_debug_skip(&attrs));
    assert!(!has_debug_flatten(&attrs));
    assert!(!has_debug_skip(&vec![]));
}

#[test]
fn record_is_rejected() {
    let ty = TypeDescriptor { name: t("Point"), data: Data::Struct };
    match derive_debug_flat(&ty) {
        Err(GenError::UnsupportedShape(n)) => assert_eq!(s(&n), "Point"),
        _ => panic!("expected UnsupportedShape"),
    }
    let un = TypeDescriptor { name: t("Raw"), data: Data::Union };
    assert!(matches!(derive_debug_flat(&un), Err(GenError::UnsupportedShape(_))));
}

#[test]
fn conflicting_directives_name_the_variant() {
    let ty = enum_of(
        "E",
        vec![
            variant("Fine", Fields::Unit, vec![debug_attr(&["flatten"])]),
            variant(
                "Both",
                Fields::Unnamed(vec![field(path_ty(&["Inner"]), vec![])]),
                vec![debug_attr(&["skip", "flatten"])],
            ),
            variant("Also", Fields::Unit, vec![debug_attr(&["skip"]), debug_attr(&["flatten"])]),
        ],
    );
    match derive_debug_flat(&ty) {
        Err(GenError::ConflictingDirectives(n)) => assert_eq!(s(&n), "Both"),
        _ => panic!("expected ConflictingDirectives"),
    }
}

#[test]
fn strategies_follow_shape_and_directives() {
    let ty = enum_of(
        "E",
        vec![
            variant("Unit", Fields::Unit, vec![]),
            variant("Config", Fields::Unnamed(vec![field(path_ty(&["crate", "Config"]), vec![])]), vec![]),
            variant("Wrapped", Fields::Unnamed(vec![field(path_ty(&["Inner"]), vec![])]), vec![debug_attr(&["flatten"])]),
            variant("Plain", Fields::Unnamed(vec![field(path_ty(&["Inner"]), vec![])]), vec![]),
            variant("Same", Fields::Unnamed(vec![field(path_ty(&["Same"]), vec![])]), vec![debug_attr(&["skip"])]),
            variant("Hidden", Fields::Unnamed(vec![field(path_ty(&["u32"]), vec![debug_attr(&["skip"])])]), vec![]),
            variant("Ref", Fields::Unnamed(vec![field(FieldType::Other, vec![])]), vec![debug_attr(&["flatten"])]),
            variant(
                "Pair",
                Fields::Unnamed(vec![
                    field(path_ty(&["u8"]), vec![]),
                    field(path_ty(&["u8"]), vec![debug_attr(&["skip"])]),
                ]),
                vec![debug_attr(&["flatten"])],
            ),
            variant(
                "Rec",
                Fields::Named(vec![
                    named("a", path_ty(&["u8"]), vec![]),
                    named("b", path_ty(&["u8"]), vec![debug_attr(&["skip"])]),
                ]),
                vec![],
            ),
        ],
    );
    let ps = plans(&ty);
    assert_eq!(ps.len(), 9);
    let names: Vec<String> = ps.iter().map(|p| s(&p.name)).collect();
    assert_eq!(names, vec!["Unit", "Config", "Wrapped", "Plain", "Same", "Hidden", "Ref", "Pair", "Rec"]);
    assert!(matches!(ps[0].strategy, Strategy::Bare));
    match &ps[1].strategy {
        Strategy::Flatten(p) => assert_eq!(s(p), "Config"),
        _ => panic!("expected Flatten"),
    }
    match &ps[2].strategy {
        Strategy::Flatten(p) => assert_eq!(s(p), "Inner"),
        _ => panic!("expected Flatten"),
    }
    assert!(matches!(ps[3].strategy, Strategy::Single));
    assert!(matches!(ps[4].strategy, Strategy::Single));
    assert!(matches!(ps[5].strategy, Strategy::SkippedSingle));
    match &ps[6].strategy {
        Strategy::Flatten(p) => assert!(p.is_empty()),
        _ => panic!("expected Flatten"),
    }
    match &ps[7].strategy {
        Strategy::Tuple(mask) => assert_eq!(mask, &vec![false, true]),
        _ => panic!("expected Tuple"),
    }
    match &ps[8].strategy {
        Strategy::Struct(labels) => {
            let ls: Vec<String> = labels.iter().map(|l| s(l)).collect();
            assert_eq!(ls, vec!["a", "b"]);
        }
        _ => panic!("expected Struct"),
    }
}

#[test]
fn empty_sum_type_plans_nothing() {
    let ty = enum_of("Never", vec![]);
    assert!(plans(&ty).is_empty());
}
