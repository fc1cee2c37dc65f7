use debug_flat::plan::{Strategy, VariantPlan};
use debug_flat::render::{render, PayloadText};

fn t(s: &str) -> Vec<char> {
    s.chars().collect()
}

fn s(v: &[char]) -> String {
    v.iter().collect()
}

fn plan(name: &str, strategy: Strategy) -> VariantPlan {
    VariantPlan { name: t(name), strategy }
}

fn own<T: std::fmt::Debug>(v: &T) -> PayloadText {
    PayloadText { compact: t(&format!("{:?}", v)), expanded: t(&format!("{:#?}", v)) }
}

fn text(compact: &str, expanded: &str) -> PayloadText {
    PayloadText { compact: t(compact), expanded: t(expanded) }
}

fn both(p: &VariantPlan, payload: &Vec<PayloadText>) -> (String, String) {
    (s(&render(p, payload, false)), s(&render(p, payload, true)))
}

#[derive(Debug)]
struct Inner {
    x: u32,
}

#[allow(dead_code)]
#[derive(Debug)]
enum Shown {
    V(Inner),
    P(u8, u8),
    R { a: u8, b: u8 },
    U,
}

#[allow(dead_code)]
#[derive(Debug)]
enum Outer {
    W(Shown),
}

#[test]
fn bare_variant_is_its_name() {
    let p = plan("Idle", Strategy::Bare);
    assert_eq!(both(&p, &vec![]), ("Idle".to_string(), "Idle".to_string()));
    assert_eq!(s(&render(&p, &vec![], false)), format!("{:?}", Shown::U).replace('U', "Idle"));
}

#[test]
fn skipped_payload_is_suppressed() {
    let p = plan("Secret", Strategy::SkippedSingle);
    let a = both(&p, &vec![own(&1u32)]);
    let b = both(&p, &vec![own(&"hunter")]);
    assert_eq!(a, ("Secret".to_string(), "Secret".to_string()));
    assert_eq!(a, b);
}

#[test]
fn single_payload_matches_tuple_layout() {
    let p = plan("V", Strategy::Single);
    let v = Inner { x: 1 };
    let (c, e) = both(&p, &vec![own(&v)]);
    let whole = Shown::V(Inner { x: 1 });
    assert_eq!(c, format!("{:?}", whole));
    assert_eq!(e, format!("{:#?}", whole));
    assert_eq!(c, "V(Inner { x: 1 })");
}

#[test]
fn flatten_substitutes_type_name() {
    let p = plan("Config", Strategy::Flatten(t("Inner")));
    let (c, e) = both(&p, &vec![own(&Inner { x: 7 })]);
    assert_eq!(c, "Config { x: 7 }");
    assert_eq!(e, "Config {\n    x: 7,\n}");
}

#[test]
fn flatten_without_prefix_keeps_rest() {
    let p = plan("Raw", Strategy::Flatten(Vec::new()));
    assert_eq!(s(&render(&p, &vec![text("(1, 2)", "(\n    1,\n    2,\n)")], false)), "Raw(1, 2)");
}

#[test]
fn flatten_falls_back_to_single_field() {
    let p = plan("V", Strategy::Flatten(t("Inner")));
    let (c, e) = both(&p, &vec![text("custom<7>", "custom<7>")]);
    assert_eq!(c, "V(custom<7>)");
    assert_eq!(e, "V(\n    custom<7>,\n)");
    let (c2, _) = both(&p, &vec![text("Inne", "Inne")]);
    assert_eq!(c2, "V(Inne)");
}

#[test]
fn named_fields_in_declaration_order() {
    let p = plan("R", Strategy::Struct(vec![t("a"), t("b")]));
    let (c, e) = both(&p, &vec![own(&1u8), own(&2u8)]);
    assert_eq!(c, "R { a: 1, b: 2 }");
    let whole = Shown::R { a: 1, b: 2 };
    assert_eq!(c, format!("{:?}", whole));
    assert_eq!(e, format!("{:#?}", whole));
}

#[test]
fn positional_fields_and_placeholder() {
    let p = plan("P", Strategy::Tuple(vec![false, false]));
    let (c, e) = both(&p, &vec![own(&1u8), own(&2u8)]);
    let whole = Shown::P(1, 2);
    assert_eq!(c, format!("{:?}", whole));
    assert_eq!(e, format!("{:#?}", whole));
    let q = plan("P", Strategy::Tuple(vec![false, true]));
    let (c2, e2) = both(&q, &vec![own(&1u8), own(&2u8)]);
    assert_eq!(c2, "P(1, _)");
    assert_eq!(e2, "P(\n    1,\n    _,\n)");
}

#[test]
fn empty_field_lists_show_the_name() {
    let p = plan("E", Strategy::Tuple(vec![]));
    assert_eq!(both(&p, &vec![]), ("E".to_string(), "E".to_string()));
    let q = plan("S", Strategy::Struct(vec![]));
    assert_eq!(both(&q, &vec![]), ("S".to_string(), "S".to_string()));
}

#[test]
fn nested_value_follows_outer_mode() {
    let inner_plan = plan("R", Strategy::Struct(vec![t("a"), t("b")]));
    let fields = vec![own(&1u8), own(&2u8)];
    let nested = PayloadText {
        compact: render(&inner_plan, &fields, false),
        expanded: render(&inner_plan, &fields, true),
    };
    let outer = plan("W", Strategy::Single);
    let (c, e) = both(&outer, &vec![nested]);
    let whole = Outer::W(Shown::R { a: 1, b: 2 });
    assert_eq!(c, format!("{:?}", whole));
    assert_eq!(e, format!("{:#?}", whole));
    assert_eq!(e, "W(\n    R {\n        a: 1,\n        b: 2,\n    },\n)");
}

#[test]
fn every_strategy_renders_nonempty() {
    let cases = vec![
        (plan("A", Strategy::Bare), vec![]),
        (plan("B", Strategy::SkippedSingle), vec![text("", "")]),
        (plan("C", Strategy::Flatten(t("C"))), vec![text("C", "C")]),
        (plan("D", Strategy::Single), vec![text("", "")]),
        (plan("E", Strategy::Tuple(vec![true])), vec![text("", "")]),
        (plan("F", Strategy::Struct(vec![t("f")])), vec![text("", "")]),
    ];
    for (p, payload) in cases.iter() {
        let (c, e) = both(p, payload);
        assert!(!c.is_empty());
        assert!(!e.is_empty());
        assert!(c.starts_with(&s(&p.name)));
        assert!(e.starts_with(&s(&p.name)));
    }
}
