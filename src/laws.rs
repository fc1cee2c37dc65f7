use vstd::prelude::*;

use crate::layout::{concat, entry, indented, struct_layout, struct_part, tuple_layout, tuple_part};
use crate::plan::StrategyModel;
use crate::render::{accepts, own_text, own_texts, rendered, PayloadText};
use crate::text::is_prefix;

verus! {

/// A name with a one-field list, laid out in either mode.
proof fn lemma_one_field(name: Seq<char>, text: Seq<char>, expanded: bool)
    ensures
        tuple_layout(name, seq![text], expanded) == if expanded {
            name + seq!['(', '\n'] + indented(text + seq![',', '\n']) + seq![')']
        } else {
            name + seq!['('] + text + seq![')']
        },
{
    let items = seq![text];
    let parts = Seq::new(1, |i: int| tuple_part(items, i, expanded));
    assert(parts.drop_last() =~= Seq::<Seq<char>>::empty());
    assert(concat(parts) == concat(parts.drop_last()) + parts.last());
    assert(concat(parts) =~= parts[0]);
}

/// Every rendering opens with the variant's name, so a variant with a
/// non-empty name never renders as empty text, in either mode.
pub proof fn lemma_render_opens_with_name(
    name: Seq<char>,
    s: StrategyModel,
    texts: Seq<Seq<char>>,
    expanded: bool,
)
    requires
        accepts(s, texts.len() as int),
    ensures
        is_prefix(name, rendered(name, s, texts, expanded)),
        name.len() > 0 ==> rendered(name, s, texts, expanded).len() > 0,
{
    let r = rendered(name, s, texts, expanded);
    let tail = r.subrange(name.len() as int, r.len() as int);
    assert(r =~= name + tail) by {
        match s {
            StrategyModel::Tuple(mask) => {},
            _ => {},
        }
    }
    assert(r.subrange(0, name.len() as int) =~= name);
}

/// A variant without payload renders as its bare name, in either mode.
pub proof fn lemma_bare(name: Seq<char>, expanded: bool)
    ensures
        rendered(name, StrategyModel::Bare, Seq::empty(), expanded) == name,
{
}

/// A single payload whose field is skipped renders as the bare name,
/// whatever the payload's value.
pub proof fn lemma_skip_suppression(
    name: Seq<char>,
    x: Seq<Seq<char>>,
    y: Seq<Seq<char>>,
    expanded: bool,
)
    ensures
        rendered(name, StrategyModel::SkippedSingle, x, expanded) == name,
        rendered(name, StrategyModel::SkippedSingle, x, expanded) == rendered(
            name,
            StrategyModel::SkippedSingle,
            y,
            expanded,
        ),
{
}

/// A flattened payload whose own text opens with its type name renders as
/// that text with the type name replaced by the variant name.
pub proof fn lemma_flatten_substitution(
    name: Seq<char>,
    prefix: Seq<char>,
    rest: Seq<char>,
    expanded: bool,
)
    ensures
        rendered(name, StrategyModel::Flatten(prefix), seq![prefix + rest], expanded) == name
            + rest,
{
    let t = prefix + rest;
    assert(t.subrange(0, prefix.len() as int) =~= prefix);
    assert(t.subrange(prefix.len() as int, t.len() as int) =~= rest);
}

/// A flattened payload whose own text does not open with its type name is
/// shown as the single positional field of the variant.
pub proof fn lemma_flatten_fallback(
    name: Seq<char>,
    prefix: Seq<char>,
    text: Seq<char>,
    expanded: bool,
)
    requires
        !is_prefix(prefix, text),
    ensures
        rendered(name, StrategyModel::Flatten(prefix), seq![text], expanded) == rendered(
            name,
            StrategyModel::Single,
            seq![text],
            expanded,
        ),
        !expanded ==> rendered(name, StrategyModel::Flatten(prefix), seq![text], expanded) == name
            + seq!['('] + text + seq![')'],
{
    lemma_one_field(name, text, expanded);
}

/// A variant with two named fields renders, compactly, as its name and both
/// fields with their values, in declaration order.
pub proof fn lemma_named_fields(
    name: Seq<char>,
    a: Seq<char>,
    b: Seq<char>,
    x: Seq<char>,
    y: Seq<char>,
)
    ensures
        rendered(name, StrategyModel::Struct(seq![a, b]), seq![x, y], false) == name + seq![
            ' ',
            '{',
            ' ',
        ] + a + seq![':', ' '] + x + seq![',', ' '] + b + seq![':', ' '] + y + seq![' ', '}'],
{
    let labels = seq![a, b];
    let items = seq![x, y];
    let parts = Seq::new(2, |i: int| struct_part(labels, items, i, false));
    assert(parts.drop_last().drop_last() =~= Seq::<Seq<char>>::empty());
    assert(concat(parts.drop_last()) == concat(parts.drop_last().drop_last())
        + parts.drop_last().last());
    assert(concat(parts) == concat(parts.drop_last()) + parts.last());
    assert(concat(parts) =~= entry(a, x) + (seq![',', ' '] + entry(b, y)));
    assert(struct_layout(name, labels, items, false) == name + seq![' ', '{', ' '] + concat(parts)
        + seq![' ', '}']);
    assert(struct_layout(name, labels, items, false) =~= name + seq![' ', '{', ' '] + a + seq![
        ':',
        ' ',
    ] + x + seq![',', ' '] + b + seq![':', ' '] + y + seq![' ', '}']);
}

/// A payload that is itself a value rendered by the same routine is shown in
/// the mode requested of the outer value: expanded, its expanded text is
/// placed one level deeper, line by line; compact, its compact text is
/// placed within the parentheses.
pub proof fn lemma_mode_threading(
    outer: Seq<char>,
    inner: Seq<char>,
    inner_strategy: StrategyModel,
    inner_payload: Seq<PayloadText>,
    p: PayloadText,
    expanded: bool,
)
    requires
        p.compact@ == rendered(inner, inner_strategy, own_texts(inner_payload, false), false),
        p.expanded@ == rendered(inner, inner_strategy, own_texts(inner_payload, true), true),
    ensures
        ({
            let nested = rendered(inner, inner_strategy, own_texts(inner_payload, expanded), expanded);
            rendered(outer, StrategyModel::Single, own_texts(seq![p], expanded), expanded) == if expanded {
                outer + seq!['(', '\n'] + indented(nested + seq![',', '\n']) + seq![')']
            } else {
                outer + seq!['('] + nested + seq![')']
            }
        }),
{
    let nested = rendered(inner, inner_strategy, own_texts(inner_payload, expanded), expanded);
    assert(own_texts(seq![p], expanded) =~= seq![own_text(p, expanded)]);
    assert(own_text(p, expanded) == nested);
    lemma_one_field(outer, nested, expanded);
}

} // verus!
