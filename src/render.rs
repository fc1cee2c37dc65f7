use vstd::prelude::*;

use crate::layout::{lay_out_struct, lay_out_tuple, struct_layout, tuple_layout, views};
use crate::plan::{Strategy, StrategyModel, VariantPlan};
use crate::text::{copy_chars, is_prefix, starts_with};

verus! {

/// A payload value's own representation, in the compact and in the expanded mode.
pub struct PayloadText {
    pub compact: Vec<char>,
    pub expanded: Vec<char>,
}

/// The payload's own representation in the requested mode.
pub open spec fn own_text(p: PayloadText, expanded: bool) -> Seq<char> {
    if expanded {
        p.expanded@
    } else {
        p.compact@
    }
}

pub open spec fn own_texts(payload: Seq<PayloadText>, expanded: bool) -> Seq<Seq<char>> {
    payload.map_values(|p: PayloadText| own_text(p, expanded))
}

/// The number of payload values that a strategy consumes.
pub open spec fn accepts(s: StrategyModel, n: int) -> bool {
    match s {
        StrategyModel::Bare => n == 0,
        StrategyModel::SkippedSingle => n == 1,
        StrategyModel::Flatten(_) => n == 1,
        StrategyModel::Single => n == 1,
        StrategyModel::Tuple(mask) => n == mask.len(),
        StrategyModel::Struct(labels) => n == labels.len(),
    }
}

/// The positional fields as shown: a skipped one as the placeholder `_`.
pub open spec fn masked(mask: Seq<bool>, texts: Seq<Seq<char>>) -> Seq<Seq<char>> {
    Seq::new(texts.len(), |i: int| if mask[i] { seq!['_'] } else { texts[i] })
}

/// The text of a variant named `name`, rendered with strategy `s`, whose
/// payload values have the representations `texts` in the requested mode.
pub open spec fn rendered(
    name: Seq<char>,
    s: StrategyModel,
    texts: Seq<Seq<char>>,
    expanded: bool,
) -> Seq<char> {
    match s {
        StrategyModel::Bare => name,
        StrategyModel::SkippedSingle => name,
        StrategyModel::Flatten(prefix) => if is_prefix(prefix, texts[0]) {
            name + texts[0].subrange(prefix.len() as int, texts[0].len() as int)
        } else {
            tuple_layout(name, seq![texts[0]], expanded)
        },
        StrategyModel::Single => tuple_layout(name, seq![texts[0]], expanded),
        StrategyModel::Tuple(mask) => tuple_layout(name, masked(mask, texts), expanded),
        StrategyModel::Struct(labels) => struct_layout(name, labels, texts, expanded),
    }
}

fn pick_texts(payload: &Vec<PayloadText>, expanded: bool) -> (r: Vec<Vec<char>>)
    ensures
        views(r@) == own_texts(payload@, expanded),
{
    let mut r: Vec<Vec<char>> = Vec::new();
    let mut i: usize = 0;
    while i < payload.len()
        invariant
            i <= payload@.len(),
            r@.len() == i,
            forall|k: int| 0 <= k < i ==> (#[trigger] r@[k])@ == own_text(payload@[k], expanded),
        decreases payload.len() - i,
    {
        let p = &payload[i];
        let t = if expanded {
            copy_chars(&p.expanded)
        } else {
            copy_chars(&p.compact)
        };
        r.push(t);
        i = i + 1;
    }
    assert(views(r@) =~= own_texts(payload@, expanded));
    r
}

fn mask_texts(mask: &Vec<bool>, texts: Vec<Vec<char>>) -> (r: Vec<Vec<char>>)
    requires
        mask@.len() == texts@.len(),
    ensures
        views(r@) == masked(mask@, views(texts@)),
{
    let mut r: Vec<Vec<char>> = Vec::new();
    let mut i: usize = 0;
    while i < texts.len()
        invariant
            i <= texts@.len(),
            mask@.len() == texts@.len(),
            r@.len() == i,
            forall|k: int|
                0 <= k < i ==> (#[trigger] r@[k])@ == (if mask@[k] {
                    seq!['_']
                } else {
                    texts@[k]@
                }),
        decreases texts.len() - i,
    {
        if mask[i] {
            let placeholder: Vec<char> = vec!['_'];
            r.push(placeholder);
        } else {
            r.push(copy_chars(&texts[i]));
        }
        i = i + 1;
    }
    assert(views(r@) =~= masked(mask@, views(texts@)));
    r
}

/// Appends the part of `s` from `start` on to `r`.
fn append_from(r: &mut Vec<char>, s: &Vec<char>, start: usize)
    requires
        start <= s@.len(),
    ensures
        final(r)@ == old(r)@ + s@.subrange(start as int, s@.len() as int),
{
    let mut i: usize = start;
    while i < s.len()
        invariant
            start <= i <= s@.len(),
            r@ == old(r)@ + s@.subrange(start as int, i as int),
        decreases s.len() - i,
    {
        r.push(s[i]);
        assert(s@.subrange(start as int, i + 1) =~= s@.subrange(start as int, i as int).push(
            s@[i as int],
        ));
        i = i + 1;
    }
}

/// Renders one value of a variant, given its payload values' own representations.
///
/// The payload is shown in the mode requested of the whole value, so nested
/// values are rendered under the same mode.
pub fn render(plan: &VariantPlan, payload: &Vec<PayloadText>, expanded: bool) -> (r: Vec<char>)
    requires
        accepts(plan.strategy@, payload@.len() as int),
    ensures
        r@ == rendered(plan.name@, plan.strategy@, own_texts(payload@, expanded), expanded),
{
    let texts = pick_texts(payload, expanded);
    let ghost ts = own_texts(payload@, expanded);
    assert(texts@.len() == ts.len());
    match &plan.strategy {
        Strategy::Bare => copy_chars(&plan.name),
        Strategy::SkippedSingle => copy_chars(&plan.name),
        Strategy::Flatten(prefix) => {
            assert(texts@[0]@ == ts[0]);
            if starts_with(&texts[0], prefix) {
                let mut r = copy_chars(&plan.name);
                append_from(&mut r, &texts[0], prefix.len());
                r
            } else {
                assert(views(texts@) =~= seq![ts[0]]);
                lay_out_tuple(&plan.name, &texts, expanded)
            }
        },
        Strategy::Single => {
            assert(views(texts@) =~= seq![ts[0]]);
            lay_out_tuple(&plan.name, &texts, expanded)
        },
        Strategy::Tuple(mask) => {
            let items = mask_texts(mask, texts);
            lay_out_tuple(&plan.name, &items, expanded)
        },
        Strategy::Struct(labels) => lay_out_struct(&plan.name, labels, &texts, expanded),
    }
}

} // verus!
