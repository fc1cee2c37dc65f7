use vstd::prelude::*;

use crate::directive::{has_debug_skip, is_flattened, is_skipped, read_directives, Directives};
use crate::model::{
    simple_name, type_prefix, Data, FieldDescriptor, FieldType, Fields, TypeDescriptor,
    VariantDescriptor,
};
use crate::text::{chars_eq, copy_chars};

verus! {

/// How one variant is rendered.
pub enum Strategy {
    /// The variant name alone: a variant without payload.
    Bare,
    /// The variant name alone: a single payload whose field is marked `skip`.
    SkippedSingle,
    /// The payload's own text with its leading type name (the given prefix)
    /// replaced by the variant name.
    Flatten(Vec<char>),
    /// The variant name and the payload as one positional field.
    Single,
    /// The variant name and its positional fields; `true` marks a skipped
    /// field, shown as a placeholder.
    Tuple(Vec<bool>),
    /// The variant name and its fields, each shown under its name.
    Struct(Vec<Vec<char>>),
}

/// The mathematical form of a [`Strategy`].
pub enum StrategyModel {
    Bare,
    SkippedSingle,
    Flatten(Seq<char>),
    Single,
    Tuple(Seq<bool>),
    Struct(Seq<Seq<char>>),
}

impl View for Strategy {
    type V = StrategyModel;

    open spec fn view(&self) -> StrategyModel {
        match self {
            Strategy::Bare => StrategyModel::Bare,
            Strategy::SkippedSingle => StrategyModel::SkippedSingle,
            Strategy::Flatten(p) => StrategyModel::Flatten(p@),
            Strategy::Single => StrategyModel::Single,
            Strategy::Tuple(s) => StrategyModel::Tuple(s@),
            Strategy::Struct(names) => StrategyModel::Struct(names@.map_values(|n: Vec<char>| n@)),
        }
    }
}

/// The rendering decided for one variant.
pub struct VariantPlan {
    pub name: Vec<char>,
    pub strategy: Strategy,
}

/// Why no formatting routine can be generated for a type.
pub enum GenError {
    /// The named variant is marked both `skip` and `flatten`.
    ConflictingDirectives(Vec<char>),
    /// The named type is not a sum type.
    UnsupportedShape(Vec<char>),
}

/// A variant carries both directives, which contradict each other.
pub open spec fn conflicting(v: VariantDescriptor) -> bool {
    is_skipped(v.attrs@) && is_flattened(v.attrs@)
}

/// The label a named field is shown under.
pub open spec fn field_label(f: FieldDescriptor) -> Seq<char> {
    match f.name {
        Some(n) => n@,
        None => Seq::empty(),
    }
}

/// A single payload is shown through its own representation when the
/// variant is not marked `skip` and either the field's type is named like
/// the variant or the variant is marked `flatten`.
pub open spec fn flattens(v: VariantDescriptor, f: FieldDescriptor) -> bool {
    !is_skipped(v.attrs@) && (simple_name(f.ty) == Some(v.name@) || is_flattened(v.attrs@))
}

/// The strategy that a variant's shape and directives select.
pub open spec fn strategy_of(v: VariantDescriptor) -> StrategyModel {
    match v.fields {
        Fields::Unit => StrategyModel::Bare,
        Fields::Unnamed(fs) => if fs@.len() == 1 {
            if is_skipped(fs@[0].attrs@) {
                StrategyModel::SkippedSingle
            } else if flattens(v, fs@[0]) {
                StrategyModel::Flatten(type_prefix(fs@[0].ty))
            } else {
                StrategyModel::Single
            }
        } else {
            StrategyModel::Tuple(fs@.map_values(|f: FieldDescriptor| is_skipped(f.attrs@)))
        },
        Fields::Named(fs) => StrategyModel::Struct(fs@.map_values(|f: FieldDescriptor| field_label(f))),
    }
}

/// The variant at `i` is the first that is marked both `skip` and `flatten`.
pub open spec fn first_conflict_at(vs: Seq<VariantDescriptor>, i: int) -> bool {
    0 <= i < vs.len() && conflicting(vs[i]) && forall|k: int|
        0 <= k < i ==> !conflicting(#[trigger] vs[k])
}

/// `n` is the name of the first variant marked both `skip` and `flatten`.
pub open spec fn names_first_conflict(vs: Seq<VariantDescriptor>, n: Seq<char>) -> bool {
    exists|i: int| #[trigger] first_conflict_at(vs, i) && n == vs[i].name@
}

/// The plan is the one that the variant selects.
pub open spec fn plans_variant(p: VariantPlan, v: VariantDescriptor) -> bool {
    p.name@ == v.name@ && p.strategy@ == strategy_of(v)
}

/// The simple name of a field type and whether it has one.
fn declared_name(ty: &FieldType) -> (r: Option<Vec<char>>)
    ensures
        match r {
            Some(n) => simple_name(*ty) == Some(n@),
            None => simple_name(*ty) is None,
        },
{
    match ty {
        FieldType::Path(segs) => if segs.len() > 0 {
            Some(copy_chars(&segs[segs.len() - 1]))
        } else {
            None
        },
        FieldType::Other => None,
    }
}

fn skip_mask(fs: &Vec<FieldDescriptor>) -> (r: Vec<bool>)
    ensures
        r@ == fs@.map_values(|f: FieldDescriptor| is_skipped(f.attrs@)),
{
    let mut r: Vec<bool> = Vec::new();
    let mut i: usize = 0;
    while i < fs.len()
        invariant
            i <= fs@.len(),
            r@ == fs@.subrange(0, i as int).map_values(|f: FieldDescriptor| is_skipped(f.attrs@)),
        decreases fs.len() - i,
    {
        r.push(has_debug_skip(&fs[i].attrs));
        assert(fs@.subrange(0, i + 1) =~= fs@.subrange(0, i as int).push(fs@[i as int]));
        i = i + 1;
    }
    assert(fs@.subrange(0, i as int) =~= fs@);
    r
}

fn labels(fs: &Vec<FieldDescriptor>) -> (r: Vec<Vec<char>>)
    ensures
        r@.map_values(|n: Vec<char>| n@) == fs@.map_values(|f: FieldDescriptor| field_label(f)),
{
    let mut r: Vec<Vec<char>> = Vec::new();
    let mut i: usize = 0;
    while i < fs.len()
        invariant
            i <= fs@.len(),
            r@.map_values(|n: Vec<char>| n@) == fs@.subrange(0, i as int).map_values(
                |f: FieldDescriptor| field_label(f),
            ),
        decreases fs.len() - i,
    {
        let label = match &fs[i].name {
            Some(n) => copy_chars(n),
            None => Vec::new(),
        };
        assert(label@ == field_label(fs@[i as int]));
        let ghost before = r@;
        r.push(label);
        assert(fs@.subrange(0, i + 1) =~= fs@.subrange(0, i as int).push(fs@[i as int]));
        assert(r@ =~= before.push(label));
        assert(r@.map_values(|n: Vec<char>| n@) =~= before.map_values(|n: Vec<char>| n@).push(
            label@,
        ));
        assert(r@.map_values(|n: Vec<char>| n@) =~= fs@.subrange(0, i + 1).map_values(
            |f: FieldDescriptor| field_label(f),
        ));
        i = i + 1;
    }
    assert(fs@.subrange(0, i as int) =~= fs@);
    r
}

/// Selects the strategy of a variant, given its directives, when it is not
/// marked both `skip` and `flatten`.
pub fn plan_variant(v: &VariantDescriptor, d: &Directives) -> (r: VariantPlan)
    requires
        d.skip == is_skipped(v.attrs@),
        d.flatten == is_flattened(v.attrs@),
        !conflicting(*v),
    ensures
        plans_variant(r, *v),
{
    let name = copy_chars(&v.name);
    let strategy = match &v.fields {
        Fields::Unit => Strategy::Bare,
        Fields::Unnamed(fs) => if fs.len() == 1 {
            let f = &fs[0];
            if has_debug_skip(&f.attrs) {
                Strategy::SkippedSingle
            } else {
                let tn = declared_name(&f.ty);
                let named_alike = match &tn {
                    Some(n) => chars_eq(n, &v.name),
                    None => false,
                };
                if !d.skip && (named_alike || d.flatten) {
                    let prefix = match tn {
                        Some(n) => n,
                        None => Vec::new(),
                    };
                    assert(prefix@ == type_prefix(f.ty));
                    Strategy::Flatten(prefix)
                } else {
                    Strategy::Single
                }
            }
        } else {
            Strategy::Tuple(skip_mask(fs))
        },
        Fields::Named(fs) => Strategy::Struct(labels(fs)),
    };
    VariantPlan { name, strategy }
}

/// Plans the rendering of every variant of a sum type.
///
/// Fails with `UnsupportedShape` when the type is not a sum type, and with
/// `ConflictingDirectives` naming the first variant marked both `skip` and
/// `flatten`; on success yields one plan per variant, in declaration order.
pub fn derive_debug_flat(t: &TypeDescriptor) -> (r: Result<Vec<VariantPlan>, GenError>)
    ensures
        match t.data {
            Data::Enum(vs) => match r {
                Ok(ps) => (forall|i: int| 0 <= i < vs@.len() ==> !conflicting(#[trigger] vs@[i]))
                    && ps@.len() == vs@.len() && forall|i: int|
                    0 <= i < vs@.len() ==> plans_variant(#[trigger] ps@[i], vs@[i]),
                Err(GenError::ConflictingDirectives(n)) => names_first_conflict(vs@, n@),
                Err(GenError::UnsupportedShape(_)) => false,
            },
            _ => match r {
                Err(GenError::UnsupportedShape(n)) => n@ == t.name@,
                _ => false,
            },
        },
{
    match &t.data {
        Data::Enum(vs) => {
            let mut ps: Vec<VariantPlan> = Vec::new();
            let mut i: usize = 0;
            while i < vs.len()
                invariant
                    t.data == Data::Enum(*vs),
                    i <= vs@.len(),
                    ps@.len() == i,
                    forall|k: int| 0 <= k < i ==> !conflicting(#[trigger] vs@[k]),
                    forall|k: int| 0 <= k < i ==> plans_variant(#[trigger] ps@[k], vs@[k]),
                decreases vs.len() - i,
            {
                let v = &vs[i];
                let d = read_directives(&v.attrs);
                if d.skip && d.flatten {
                    let n = copy_chars(&v.name);
                    assert(first_conflict_at(vs@, i as int));
                    return Err(GenError::ConflictingDirectives(n));
                }
                ps.push(plan_variant(v, &d));
                i = i + 1;
            }
            Ok(ps)
        },
        _ => Err(GenError::UnsupportedShape(copy_chars(&t.name))),
    }
}

} // verus!
