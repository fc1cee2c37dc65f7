use vstd::prelude::*;

use crate::text::copy_chars;

verus! {

/// The parts of a text, joined in order.
pub open spec fn concat(parts: Seq<Seq<char>>) -> Seq<char>
    decreases parts.len(),
{
    if parts.len() == 0 {
        Seq::empty()
    } else {
        concat(parts.drop_last()) + parts.last()
    }
}

/// The character at `i`, preceded by one level of indentation when it opens a line.
pub open spec fn indent_piece(s: Seq<char>, i: int) -> Seq<char> {
    if i == 0 || s[i - 1] == '\n' {
        seq![' ', ' ', ' ', ' ', s[i]]
    } else {
        seq![s[i]]
    }
}

/// `s` with four spaces before every line that it opens.
pub open spec fn indented(s: Seq<char>) -> Seq<char>
    decreases s.len(),
{
    if s.len() == 0 {
        Seq::empty()
    } else {
        indented(s.drop_last()) + indent_piece(s, s.len() - 1)
    }
}

/// The text of one positional field within a field list.
pub open spec fn tuple_part(items: Seq<Seq<char>>, i: int, expanded: bool) -> Seq<char> {
    if expanded {
        indented(items[i] + seq![',', '\n'])
    } else if i == 0 {
        items[i]
    } else {
        seq![',', ' '] + items[i]
    }
}

/// A label and a value, as one named field is shown.
pub open spec fn entry(label: Seq<char>, value: Seq<char>) -> Seq<char> {
    label + seq![':', ' '] + value
}

/// The text of one named field within a field list.
pub open spec fn struct_part(labels: Seq<Seq<char>>, items: Seq<Seq<char>>, i: int, expanded: bool) -> Seq<char> {
    if expanded {
        indented(entry(labels[i], items[i]) + seq![',', '\n'])
    } else if i == 0 {
        entry(labels[i], items[i])
    } else {
        seq![',', ' '] + entry(labels[i], items[i])
    }
}

/// A name and positional fields: `N(a, b)`, or, expanded, one indented field per line.
pub open spec fn tuple_layout(name: Seq<char>, items: Seq<Seq<char>>, expanded: bool) -> Seq<char> {
    if items.len() == 0 {
        name
    } else if expanded {
        name + seq!['(', '\n'] + concat(Seq::new(items.len(), |i: int| tuple_part(items, i, true)))
            + seq![')']
    } else {
        name + seq!['('] + concat(Seq::new(items.len(), |i: int| tuple_part(items, i, false)))
            + seq![')']
    }
}

/// A name and named fields: `N { a: 1, b: 2 }`, or, expanded, one indented field per line.
pub open spec fn struct_layout(
    name: Seq<char>,
    labels: Seq<Seq<char>>,
    items: Seq<Seq<char>>,
    expanded: bool,
) -> Seq<char> {
    if items.len() == 0 {
        name
    } else if expanded {
        name + seq![' ', '{', '\n'] + concat(
            Seq::new(items.len(), |i: int| struct_part(labels, items, i, true)),
        ) + seq!['}']
    } else {
        name + seq![' ', '{', ' '] + concat(
            Seq::new(items.len(), |i: int| struct_part(labels, items, i, false)),
        ) + seq![' ', '}']
    }
}

/// The views of a list of texts.
pub open spec fn views(v: Seq<Vec<char>>) -> Seq<Seq<char>> {
    v.map_values(|t: Vec<char>| t@)
}

/// Appends `s` to `r`.
pub fn append(r: &mut Vec<char>, s: &Vec<char>)
    ensures
        final(r)@ == old(r)@ + s@,
{
    let mut i: usize = 0;
    while i < s.len()
        invariant
            i <= s@.len(),
            r@ == old(r)@ + s@.subrange(0, i as int),
        decreases s.len() - i,
    {
        r.push(s[i]);
        assert(s@.subrange(0, i + 1) =~= s@.subrange(0, i as int).push(s@[i as int]));
        i = i + 1;
    }
    assert(s@.subrange(0, i as int) =~= s@);
}

/// Appends `s` to `r` with every line that `s` opens indented.
pub fn append_indented(r: &mut Vec<char>, s: &Vec<char>)
    ensures
        final(r)@ == old(r)@ + indented(s@),
{
    let mut i: usize = 0;
    while i < s.len()
        invariant
            i <= s@.len(),
            r@ == old(r)@ + indented(s@.subrange(0, i as int)),
        decreases s.len() - i,
    {
        if i == 0 || s[i - 1] == '\n' {
            r.push(' ');
            r.push(' ');
            r.push(' ');
            r.push(' ');
        }
        r.push(s[i]);
        let ghost t = s@.subrange(0, i + 1);
        assert(t.drop_last() =~= s@.subrange(0, i as int));
        assert(indent_piece(t, i as int) =~= indent_piece(s@, i as int));
        i = i + 1;
    }
    assert(s@.subrange(0, i as int) =~= s@);
}

/// Joining one more part appends it.
pub proof fn lemma_concat_step(parts: Seq<Seq<char>>, i: int)
    requires
        0 <= i < parts.len(),
    ensures
        concat(parts.subrange(0, i + 1)) == concat(parts.subrange(0, i)) + parts[i],
{
    assert(parts.subrange(0, i + 1).drop_last() =~= parts.subrange(0, i));
}

/// Lays out a name and positional fields.
pub fn lay_out_tuple(name: &Vec<char>, items: &Vec<Vec<char>>, expanded: bool) -> (r: Vec<char>)
    ensures
        r@ == tuple_layout(name@, views(items@), expanded),
{
    let mut r = copy_chars(name);
    if items.len() == 0 {
        return r;
    }
    let ghost its = views(items@);
    let ghost parts = Seq::new(its.len(), |i: int| tuple_part(its, i, expanded));
    r.push('(');
    if expanded {
        r.push('\n');
    }
    let ghost start = r@;
    let mut i: usize = 0;
    while i < items.len()
        invariant
            i <= items@.len(),
            its == views(items@),
            parts == Seq::new(its.len(), |i: int| tuple_part(its, i, expanded)),
            r@ == start + concat(parts.subrange(0, i as int)),
        decreases items.len() - i,
    {
        assert(its[i as int] == items@[i as int]@);
        let ghost before = r@;
        if expanded {
            let mut piece = copy_chars(&items[i]);
            piece.push(',');
            piece.push('\n');
            assert(piece@ =~= its[i as int] + seq![',', '\n']);
            append_indented(&mut r, &piece);
        } else {
            if i > 0 {
                r.push(',');
                r.push(' ');
            }
            append(&mut r, &items[i]);
            if i > 0 {
                assert(r@ =~= before + (seq![',', ' '] + its[i as int]));
            }
        }
        assert(parts[i as int] == tuple_part(its, i as int, expanded));
        assert(r@ =~= before + parts[i as int]);
        proof {
            lemma_concat_step(parts, i as int);
        }
        assert(r@ =~= start + concat(parts.subrange(0, i + 1)));
        i = i + 1;
    }
    assert(parts.subrange(0, i as int) =~= parts);
    r.push(')');
    if expanded {
        assert(parts =~= Seq::new(its.len(), |i: int| tuple_part(its, i, true)));
    } else {
        assert(parts =~= Seq::new(its.len(), |i: int| tuple_part(its, i, false)));
    }
    r
}

/// Lays out a name and named fields.
pub fn lay_out_struct(
    name: &Vec<char>,
    labels: &Vec<Vec<char>>,
    items: &Vec<Vec<char>>,
    expanded: bool,
) -> (r: Vec<char>)
    requires
        labels@.len() == items@.len(),
    ensures
        r@ == struct_layout(name@, views(labels@), views(items@), expanded),
{
    let mut r = copy_chars(name);
    if items.len() == 0 {
        return r;
    }
    let ghost ls = views(labels@);
    let ghost its = views(items@);
    let ghost parts = Seq::new(its.len(), |i: int| struct_part(ls, its, i, expanded));
    r.push(' ');
    r.push('{');
    if expanded {
        r.push('\n');
    } else {
        r.push(' ');
    }
    let ghost start = r@;
    let mut i: usize = 0;
    while i < items.len()
        invariant
            i <= items@.len(),
            labels@.len() == items@.len(),
            ls == views(labels@),
            its == views(items@),
            parts == Seq::new(its.len(), |i: int| struct_part(ls, its, i, expanded)),
            r@ == start + concat(parts.subrange(0, i as int)),
        decreases items.len() - i,
    {
        assert(its[i as int] == items@[i as int]@);
        assert(ls[i as int] == labels@[i as int]@);
        let ghost before = r@;
        let mut piece = copy_chars(&labels[i]);
        piece.push(':');
        piece.push(' ');
        append(&mut piece, &items[i]);
        assert(piece@ =~= entry(ls[i as int], its[i as int]));
        if expanded {
            piece.push(',');
            piece.push('\n');
            assert(piece@ =~= entry(ls[i as int], its[i as int]) + seq![',', '\n']);
            append_indented(&mut r, &piece);
        } else {
            if i > 0 {
                r.push(',');
                r.push(' ');
            }
            append(&mut r, &piece);
            if i > 0 {
                assert(r@ =~= before + (seq![',', ' '] + entry(ls[i as int], its[i as int])));
            }
        }
        assert(parts[i as int] == struct_part(ls, its, i as int, expanded));
        assert(r@ =~= before + parts[i as int]);
        proof {
            lemma_concat_step(parts, i as int);
        }
        assert(r@ =~= start + concat(parts.subrange(0, i + 1)));
        i = i + 1;
    }
    assert(parts.subrange(0, i as int) =~= parts);
    if expanded {
        r.push('}');
        assert(parts =~= Seq::new(its.len(), |i: int| struct_part(ls, its, i, true)));
    } else {
        r.push(' ');
        r.push('}');
        assert(parts =~= Seq::new(its.len(), |i: int| struct_part(ls, its, i, false)));
    }
    r
}

} // verus!
