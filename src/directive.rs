use vstd::prelude::*;

use crate::model::{Annotation, Token};
use crate::text::chars_eq;

verus! {

/// The name of the annotation group whose arguments carry directives.
pub open spec fn group_name() -> Seq<char> {
    seq!['d', 'e', 'b', 'u', 'g']
}

pub open spec fn skip_marker() -> Seq<char> {
    seq!['s', 'k', 'i', 'p']
}

pub open spec fn flatten_marker() -> Seq<char> {
    seq!['f', 'l', 'a', 't', 't', 'e', 'n']
}

/// A path names the group when it is that single identifier.
pub open spec fn is_group_path(path: Seq<Vec<char>>) -> bool {
    path.len() == 1 && path[0]@ == group_name()
}

/// The annotation belongs to the group and its arguments hold `marker` as an identifier.
pub open spec fn carries_marker(a: Annotation, marker: Seq<char>) -> bool {
    match a {
        Annotation::List(path, tokens) => is_group_path(path@) && exists|j: int|
            0 <= j < tokens@.len() && #[trigger] is_ident_token(tokens@[j], marker),
        _ => false,
    }
}

pub open spec fn is_ident_token(t: Token, word: Seq<char>) -> bool {
    match t {
        Token::Ident(w) => w@ == word,
        Token::Other => false,
    }
}

/// Some annotation of the list carries `marker`.
pub open spec fn any_carries(attrs: Seq<Annotation>, marker: Seq<char>) -> bool {
    exists|i: int| 0 <= i < attrs.len() && #[trigger] carries_marker(attrs[i], marker)
}

pub open spec fn is_skipped(attrs: Seq<Annotation>) -> bool {
    any_carries(attrs, skip_marker())
}

pub open spec fn is_flattened(attrs: Seq<Annotation>) -> bool {
    any_carries(attrs, flatten_marker())
}

fn is_group(path: &Vec<Vec<char>>) -> (r: bool)
    ensures
        r == is_group_path(path@),
{
    if path.len() != 1 {
        return false;
    }
    let group: Vec<char> = vec!['d', 'e', 'b', 'u', 'g'];
    assert(group@ =~= group_name());
    chars_eq(&path[0], &group)
}

fn tokens_hold(tokens: &Vec<Token>, marker: &Vec<char>) -> (r: bool)
    ensures
        r == exists|j: int| 0 <= j < tokens@.len() && #[trigger] is_ident_token(tokens@[j], marker@),
{
    let mut j: usize = 0;
    while j < tokens.len()
        invariant
            j <= tokens@.len(),
            forall|k: int| 0 <= k < j ==> !#[trigger] is_ident_token(tokens@[k], marker@),
        decreases tokens.len() - j,
    {
        if let Token::Ident(w) = &tokens[j] {
            if chars_eq(w, marker) {
                assert(is_ident_token(tokens@[j as int], marker@));
                return true;
            }
        }
        j = j + 1;
    }
    false
}

fn annotation_carries(a: &Annotation, marker: &Vec<char>) -> (r: bool)
    ensures
        r == carries_marker(*a, marker@),
{
    match a {
        Annotation::List(path, tokens) => is_group(path) && tokens_hold(tokens, marker),
        _ => false,
    }
}

fn has_marker(attrs: &Vec<Annotation>, marker: &Vec<char>) -> (r: bool)
    ensures
        r == any_carries(attrs@, marker@),
{
    let mut i: usize = 0;
    while i < attrs.len()
        invariant
            i <= attrs@.len(),
            forall|k: int| 0 <= k < i ==> !#[trigger] carries_marker(attrs@[k], marker@),
        decreases attrs.len() - i,
    {
        if annotation_carries(&attrs[i], marker) {
            return true;
        }
        i = i + 1;
    }
    false
}

/// Whether the annotations mark their owner `skip`: some `debug(...)`
/// annotation holds the identifier `skip` among its arguments.
pub fn has_debug_skip(attrs: &Vec<Annotation>) -> (r: bool)
    ensures
        r == is_skipped(attrs@),
{
    let marker: Vec<char> = vec!['s', 'k', 'i', 'p'];
    assert(marker@ =~= skip_marker());
    has_marker(attrs, &marker)
}

/// Whether the annotations mark their owner `flatten`: some `debug(...)`
/// annotation holds the identifier `flatten` among its arguments.
pub fn has_debug_flatten(attrs: &Vec<Annotation>) -> (r: bool)
    ensures
        r == is_flattened(attrs@),
{
    let marker: Vec<char> = vec!['f', 'l', 'a', 't', 't', 'e', 'n'];
    assert(marker@ =~= flatten_marker());
    has_marker(attrs, &marker)
}

/// The directives attached to one variant.
pub struct Directives {
    pub skip: bool,
    pub flatten: bool,
}

/// Reads the `skip` and `flatten` directives of a variant's annotations.
pub fn read_directives(attrs: &Vec<Annotation>) -> (r: Directives)
    ensures
        r.skip == is_skipped(attrs@),
        r.flatten == is_flattened(attrs@),
{
    Directives { skip: has_debug_skip(attrs), flatten: has_debug_flatten(attrs) }
}

} // verus!
