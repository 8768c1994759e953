//! Paths as text, with `/` between their components.

use vstd::prelude::*;
use crate::text::{begins_with, chars_of, finishes_with, has_prefix, has_suffix};

verus! {

/// The separator between the components of a path.
pub open spec fn separator() -> Seq<char> {
    seq!['/']
}

/// `component` adjoined to `base`. A component that starts at the root stands
/// for itself; otherwise it follows `base`, after a separator where `base` is
/// not empty and does not end in one.
pub open spec fn joined(base: Seq<char>, component: Seq<char>) -> Seq<char> {
    if begins_with(component, separator()) {
        component
    } else if base.len() == 0 || finishes_with(base, separator()) {
        base + component
    } else {
        base + separator() + component
    }
}

/// What `camino::Utf8Path::parent` makes of `path`: the path without its last
/// component, or `None` where the path ends in a root or is empty.
pub uninterp spec fn parent_of(path: Seq<char>) -> Option<Seq<char>>;

/// `camino::Utf8Path::parent`: the path without its final component, if there
/// is one.
#[verifier::external_body]
pub(crate) fn parent_path(path: &str) -> (r: Option<String>)
    ensures
        match r {
            Some(p) => parent_of(path@) == Some(p@),
            None => parent_of(path@) is None,
        },
{
    camino::Utf8Path::new(path).parent().map(|p| p.as_str().to_owned())
}

/// The separator as characters.
fn separator_chars() -> (sep: Vec<char>)
    ensures
        sep@ == separator(),
{
    let mut sep: Vec<char> = Vec::new();
    sep.push('/');
    assert(sep@ =~= separator());
    sep
}

/// Adjoins `component` to `base`.
pub fn join(base: &str, component: &str) -> (out: String)
    ensures
        out@ == joined(base@, component@),
{
    let sep = separator_chars();
    let base_chars = chars_of(base);
    let component_chars = chars_of(component);
    if has_prefix(&component_chars, &sep) {
        return component.to_owned();
    }
    let mut out = base.to_owned();
    if base_chars.len() != 0 && !has_suffix(&base_chars, &sep) {
        proof {
            reveal_strlit("/");
            assert("/"@ =~= separator());
        }
        out.append("/");
    }
    out.append(component);
    out
}

/// The ancestor of `path` that stands `levels` components above it.
pub open spec fn ancestor_of(path: Seq<char>, levels: nat) -> Option<Seq<char>>
    decreases levels,
{
    if levels == 0 {
        Some(path)
    } else {
        match parent_of(path) {
            Some(p) => ancestor_of(p, (levels - 1) as nat),
            None => None,
        }
    }
}

/// The ancestor of `path` that stands `levels` components above it, if the
/// path is that deep.
pub fn ancestor(path: &str, levels: usize) -> (r: Option<String>)
    ensures
        match r {
            Some(p) => ancestor_of(path@, levels as nat) == Some(p@),
            None => ancestor_of(path@, levels as nat) is None,
        },
{
    let mut current = path.to_owned();
    let mut left: usize = levels;
    while left > 0
        invariant
            ancestor_of(path@, levels as nat) == ancestor_of(current@, left as nat),
        decreases left,
    {
        match parent_path(current.as_str()) {
            Some(p) => {
                current = p;
            },
            None => {
                return None;
            },
        }
        left -= 1;
    }
    Some(current)
}

} // verus!
