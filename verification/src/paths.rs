//! Path arithmetic, done by `camino` on the text of a path.
//!
//! How a path splits into components depends on the path syntax of the
//! platform the crate is built for, so the results are named here rather
//! than spelled out: on one build, the same text always gives the same
//! answer.

use camino::Utf8Path;
use vstd::prelude::*;

verus! {

/// The parent of `path`: what `Utf8Path::parent` returns for that text, or
/// `None` where the path ends in a root or is empty.
pub uninterp spec fn path_parent(path: Seq<char>) -> Option<Seq<char>>;

/// `tail` adjoined to `base`: what `Utf8Path::join` returns for the two texts.
pub uninterp spec fn path_join(base: Seq<char>, tail: Seq<char>) -> Seq<char>;

/// The components of `path`, each as its text: what `Utf8Path::components`
/// yields for that text, in order.
pub uninterp spec fn path_components(path: Seq<char>) -> Seq<Seq<char>>;

/// The text held by an optional string.
pub open spec fn text_of(s: Option<String>) -> Option<Seq<char>> {
    match s {
        Some(s) => Some(s@),
        None => None,
    }
}

/// `shorter` is a leading part of `longer`, and not all of it.
pub open spec fn is_proper_prefix(shorter: Seq<char>, longer: Seq<char>) -> bool {
    &&& shorter.len() < longer.len()
    &&& shorter == longer.subrange(0, shorter.len() as int)
}

/// `parent` is `path` without its final component: its text is a leading
/// part of the text of `path`, and its components are those of `path` but
/// for the last.
pub open spec fn is_without_final_component(parent: Seq<char>, path: Seq<char>) -> bool {
    &&& is_proper_prefix(parent, path)
    &&& path_components(path).len() > 0
    &&& path_components(parent) == path_components(path).drop_last()
}

/// A path is a bare name when it has at most one component: such a name says
/// nothing about the directory it lies in.
pub open spec fn is_bare_name(path: Seq<char>) -> bool {
    path_components(path).len() <= 1
}

/// Calls `camino::Utf8Path::parent`.
///
/// Trusted: the result is the named parent of the text; and where there is
/// one, it is the path without its final component.
#[verifier::external_body]
pub(crate) fn parent_of(path: &str) -> (parent: Option<String>)
    ensures
        text_of(parent) == path_parent(path@),
        parent matches Some(p) ==> is_without_final_component(p@, path@),
{
    match Utf8Path::new(path).parent() {
        Some(p) => Some(p.as_str().to_owned()),
        None => None,
    }
}

/// Calls `camino::Utf8Path::join`.
///
/// Trusted: the result is the named join of the two texts.
#[verifier::external_body]
pub(crate) fn join(base: &str, tail: &str) -> (joined: String)
    ensures
        joined@ == path_join(base@, tail@),
{
    Utf8Path::new(base).join(tail).into_string()
}

/// Calls `camino::Utf8Path::components` and hands out the text of each
/// component.
///
/// Trusted: the result holds the named components of the text, in order.
#[verifier::external_body]
pub(crate) fn components_of(path: &str) -> (components: Vec<String>)
    ensures
        components.deep_view() == path_components(path@),
{
    Utf8Path::new(path).components().map(|component| component.as_str().to_owned()).collect()
}

/// Whether `path` is a bare name.
pub fn bare_name(path: &str) -> (bare: bool)
    ensures
        bare == is_bare_name(path@),
{
    components_of(path).len() <= 1
}

} // verus!
