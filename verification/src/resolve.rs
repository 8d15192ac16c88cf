//! Pointer resolution. A pointer string `#/components/<category>/<name>`
//! is parsed into its three segments and dispatched through the component
//! container into the matching category map; a node found there is either
//! the inline result or a further pointer, which is followed in turn. Every
//! failure — malformed prefix, missing separator, wrong category, absent
//! container, absent entry — collapses to `None`. Each resolution carries a
//! budget of remaining map lookups, so a cyclic chain of pointers fails
//! cleanly instead of recursing without bound.

use crate::MAX_HOPS;
use crate::category::ComponentKind;
use crate::document::{Components, OpenAPI, ReferenceOr};
use crate::named_map::NamedMap;
use crate::text::{find_slash, spec_find_slash, str_eq};
use vstd::prelude::*;

verus! {

/// The value an optional borrowed result stands for.
pub open spec fn deref_opt<T>(r: Option<&T>) -> Option<T> {
    match r {
        Some(t) => Some(*t),
        None => None,
    }
}

/// Whether a pointer string starts with the literal `#/`.
pub open spec fn has_pointer_prefix(path: Seq<char>) -> bool {
    path.len() >= 2 && path[0] == '#' && path[1] == '/'
}

/// What resolving a pointer string against the document yields, with at
/// most `fuel` map lookups left: the prefix `#/` is stripped, the first
/// segment must be `components`, and the rest is dispatched into the
/// component container, if the document has one.
pub open spec fn spec_resolve<T: ComponentKind>(doc: OpenAPI, path: Seq<char>, fuel: nat) -> Option<
    T,
>
    decreases fuel, 2int,
{
    if !has_pointer_prefix(path) {
        None
    } else {
        let rest = path.skip(2);
        match spec_find_slash(rest) {
            None => None,
            Some(i) => {
                if rest.take(i) != "components"@ {
                    None
                } else {
                    match doc.components {
                        Some(c) => spec_resolve_in_components::<T>(doc, c, rest.skip(i + 1), fuel),
                        None => None,
                    }
                }
            },
        }
    }
}

/// Dispatch inside the component container: the segment before the next
/// `/` names the category, which must be the one bound to `T`; everything
/// after that `/` — even if it contains further `/` characters — is the
/// name looked up in that category's map.
pub open spec fn spec_resolve_in_components<T: ComponentKind>(
    doc: OpenAPI,
    c: Components,
    path: Seq<char>,
    fuel: nat,
) -> Option<T>
    decreases fuel, 1int,
{
    match spec_find_slash(path) {
        None => None,
        Some(i) => {
            if path.take(i) != T::category() {
                None
            } else {
                spec_resolve_in_map::<T>(doc, T::map_in(c)@, path.skip(i + 1), fuel)
            }
        },
    }
}

/// Lookup in one category map: a missing name fails, an inline node is the
/// result, and a pointer node is resolved against the document with one
/// lookup less to spend.
pub open spec fn spec_resolve_in_map<T: ComponentKind>(
    doc: OpenAPI,
    entries: Map<Seq<char>, ReferenceOr<T>>,
    name: Seq<char>,
    fuel: nat,
) -> Option<T>
    decreases fuel, 0int,
{
    if fuel == 0 {
        None
    } else if !entries.contains_key(name) {
        None
    } else {
        match entries[name] {
            ReferenceOr::Item(item) => Some(item),
            ReferenceOr::Reference { reference } => spec_resolve::<T>(
                doc,
                reference@,
                (fuel - 1) as nat,
            ),
        }
    }
}

/// What resolving a reference node against the document yields: an inline
/// node is its own result, ignoring the document; a pointer node is
/// resolved with the full lookup budget.
pub open spec fn spec_resolve_node<T: ComponentKind>(node: ReferenceOr<T>, doc: OpenAPI) -> Option<
    T,
> {
    match node {
        ReferenceOr::Item(item) => Some(item),
        ReferenceOr::Reference { reference } => spec_resolve::<T>(doc, reference@, MAX_HOPS as nat),
    }
}

/// Resolve a pointer string against the document, spending at most `fuel`
/// map lookups.
pub fn resolve_pointer<'a, T: ComponentKind>(doc: &'a OpenAPI, path: &str, fuel: u32) -> (r: Option<
    &'a T,
>)
    requires
        doc.wf(),
    ensures
        deref_opt(r) == spec_resolve::<T>(*doc, path@, fuel as nat),
    decreases fuel, 2int,
{
    let n = path.unicode_len();
    if n < 2 {
        return None;
    }
    if path.get_char(0) != '#' || path.get_char(1) != '/' {
        return None;
    }
    let rest = path.substring_char(2, n);
    match find_slash(rest) {
        None => None,
        Some(i) => {
            proof {
                crate::text::lemma_find_slash_characterization(rest@);
            }
            let root_segment = rest.substring_char(0, i);
            let tail = rest.substring_char(i + 1, n - 2);
            if !str_eq(root_segment, "components") {
                return None;
            }
            match &doc.components {
                Some(c) => resolve_in_components::<T>(doc, c, tail, fuel),
                None => None,
            }
        },
    }
}

/// Dispatch a `<category>/<name>` path inside a component container.
pub fn resolve_in_components<'a, T: ComponentKind>(
    doc: &'a OpenAPI,
    c: &'a Components,
    path: &str,
    fuel: u32,
) -> (r: Option<&'a T>)
    requires
        doc.wf(),
        c.wf(),
    ensures
        deref_opt(r) == spec_resolve_in_components::<T>(*doc, *c, path@, fuel as nat),
    decreases fuel, 1int,
{
    let n = path.unicode_len();
    match find_slash(path) {
        None => None,
        Some(i) => {
            proof {
                crate::text::lemma_find_slash_characterization(path@);
            }
            let category_segment = path.substring_char(0, i);
            let name = path.substring_char(i + 1, n);
            if !T::category_matches(category_segment) {
                return None;
            }
            let m = T::map_of(c);
            proof {
                T::lemma_map_in_wf(*c);
            }
            resolve_in_map::<T>(doc, m, name, fuel)
        },
    }
}

/// Look a name up in one category map and follow the node found there.
pub fn resolve_in_map<'a, T: ComponentKind>(
    doc: &'a OpenAPI,
    m: &'a NamedMap<ReferenceOr<T>>,
    name: &str,
    fuel: u32,
) -> (r: Option<&'a T>)
    requires
        doc.wf(),
        m.wf(),
    ensures
        deref_opt(r) == spec_resolve_in_map::<T>(*doc, m@, name@, fuel as nat),
    decreases fuel, 0int,
{
    if fuel == 0 {
        return None;
    }
    match m.get(name) {
        None => None,
        Some(node) => match node {
            ReferenceOr::Item(item) => Some(item),
            ReferenceOr::Reference { reference } => resolve_pointer::<T>(
                doc,
                reference.as_str(),
                fuel - 1,
            ),
        },
    }
}

/// Resolution of a pointer string against the root document.
pub trait Resolve<T: ComponentKind> {
    /// What the document must satisfy for resolution.
    spec fn resolve_req(&self) -> bool;

    /// What resolution yields.
    spec fn resolve_spec(&self, path: Seq<char>) -> Option<T>;

    /// Resolve `path` against `self`, yielding a borrowed handle to the
    /// component the pointer denotes, or `None` if any step fails.
    fn resolve<'a>(&'a self, path: &str) -> (r: Option<&'a T>)
        requires
            self.resolve_req(),
        ensures
            deref_opt(r) == self.resolve_spec(path@),
    ;
}

impl<T: ComponentKind> Resolve<T> for OpenAPI {
    open spec fn resolve_req(&self) -> bool {
        self.wf()
    }

    open spec fn resolve_spec(&self, path: Seq<char>) -> Option<T> {
        spec_resolve::<T>(*self, path, MAX_HOPS as nat)
    }

    fn resolve<'a>(&'a self, path: &str) -> (r: Option<&'a T>) {
        resolve_pointer::<T>(self, path, MAX_HOPS)
    }
}

/// Resolution of a path relative to some part of the document, against the
/// root document.
pub trait ResolveWithOpenAPIAndPath<T: ComponentKind> {
    /// What `self` and the document must satisfy for resolution.
    spec fn resolve_req(&self, openapi: OpenAPI) -> bool;

    /// What resolution yields.
    spec fn resolve_spec(&self, openapi: OpenAPI, path: Seq<char>) -> Option<T>;

    /// Resolve `path` relative to `self`, following pointers through
    /// `openapi`.
    fn resolve<'a>(&'a self, openapi: &'a OpenAPI, path: &str) -> (r: Option<&'a T>)
        requires
            self.resolve_req(*openapi),
        ensures
            deref_opt(r) == self.resolve_spec(*openapi, path@),
    ;
}

impl<T: ComponentKind> ResolveWithOpenAPIAndPath<T> for Components {
    open spec fn resolve_req(&self, openapi: OpenAPI) -> bool {
        self.wf() && openapi.wf()
    }

    open spec fn resolve_spec(&self, openapi: OpenAPI, path: Seq<char>) -> Option<T> {
        spec_resolve_in_components::<T>(openapi, *self, path, MAX_HOPS as nat)
    }

    fn resolve<'a>(&'a self, openapi: &'a OpenAPI, path: &str) -> (r: Option<&'a T>) {
        resolve_in_components::<T>(openapi, self, path, MAX_HOPS)
    }
}

impl<T: ComponentKind> ResolveWithOpenAPIAndPath<T> for NamedMap<ReferenceOr<T>> {
    open spec fn resolve_req(&self, openapi: OpenAPI) -> bool {
        self.wf() && openapi.wf()
    }

    open spec fn resolve_spec(&self, openapi: OpenAPI, path: Seq<char>) -> Option<T> {
        spec_resolve_in_map::<T>(openapi, self@, path, MAX_HOPS as nat)
    }

    fn resolve<'a>(&'a self, openapi: &'a OpenAPI, path: &str) -> (r: Option<&'a T>) {
        resolve_in_map::<T>(openapi, self, path, MAX_HOPS)
    }
}

/// Resolution of a reference node against the root document.
pub trait ResolveWithOpenAPI<T: ComponentKind> {
    /// What the document must satisfy for resolution.
    spec fn resolve_req(&self, openapi: OpenAPI) -> bool;

    /// What resolution yields.
    spec fn resolve_spec(&self, openapi: OpenAPI) -> Option<T>;

    /// Resolve this node: an inline value is returned directly; a pointer
    /// is followed through `openapi`.
    fn resolve<'a>(&'a self, openapi: &'a OpenAPI) -> (r: Option<&'a T>)
        requires
            self.resolve_req(*openapi),
        ensures
            deref_opt(r) == self.resolve_spec(*openapi),
    ;
}

impl<T: ComponentKind> ResolveWithOpenAPI<T> for ReferenceOr<T> {
    open spec fn resolve_req(&self, openapi: OpenAPI) -> bool {
        openapi.wf()
    }

    open spec fn resolve_spec(&self, openapi: OpenAPI) -> Option<T> {
        spec_resolve_node::<T>(*self, openapi)
    }

    fn resolve<'a>(&'a self, openapi: &'a OpenAPI) -> (r: Option<&'a T>) {
        match self {
            ReferenceOr::Reference { reference } => resolve_pointer::<T>(
                openapi,
                reference.as_str(),
                MAX_HOPS,
            ),
            ReferenceOr::Item(item) => Some(item),
        }
    }
}

impl<T: ComponentKind> ResolveWithOpenAPI<T> for Option<ReferenceOr<T>> {
    open spec fn resolve_req(&self, openapi: OpenAPI) -> bool {
        openapi.wf()
    }

    open spec fn resolve_spec(&self, openapi: OpenAPI) -> Option<T> {
        match *self {
            Some(node) => spec_resolve_node::<T>(node, openapi),
            None => None,
        }
    }

    fn resolve<'a>(&'a self, openapi: &'a OpenAPI) -> (r: Option<&'a T>) {
        match self {
            Some(node) => node.resolve(openapi),
            None => None,
        }
    }
}

} // verus!
