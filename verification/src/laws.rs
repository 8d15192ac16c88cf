//! The resolution laws, each stated over the spec model and proved for
//! every document and every lookup budget.

use crate::category::ComponentKind;
use crate::document::{Components, OpenAPI, ReferenceOr};
use crate::resolve::{
    has_pointer_prefix, spec_resolve, spec_resolve_in_map, spec_resolve_node,
};
use crate::text::{lemma_find_slash_at, no_slash};
use vstd::prelude::*;

verus! {

/// The canonical pointer string for a component: `#/components/` followed
/// by the category segment, a `/`, and the name.
pub open spec fn component_pointer(category: Seq<char>, name: Seq<char>) -> Seq<char> {
    "#/components/"@ + category + "/"@ + name
}

/// How a canonical component pointer resolves: straight through the
/// container into the category map bound to `T` — or to nothing, when the
/// document has no container or the pointer names another category.
pub proof fn lemma_resolve_component_pointer<T: ComponentKind>(
    doc: OpenAPI,
    category: Seq<char>,
    name: Seq<char>,
    fuel: nat,
)
    requires
        no_slash(category),
    ensures
        spec_resolve::<T>(doc, component_pointer(category, name), fuel) == (match doc.components {
            Some(c) => {
                if category == T::category() {
                    spec_resolve_in_map::<T>(doc, T::map_in(c)@, name, fuel)
                } else {
                    None
                }
            },
            None => None,
        }),
{
    reveal_strlit("#/components/");
    reveal_strlit("components");
    reveal_strlit("/");
    let path = component_pointer(category, name);
    assert(has_pointer_prefix(path));
    let rest = path.skip(2);
    assert(rest.take(10) =~= "components"@);
    assert(forall|j: int| 0 <= j < 10 ==> #[trigger] rest.take(10)[j] != '/');
    assert(rest[10] == '/');
    lemma_find_slash_at(rest, 10);
    let tail = rest.skip(11);
    assert(tail =~= category + "/"@ + name);
    assert(tail.take(category.len() as int) =~= category);
    assert(tail[category.len() as int] == '/');
    lemma_find_slash_at(tail, category.len() as int);
    assert(tail.skip(category.len() as int + 1) =~= name);
}

/// Inline identity: a reference node carrying an inline value resolves to
/// that value, for any document — the document plays no part.
pub proof fn lemma_inline_identity<T: ComponentKind>(item: T, doc: OpenAPI)
    ensures
        spec_resolve_node::<T>(ReferenceOr::Item(item), doc) == Some(item),
{
}

/// Direct lookup: a category map entry holding an inline value is found
/// under its canonical pointer, with any budget that allows the lookup.
pub proof fn lemma_direct_lookup<T: ComponentKind>(
    doc: OpenAPI,
    c: Components,
    name: Seq<char>,
    item: T,
    fuel: nat,
)
    requires
        doc.components == Some(c),
        T::map_in(c)@.contains_key(name),
        T::map_in(c)@[name] == ReferenceOr::Item(item),
        fuel >= 1,
    ensures
        spec_resolve::<T>(doc, component_pointer(T::category(), name), fuel) == Some(item),
{
    T::lemma_category_no_slash();
    lemma_resolve_component_pointer::<T>(doc, T::category(), name, fuel);
}

/// Transitive chains, one hop at a time: if an entry points at a pointer
/// string that resolves to a value, the entry's own canonical pointer
/// resolves to that value with one more lookup to spend. Applied
/// repeatedly from a direct lookup, this resolves a chain of any finite
/// length to its terminal inline value.
pub proof fn lemma_reference_step<T: ComponentKind>(
    doc: OpenAPI,
    c: Components,
    name: Seq<char>,
    pointer: String,
    target: T,
    fuel: nat,
)
    requires
        doc.components == Some(c),
        T::map_in(c)@.contains_key(name),
        T::map_in(c)@[name] == (ReferenceOr::<T>::Reference { reference: pointer }),
        spec_resolve::<T>(doc, pointer@, fuel) == Some(target),
    ensures
        spec_resolve::<T>(doc, component_pointer(T::category(), name), fuel + 1) == Some(target),
{
    T::lemma_category_no_slash();
    lemma_resolve_component_pointer::<T>(doc, T::category(), name, fuel + 1);
}

/// A chain inside the category map bound to `T`: every name but the last
/// points at the next name's canonical pointer, and the last name holds an
/// inline value.
pub open spec fn chain_in_map<T: ComponentKind>(
    m: Map<Seq<char>, ReferenceOr<T>>,
    names: Seq<Seq<char>>,
    item: T,
) -> bool {
    &&& names.len() >= 1
    &&& (forall|i: int|
        0 <= i < names.len() - 1 ==> #[trigger] m.contains_key(names[i]) && (exists|p: String|
            m[names[i]] == (ReferenceOr::<T>::Reference { reference: p }) && p@
                == component_pointer(T::category(), names[i + 1])))
    &&& m.contains_key(names.last())
    &&& m[names.last()] == ReferenceOr::Item(item)
}

/// Transitive chains of any finite length: a chain of pointers through one
/// category map resolves, from its first name, to the terminal inline
/// value, with any budget that covers one lookup per link.
pub proof fn lemma_chain_resolves<T: ComponentKind>(
    doc: OpenAPI,
    c: Components,
    names: Seq<Seq<char>>,
    item: T,
    fuel: nat,
)
    requires
        doc.components == Some(c),
        chain_in_map::<T>(T::map_in(c)@, names, item),
        fuel >= names.len(),
    ensures
        spec_resolve::<T>(doc, component_pointer(T::category(), names[0]), fuel) == Some(item),
    decreases names.len(),
{
    let m = T::map_in(c)@;
    if names.len() == 1 {
        lemma_direct_lookup::<T>(doc, c, names[0], item, fuel);
    } else {
        let rest = names.skip(1);
        assert(rest.last() == names.last());
        assert forall|i: int| 0 <= i < rest.len() - 1 implies #[trigger] m.contains_key(rest[i])
            && (exists|p: String|
            m[rest[i]] == (ReferenceOr::<T>::Reference { reference: p }) && p@
                == component_pointer(T::category(), rest[i + 1])) by {
            assert(m.contains_key(names[i + 1]));
            assert(rest[i] == names[i + 1]);
            assert(rest[i + 1] == names[i + 2]);
        }
        lemma_chain_resolves::<T>(doc, c, rest, item, (fuel - 1) as nat);
        assert(m.contains_key(names[0]));
        let p = choose|p: String|
            m[names[0]] == (ReferenceOr::<T>::Reference { reference: p }) && p@
                == component_pointer(T::category(), names[1]);
        assert(rest[0] == names[1]);
        lemma_reference_step::<T>(doc, c, names[0], p, item, (fuel - 1) as nat);
    }
}

/// Malformed prefix: a path that does not start with `#/` resolves to
/// nothing, whatever the document holds.
pub proof fn lemma_malformed_prefix<T: ComponentKind>(doc: OpenAPI, path: Seq<char>, fuel: nat)
    requires
        !has_pointer_prefix(path),
    ensures
        spec_resolve::<T>(doc, path, fuel) is None,
{
}

/// Unknown category: a pointer whose category segment is not the literal
/// bound to `T` resolves to nothing for `T`, whatever name follows.
pub proof fn lemma_unknown_category<T: ComponentKind>(
    doc: OpenAPI,
    category: Seq<char>,
    name: Seq<char>,
    fuel: nat,
)
    requires
        no_slash(category),
        category != T::category(),
    ensures
        spec_resolve::<T>(doc, component_pointer(category, name), fuel) is None,
{
    lemma_resolve_component_pointer::<T>(doc, category, name, fuel);
}

/// Absent container: without a component container nothing resolves.
pub proof fn lemma_no_components<T: ComponentKind>(
    doc: OpenAPI,
    category: Seq<char>,
    name: Seq<char>,
    fuel: nat,
)
    requires
        no_slash(category),
        doc.components is None,
    ensures
        spec_resolve::<T>(doc, component_pointer(category, name), fuel) is None,
{
    lemma_resolve_component_pointer::<T>(doc, category, name, fuel);
}

/// Missing key: a pointer whose name has no entry in the category map
/// resolves to nothing.
pub proof fn lemma_missing_key<T: ComponentKind>(
    doc: OpenAPI,
    c: Components,
    name: Seq<char>,
    fuel: nat,
)
    requires
        doc.components == Some(c),
        !T::map_in(c)@.contains_key(name),
    ensures
        spec_resolve::<T>(doc, component_pointer(T::category(), name), fuel) is None,
{
    T::lemma_category_no_slash();
    lemma_resolve_component_pointer::<T>(doc, T::category(), name, fuel);
}

/// No sub-path descent: everything after the category segment is one name.
/// A pointer with a further `/` is looked up under the whole remaining
/// tail, and fails when no entry carries literally that tail as its name —
/// whatever entry the part before the extra `/` may have.
pub proof fn lemma_no_subpath_descent<T: ComponentKind>(
    doc: OpenAPI,
    c: Components,
    name: Seq<char>,
    extra: Seq<char>,
    fuel: nat,
)
    requires
        doc.components == Some(c),
        !T::map_in(c)@.contains_key(name + seq!['/'] + extra),
    ensures
        spec_resolve::<T>(
            doc,
            component_pointer(T::category(), name + seq!['/'] + extra),
            fuel,
        ) is None,
{
    lemma_missing_key::<T>(doc, c, name + seq!['/'] + extra, fuel);
}

/// Cycle safety: two entries pointing at each other's canonical pointers
/// resolve to nothing, with any budget — resolution runs out of lookups
/// and fails instead of following the cycle forever.
pub proof fn lemma_cycle_resolves_to_none<T: ComponentKind>(
    doc: OpenAPI,
    c: Components,
    name_a: Seq<char>,
    name_b: Seq<char>,
    pointer_a: String,
    pointer_b: String,
    fuel: nat,
)
    requires
        doc.components == Some(c),
        T::map_in(c)@.contains_key(name_a),
        T::map_in(c)@[name_a] == (ReferenceOr::<T>::Reference { reference: pointer_b }),
        pointer_b@ == component_pointer(T::category(), name_b),
        T::map_in(c)@.contains_key(name_b),
        T::map_in(c)@[name_b] == (ReferenceOr::<T>::Reference { reference: pointer_a }),
        pointer_a@ == component_pointer(T::category(), name_a),
    ensures
        spec_resolve::<T>(doc, pointer_a@, fuel) is None,
        spec_resolve::<T>(doc, pointer_b@, fuel) is None,
    decreases fuel,
{
    T::lemma_category_no_slash();
    lemma_resolve_component_pointer::<T>(doc, T::category(), name_a, fuel);
    lemma_resolve_component_pointer::<T>(doc, T::category(), name_b, fuel);
    if fuel > 0 {
        lemma_cycle_resolves_to_none::<T>(
            doc,
            c,
            name_a,
            name_b,
            pointer_a,
            pointer_b,
            (fuel - 1) as nat,
        );
    }
}

} // verus!
