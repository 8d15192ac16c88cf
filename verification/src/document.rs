//! The in-memory document the resolver works against: a root document that
//! owns an optional component container, which in turn holds one named map
//! per entity category. The entity types themselves are collaborators; only
//! the fields the resolver and its callers read are modelled here.

use crate::named_map::NamedMap;
use vstd::prelude::*;

verus! {

/// A value stored in the document: either present inline, or a pointer
/// string naming a component elsewhere in the document.
pub enum ReferenceOr<T> {
    Reference { reference: String },
    Item(T),
}

impl<T> ReferenceOr<T> {
    /// The inline value, if this node carries one.
    pub fn as_item(&self) -> (r: Option<&T>)
        ensures
            match r {
                Some(item) => *self == ReferenceOr::Item(*item),
                None => *self is Reference,
            },
    {
        match self {
            ReferenceOr::Item(item) => Some(item),
            ReferenceOr::Reference { .. } => None,
        }
    }
}

pub struct Callback {
    pub expression: Option<String>,
}

pub struct Example {
    pub summary: Option<String>,
}

pub struct Header {
    pub description: Option<String>,
}

pub struct Link {
    pub operation_id: Option<String>,
}

pub struct Parameter {
    pub name: String,
}

pub struct RequestBody {
    pub description: Option<String>,
}

pub struct SecurityScheme {
    pub scheme: Option<String>,
}

pub struct SchemaData {
    pub title: Option<String>,
}

pub struct StringType {
    pub pattern: Option<String>,
}

pub struct BooleanType {
}

pub enum Type {
    String(StringType),
    Boolean(BooleanType),
}

pub enum SchemaKind {
    Type(Type),
    Any,
}

pub struct Schema {
    pub schema_data: SchemaData,
    pub schema_kind: SchemaKind,
}

pub struct MediaType {
    pub schema: Option<ReferenceOr<Schema>>,
}

pub struct Response {
    pub content: NamedMap<MediaType>,
}

#[derive(PartialEq, Eq, Structural, Clone, Copy, Debug)]
pub enum StatusCode {
    Code(u16),
    Range(u16),
}

/// The mathematical content of a status-code-keyed entry list: later entries
/// shadow earlier ones with the same code.
pub open spec fn entries_map(s: Seq<(StatusCode, ReferenceOr<Response>)>) -> Map<
    StatusCode,
    ReferenceOr<Response>,
>
    decreases s.len(),
{
    if s.len() == 0 {
        Map::empty()
    } else {
        entries_map(s.drop_last()).insert(s.last().0, s.last().1)
    }
}

/// Lookup in a mathematical map as an `Option`.
pub open spec fn map_lookup<K, V>(m: Map<K, V>, k: K) -> Option<V> {
    if m.contains_key(k) {
        Some(m[k])
    } else {
        None
    }
}

/// The responses of an operation, keyed by status code.
pub struct ResponseMap {
    entries: Vec<(StatusCode, ReferenceOr<Response>)>,
}

impl View for ResponseMap {
    type V = Map<StatusCode, ReferenceOr<Response>>;

    closed spec fn view(&self) -> Map<StatusCode, ReferenceOr<Response>> {
        entries_map(self.entries@)
    }
}

impl ResponseMap {
    pub fn new() -> (r: Self)
        ensures
            r@ == Map::<StatusCode, ReferenceOr<Response>>::empty(),
    {
        ResponseMap { entries: Vec::new() }
    }

    pub fn insert(&mut self, code: StatusCode, node: ReferenceOr<Response>)
        ensures
            final(self)@ == old(self)@.insert(code, node),
    {
        self.entries.push((code, node));
        proof {
            assert(self.entries@.drop_last() =~= old(self).entries@);
        }
    }

    pub fn get<'a>(&'a self, code: &StatusCode) -> (r: Option<&'a ReferenceOr<Response>>)
        ensures
            match r {
                Some(node) => self@.contains_key(*code) && *node == self@[*code],
                None => !self@.contains_key(*code),
            },
    {
        let n = self.entries.len();
        let mut i: usize = n;
        proof {
            assert(self.entries@.take(n as int) =~= self.entries@);
        }
        while i > 0
            invariant
                i <= n,
                n == self.entries@.len(),
                map_lookup(entries_map(self.entries@), *code) == map_lookup(
                    entries_map(self.entries@.take(i as int)),
                    *code,
                ),
            decreases i,
        {
            let entry = &self.entries[i - 1];
            proof {
                assert(self.entries@.take(i as int).drop_last() =~= self.entries@.take(
                    i as int - 1,
                ));
                assert(self.entries@.take(i as int).last() == self.entries@[i as int - 1]);
            }
            if entry.0 == *code {
                return Some(&entry.1);
            }
            i = i - 1;
        }
        proof {
            assert(self.entries@.take(0) =~= Seq::<(StatusCode, ReferenceOr<Response>)>::empty());
        }
        None
    }
}

/// The responses declared for one operation.
pub struct Responses {
    pub responses: ResponseMap,
}

/// One operation of a path item.
pub struct Operation {
    pub responses: Responses,
}

/// One path of the document.
pub struct PathItem {
    pub get: Option<Operation>,
}

/// The document's paths section.
pub struct Paths {
    pub paths: NamedMap<ReferenceOr<PathItem>>,
}

/// The component container: one named map per entity category.
pub struct Components {
    pub security_schemes: NamedMap<ReferenceOr<SecurityScheme>>,
    pub responses: NamedMap<ReferenceOr<Response>>,
    pub parameters: NamedMap<ReferenceOr<Parameter>>,
    pub examples: NamedMap<ReferenceOr<Example>>,
    pub request_bodies: NamedMap<ReferenceOr<RequestBody>>,
    pub headers: NamedMap<ReferenceOr<Header>>,
    pub schemas: NamedMap<ReferenceOr<Schema>>,
    pub links: NamedMap<ReferenceOr<Link>>,
    pub callbacks: NamedMap<ReferenceOr<Callback>>,
}

impl Components {
    /// Every category map is well formed.
    pub open spec fn wf(self) -> bool {
        &&& self.security_schemes.wf()
        &&& self.responses.wf()
        &&& self.parameters.wf()
        &&& self.examples.wf()
        &&& self.request_bodies.wf()
        &&& self.headers.wf()
        &&& self.schemas.wf()
        &&& self.links.wf()
        &&& self.callbacks.wf()
    }

    /// A container with no components in any category.
    pub fn new() -> (r: Self)
        ensures
            r.wf(),
            r.security_schemes@ == Map::<Seq<char>, ReferenceOr<SecurityScheme>>::empty(),
            r.responses@ == Map::<Seq<char>, ReferenceOr<Response>>::empty(),
            r.parameters@ == Map::<Seq<char>, ReferenceOr<Parameter>>::empty(),
            r.examples@ == Map::<Seq<char>, ReferenceOr<Example>>::empty(),
            r.request_bodies@ == Map::<Seq<char>, ReferenceOr<RequestBody>>::empty(),
            r.headers@ == Map::<Seq<char>, ReferenceOr<Header>>::empty(),
            r.schemas@ == Map::<Seq<char>, ReferenceOr<Schema>>::empty(),
            r.links@ == Map::<Seq<char>, ReferenceOr<Link>>::empty(),
            r.callbacks@ == Map::<Seq<char>, ReferenceOr<Callback>>::empty(),
    {
        Components {
            security_schemes: NamedMap::new(),
            responses: NamedMap::new(),
            parameters: NamedMap::new(),
            examples: NamedMap::new(),
            request_bodies: NamedMap::new(),
            headers: NamedMap::new(),
            schemas: NamedMap::new(),
            links: NamedMap::new(),
            callbacks: NamedMap::new(),
        }
    }
}

/// The root document all resolution is performed against.
pub struct OpenAPI {
    pub paths: Paths,
    pub components: Option<Components>,
}

impl OpenAPI {
    /// The paths map and, when present, every category map are well formed.
    pub open spec fn wf(self) -> bool {
        &&& self.paths.paths.wf()
        &&& (self.components matches Some(c) ==> c.wf())
    }
}

} // verus!
