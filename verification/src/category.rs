//! The binding between an entity type and its category: the literal segment
//! a pointer uses for it, and the category map that holds its components.
//! Each of the nine entity types binds to exactly one literal; there is no
//! cross-category fallback and matching is case-sensitive.

use crate::document::{
    Callback, Components, Example, Header, Link, Parameter, ReferenceOr, RequestBody, Response,
    Schema, SecurityScheme,
};
use crate::named_map::NamedMap;
use crate::text::{no_slash, str_eq};
use vstd::prelude::*;

verus! {

/// An entity type that lives in one category of the component container.
pub trait ComponentKind: Sized {
    /// The literal category segment bound to this type.
    spec fn category() -> Seq<char>;

    /// The category map that holds this type's components.
    spec fn map_in(c: Components) -> NamedMap<ReferenceOr<Self>>;

    /// A category literal never contains the separator.
    proof fn lemma_category_no_slash()
        ensures
            no_slash(Self::category()),
    ;

    /// A well-formed container has a well-formed map for this category.
    proof fn lemma_map_in_wf(c: Components)
        requires
            c.wf(),
        ensures
            Self::map_in(c).wf(),
    ;

    /// Whether a segment equals this type's category literal.
    fn category_matches(segment: &str) -> (r: bool)
        ensures
            r == (segment@ == Self::category()),
    ;

    /// The category map of this type inside a container.
    fn map_of(c: &Components) -> (r: &NamedMap<ReferenceOr<Self>>)
        ensures
            *r == Self::map_in(*c),
    ;
}

impl ComponentKind for Callback {
    open spec fn category() -> Seq<char> {
        "callbacks"@
    }

    open spec fn map_in(c: Components) -> NamedMap<ReferenceOr<Callback>> {
        c.callbacks
    }

    proof fn lemma_category_no_slash() {
        reveal_strlit("callbacks");
    }

    proof fn lemma_map_in_wf(c: Components) {
    }

    fn category_matches(segment: &str) -> (r: bool) {
        str_eq(segment, "callbacks")
    }

    fn map_of(c: &Components) -> (r: &NamedMap<ReferenceOr<Callback>>) {
        &c.callbacks
    }
}

impl ComponentKind for Example {
    open spec fn category() -> Seq<char> {
        "examples"@
    }

    open spec fn map_in(c: Components) -> NamedMap<ReferenceOr<Example>> {
        c.examples
    }

    proof fn lemma_category_no_slash() {
        reveal_strlit("examples");
    }

    proof fn lemma_map_in_wf(c: Components) {
    }

    fn category_matches(segment: &str) -> (r: bool) {
        str_eq(segment, "examples")
    }

    fn map_of(c: &Components) -> (r: &NamedMap<ReferenceOr<Example>>) {
        &c.examples
    }
}

impl ComponentKind for Header {
    open spec fn category() -> Seq<char> {
        "headers"@
    }

    open spec fn map_in(c: Components) -> NamedMap<ReferenceOr<Header>> {
        c.headers
    }

    proof fn lemma_category_no_slash() {
        reveal_strlit("headers");
    }

    proof fn lemma_map_in_wf(c: Components) {
    }

    fn category_matches(segment: &str) -> (r: bool) {
        str_eq(segment, "headers")
    }

    fn map_of(c: &Components) -> (r: &NamedMap<ReferenceOr<Header>>) {
        &c.headers
    }
}

impl ComponentKind for Link {
    open spec fn category() -> Seq<char> {
        "links"@
    }

    open spec fn map_in(c: Components) -> NamedMap<ReferenceOr<Link>> {
        c.links
    }

    proof fn lemma_category_no_slash() {
        reveal_strlit("links");
    }

    proof fn lemma_map_in_wf(c: Components) {
    }

    fn category_matches(segment: &str) -> (r: bool) {
        str_eq(segment, "links")
    }

    fn map_of(c: &Components) -> (r: &NamedMap<ReferenceOr<Link>>) {
        &c.links
    }
}

impl ComponentKind for Parameter {
    open spec fn category() -> Seq<char> {
        "parameters"@
    }

    open spec fn map_in(c: Components) -> NamedMap<ReferenceOr<Parameter>> {
        c.parameters
    }

    proof fn lemma_category_no_slash() {
        reveal_strlit("parameters");
    }

    proof fn lemma_map_in_wf(c: Components) {
    }

    fn category_matches(segment: &str) -> (r: bool) {
        str_eq(segment, "parameters")
    }

    fn map_of(c: &Components) -> (r: &NamedMap<ReferenceOr<Parameter>>) {
        &c.parameters
    }
}

impl ComponentKind for RequestBody {
    open spec fn category() -> Seq<char> {
        "requestBodies"@
    }

    open spec fn map_in(c: Components) -> NamedMap<ReferenceOr<RequestBody>> {
        c.request_bodies
    }

    proof fn lemma_category_no_slash() {
        reveal_strlit("requestBodies");
    }

    proof fn lemma_map_in_wf(c: Components) {
    }

    fn category_matches(segment: &str) -> (r: bool) {
        str_eq(segment, "requestBodies")
    }

    fn map_of(c: &Components) -> (r: &NamedMap<ReferenceOr<RequestBody>>) {
        &c.request_bodies
    }
}

impl ComponentKind for Response {
    open spec fn category() -> Seq<char> {
        "responses"@
    }

    open spec fn map_in(c: Components) -> NamedMap<ReferenceOr<Response>> {
        c.responses
    }

    proof fn lemma_category_no_slash() {
        reveal_strlit("responses");
    }

    proof fn lemma_map_in_wf(c: Components) {
    }

    fn category_matches(segment: &str) -> (r: bool) {
        str_eq(segment, "responses")
    }

    fn map_of(c: &Components) -> (r: &NamedMap<ReferenceOr<Response>>) {
        &c.responses
    }
}

impl ComponentKind for Schema {
    open spec fn category() -> Seq<char> {
        "schemas"@
    }

    open spec fn map_in(c: Components) -> NamedMap<ReferenceOr<Schema>> {
        c.schemas
    }

    proof fn lemma_category_no_slash() {
        reveal_strlit("schemas");
    }

    proof fn lemma_map_in_wf(c: Components) {
    }

    fn category_matches(segment: &str) -> (r: bool) {
        str_eq(segment, "schemas")
    }

    fn map_of(c: &Components) -> (r: &NamedMap<ReferenceOr<Schema>>) {
        &c.schemas
    }
}

impl ComponentKind for SecurityScheme {
    open spec fn category() -> Seq<char> {
        "securitySchemes"@
    }

    open spec fn map_in(c: Components) -> NamedMap<ReferenceOr<SecurityScheme>> {
        c.security_schemes
    }

    proof fn lemma_category_no_slash() {
        reveal_strlit("securitySchemes");
    }

    proof fn lemma_map_in_wf(c: Components) {
    }

    fn category_matches(segment: &str) -> (r: bool) {
        str_eq(segment, "securitySchemes")
    }

    fn map_of(c: &Components) -> (r: &NamedMap<ReferenceOr<SecurityScheme>>) {
        &c.security_schemes
    }
}

} // verus!
