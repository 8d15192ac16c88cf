use openapi_resolve::document::{
    Components, MediaType, OpenAPI, Operation, PathItem, Paths, ReferenceOr, Response, ResponseMap,
    Responses, Schema, SchemaData, SchemaKind, StatusCode, StringType, Type,
};
use openapi_resolve::named_map::NamedMap;
use openapi_resolve::resolve::{resolve_pointer, Resolve, ResolveWithOpenAPI};

fn schema_titled(title: &str) -> Schema {
    Schema {
        schema_data: SchemaData {
            title: Some(title.to_string()),
        },
        schema_kind: SchemaKind::Type(Type::String(StringType { pattern: None })),
    }
}

fn empty_document() -> OpenAPI {
    OpenAPI {
        paths: Paths {
            paths: NamedMap::new(),
        },
        components: None,
    }
}

fn document_with_schemas(schemas: NamedMap<ReferenceOr<Schema>>) -> OpenAPI {
    let mut components = Components::new();
    components.schemas = schemas;
    OpenAPI {
        paths: Paths {
            paths: NamedMap::new(),
        },
        components: Some(components),
    }
}

#[test]
fn resolve_index_map_schema() {
    let mut responses = NamedMap::new();
    responses.insert(
        "response_1".to_string(),
        ReferenceOr::Reference {
            reference: "#/components/responses/response_2".to_string(),
        },
    );
    let mut content = NamedMap::new();
    content.insert(
        "application/json".to_string(),
        MediaType {
            schema: Some(ReferenceOr::Reference {
                reference: "#/components/schemas/schema_1".to_string(),
            }),
        },
    );
    responses.insert(
        "response_2".to_string(),
        ReferenceOr::Item(Response { content }),
    );

    let mut schemas = NamedMap::new();
    schemas.insert(
        "schema_1".to_string(),
        ReferenceOr::Reference {
            reference: "#/components/schemas/schema_2".to_string(),
        },
    );
    schemas.insert(
        "schema_2".to_string(),
        ReferenceOr::Item(schema_titled("schema_2")),
    );

    let mut components = Components::new();
    components.responses = responses;
    components.schemas = schemas;

    let mut status_responses = ResponseMap::new();
    status_responses.insert(
        StatusCode::Code(200),
        ReferenceOr::Reference {
            reference: "#/components/responses/response_1".to_string(),
        },
    );
    let mut paths = NamedMap::new();
    paths.insert(
        "/".to_string(),
        ReferenceOr::Item(PathItem {
            get: Some(Operation {
                responses: Responses {
                    responses: status_responses,
                },
            }),
        }),
    );

    let openapi = OpenAPI {
        paths: Paths { paths },
        components: Some(components),
    };

    let path: &PathItem = openapi
        .paths
        .paths
        .get("/")
        .expect("able to get path")
        .as_item()
        .expect("able to resolve path");

    let get = path.get.as_ref().expect("expect to be able to get 'get'");
    let reponse_200 = get
        .responses
        .responses
        .get(&StatusCode::Code(200))
        .expect("able to get response 200");

    let content_json = reponse_200
        .resolve(&openapi)
        .expect("able to resolve response 200")
        .content
        .get("application/json")
        .expect("able to get content");

    let schema = content_json
        .schema
        .resolve(&openapi)
        .expect("able to resolve schema");

    assert_eq!(schema.schema_data.title.as_ref().unwrap(), "schema_2");
}

#[test]
fn inline_node_ignores_document() {
    let node = ReferenceOr::Item(schema_titled("inline"));
    let doc = empty_document();
    let resolved = node.resolve(&doc).expect("inline node resolves");
    assert_eq!(resolved.schema_data.title.as_ref().unwrap(), "inline");
}

#[test]
fn absent_optional_node_resolves_to_none() {
    let node: Option<ReferenceOr<Schema>> = None;
    let doc = empty_document();
    assert!(node.resolve(&doc).is_none());
}

#[test]
fn direct_lookup_finds_inline_entry() {
    let mut schemas = NamedMap::new();
    schemas.insert("pet".to_string(), ReferenceOr::Item(schema_titled("Pet")));
    let doc = document_with_schemas(schemas);
    let found: Option<&Schema> = doc.resolve("#/components/schemas/pet");
    assert_eq!(
        found.expect("direct lookup").schema_data.title.as_ref().unwrap(),
        "Pet"
    );
}

#[test]
fn transitive_chain_reaches_terminal_item() {
    let mut schemas = NamedMap::new();
    schemas.insert(
        "first".to_string(),
        ReferenceOr::Reference {
            reference: "#/components/schemas/second".to_string(),
        },
    );
    schemas.insert(
        "second".to_string(),
        ReferenceOr::Reference {
            reference: "#/components/schemas/third".to_string(),
        },
    );
    schemas.insert("third".to_string(), ReferenceOr::Item(schema_titled("end")));
    let doc = document_with_schemas(schemas);
    let found: Option<&Schema> = doc.resolve("#/components/schemas/first");
    assert_eq!(
        found.expect("chain resolves").schema_data.title.as_ref().unwrap(),
        "end"
    );
}

#[test]
fn malformed_prefix_fails() {
    let mut schemas = NamedMap::new();
    schemas.insert("pet".to_string(), ReferenceOr::Item(schema_titled("Pet")));
    let doc = document_with_schemas(schemas);
    let plain: Option<&Schema> = doc.resolve("components/schemas/pet");
    assert!(plain.is_none());
    let no_slash: Option<&Schema> = doc.resolve("#components/schemas/pet");
    assert!(no_slash.is_none());
    let empty: Option<&Schema> = doc.resolve("");
    assert!(empty.is_none());
}

#[test]
fn missing_separator_fails() {
    let mut schemas = NamedMap::new();
    schemas.insert("pet".to_string(), ReferenceOr::Item(schema_titled("Pet")));
    let doc = document_with_schemas(schemas);
    let bare: Option<&Schema> = doc.resolve("#/components");
    assert!(bare.is_none());
    let no_name: Option<&Schema> = doc.resolve("#/componentsschemas");
    assert!(no_name.is_none());
}

#[test]
fn unknown_root_segment_fails() {
    let mut schemas = NamedMap::new();
    schemas.insert("pet".to_string(), ReferenceOr::Item(schema_titled("Pet")));
    let doc = document_with_schemas(schemas);
    let other_root: Option<&Schema> = doc.resolve("#/paths/schemas/pet");
    assert!(other_root.is_none());
}

#[test]
fn unknown_category_fails() {
    let mut schemas = NamedMap::new();
    schemas.insert("pet".to_string(), ReferenceOr::Item(schema_titled("Pet")));
    let doc = document_with_schemas(schemas);
    let unknown: Option<&Schema> = doc.resolve("#/components/widgets/pet");
    assert!(unknown.is_none());
}

#[test]
fn other_category_of_same_name_fails() {
    let mut schemas = NamedMap::new();
    schemas.insert("shared".to_string(), ReferenceOr::Item(schema_titled("S")));
    let doc = document_with_schemas(schemas);
    // The entry exists under `schemas`, so a response-typed resolution of the
    // `responses` pointer with the same name finds nothing.
    let as_response: Option<&Response> = doc.resolve("#/components/responses/shared");
    assert!(as_response.is_none());
}

#[test]
fn missing_key_fails() {
    let mut schemas = NamedMap::new();
    schemas.insert("pet".to_string(), ReferenceOr::Item(schema_titled("Pet")));
    let doc = document_with_schemas(schemas);
    let missing: Option<&Schema> = doc.resolve("#/components/schemas/toy");
    assert!(missing.is_none());
}

#[test]
fn absent_container_fails() {
    let doc = empty_document();
    let nothing: Option<&Schema> = doc.resolve("#/components/schemas/pet");
    assert!(nothing.is_none());
}

#[test]
fn no_subpath_descent() {
    let mut schemas = NamedMap::new();
    schemas.insert(
        "schema_1".to_string(),
        ReferenceOr::Item(schema_titled("whole")),
    );
    let doc = document_with_schemas(schemas);
    let descended: Option<&Schema> = doc.resolve("#/components/schemas/schema_1/extra");
    assert!(descended.is_none());
}

#[test]
fn name_containing_slash_is_one_key() {
    let mut schemas = NamedMap::new();
    schemas.insert(
        "schema_1/extra".to_string(),
        ReferenceOr::Item(schema_titled("tail")),
    );
    let doc = document_with_schemas(schemas);
    let found: Option<&Schema> = doc.resolve("#/components/schemas/schema_1/extra");
    assert_eq!(
        found.expect("whole tail is the key").schema_data.title.as_ref().unwrap(),
        "tail"
    );
}

#[test]
fn empty_name_is_a_key_like_any_other() {
    let mut schemas = NamedMap::new();
    schemas.insert("".to_string(), ReferenceOr::Item(schema_titled("unnamed")));
    let doc = document_with_schemas(schemas);
    let found: Option<&Schema> = doc.resolve("#/components/schemas/");
    assert_eq!(
        found.expect("empty name").schema_data.title.as_ref().unwrap(),
        "unnamed"
    );
    let missing_doc = document_with_schemas(NamedMap::new());
    let missing: Option<&Schema> = missing_doc.resolve("#/components/schemas/");
    assert!(missing.is_none());
}

#[test]
fn unicode_names_resolve() {
    let mut schemas = NamedMap::new();
    schemas.insert(
        "schéma-β".to_string(),
        ReferenceOr::Item(schema_titled("unicode")),
    );
    let doc = document_with_schemas(schemas);
    let found: Option<&Schema> = doc.resolve("#/components/schemas/schéma-β");
    assert_eq!(
        found.expect("unicode name").schema_data.title.as_ref().unwrap(),
        "unicode"
    );
}

#[test]
fn two_cycle_terminates_with_none() {
    let mut schemas = NamedMap::new();
    schemas.insert(
        "a".to_string(),
        ReferenceOr::Reference {
            reference: "#/components/schemas/b".to_string(),
        },
    );
    schemas.insert(
        "b".to_string(),
        ReferenceOr::Reference {
            reference: "#/components/schemas/a".to_string(),
        },
    );
    let doc = document_with_schemas(schemas);
    let from_a: Option<&Schema> = doc.resolve("#/components/schemas/a");
    assert!(from_a.is_none());
    let from_b: Option<&Schema> = doc.resolve("#/components/schemas/b");
    assert!(from_b.is_none());
}

#[test]
fn self_cycle_terminates_with_none() {
    let mut schemas = NamedMap::new();
    schemas.insert(
        "loop".to_string(),
        ReferenceOr::Reference {
            reference: "#/components/schemas/loop".to_string(),
        },
    );
    let doc = document_with_schemas(schemas);
    let looped: Option<&Schema> = doc.resolve("#/components/schemas/loop");
    assert!(looped.is_none());
}

fn chain_of(length: usize) -> OpenAPI {
    let mut schemas = NamedMap::new();
    for i in 0..length {
        let name = format!("link_{}", i);
        if i + 1 < length {
            schemas.insert(
                name,
                ReferenceOr::Reference {
                    reference: format!("#/components/schemas/link_{}", i + 1),
                },
            );
        } else {
            schemas.insert(name, ReferenceOr::Item(schema_titled("terminal")));
        }
    }
    document_with_schemas(schemas)
}

#[test]
fn chain_within_budget_resolves() {
    let doc = chain_of(32);
    let found: Option<&Schema> = doc.resolve("#/components/schemas/link_0");
    assert_eq!(
        found.expect("32 lookups fit the budget").schema_data.title.as_ref().unwrap(),
        "terminal"
    );
}

#[test]
fn chain_beyond_budget_fails() {
    let doc = chain_of(33);
    let too_long: Option<&Schema> = doc.resolve("#/components/schemas/link_0");
    assert!(too_long.is_none());
}

#[test]
fn explicit_budget_bounds_lookups() {
    let doc = chain_of(5);
    let enough: Option<&Schema> = resolve_pointer(&doc, "#/components/schemas/link_0", 5);
    assert_eq!(
        enough.expect("five lookups suffice").schema_data.title.as_ref().unwrap(),
        "terminal"
    );
    let short: Option<&Schema> = resolve_pointer(&doc, "#/components/schemas/link_0", 4);
    assert!(short.is_none());
    let none_at_all: Option<&Schema> = resolve_pointer(&doc, "#/components/schemas/link_4", 0);
    assert!(none_at_all.is_none());
}
