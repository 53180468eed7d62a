//! The OpenAPI document of the service, assembled from utoipa's document
//! builders: `GET /` (identity) and `POST /` (evaluation) with their
//! responses, and the schemas of the identity, the request and the answer.

use vstd::prelude::*;
use utoipa::openapi::path::{
    HttpMethod, Operation, OperationBuilder, PathItem, PathItemBuilder, Paths, PathsBuilder,
};
use utoipa::openapi::request_body::RequestBodyBuilder;
use utoipa::openapi::schema::{
    Array, Components, ComponentsBuilder, KnownFormat, Object, ObjectBuilder, Ref, SchemaFormat,
    Type,
};
use utoipa::openapi::{Content, OpenApi, OpenApiBuilder, Required, ResponseBuilder};
use crate::api::SERVICE;

verus! {

#[verifier::external_type_specification]
#[verifier::external_body]
pub struct ExOpenApi(OpenApi);

#[verifier::external_type_specification]
#[verifier::external_body]
pub struct ExPaths(Paths);

#[verifier::external_type_specification]
#[verifier::external_body]
pub struct ExPathItem(PathItem);

#[verifier::external_type_specification]
#[verifier::external_body]
pub struct ExOperation(Operation);

#[verifier::external_type_specification]
#[verifier::external_body]
pub struct ExObject(Object);

#[verifier::external_type_specification]
#[verifier::external_body]
pub struct ExComponents(Components);

/// What an operation documents: its id, its summary, its description, the
/// schema its JSON request body refers to, and its responses by status code.
pub struct OperationDoc {
    pub operation_id: Option<Seq<char>>,
    pub summary: Option<Seq<char>>,
    pub description: Option<Seq<char>>,
    pub request_schema: Option<Seq<char>>,
    pub responses: Map<Seq<char>, ResponseDoc>,
}

/// A documented response: its description and the schema its JSON body
/// refers to, if it has one.
pub struct ResponseDoc {
    pub description: Seq<char>,
    pub json_schema: Option<Seq<char>>,
}

/// The GET and POST operations of a path.
pub struct PathItemDoc {
    pub get: Option<OperationDoc>,
    pub post: Option<OperationDoc>,
}

/// The type of a documented object property.
pub enum PropertyDoc {
    /// An integer of format int64.
    Integer,
    /// A string.
    Text,
    /// An array of strings.
    TextList,
}

/// An object schema: its properties by name and its required fields in order.
pub struct ObjectDoc {
    pub properties: Map<Seq<char>, PropertyDoc>,
    pub required: Seq<Seq<char>>,
}

/// A whole document: title, version, paths and component schemas.
pub struct ApiDocument {
    pub title: Seq<char>,
    pub version: Seq<char>,
    pub paths: Map<Seq<char>, PathItemDoc>,
    pub schemas: Map<Seq<char>, ObjectDoc>,
}

/// What an utoipa `Operation` holds, as far as this document uses it.
pub uninterp spec fn operation_doc(operation: Operation) -> OperationDoc;

/// What an utoipa `PathItem` holds in its GET and POST operations.
pub uninterp spec fn path_item_doc(item: PathItem) -> PathItemDoc;

/// The path items an utoipa `Paths` holds, by path.
pub uninterp spec fn paths_doc(paths: Paths) -> Map<Seq<char>, PathItemDoc>;

/// What an utoipa object schema holds: properties and required fields.
pub uninterp spec fn object_doc(object: Object) -> ObjectDoc;

/// The schemas an utoipa `Components` holds, by name.
pub uninterp spec fn components_doc(components: Components) -> Map<Seq<char>, ObjectDoc>;

/// What an utoipa `OpenApi` holds: title, version, paths and schemas.
pub uninterp spec fn openapi_doc(document: OpenApi) -> ApiDocument;

/// The reference to the component schema `name`, as `Ref::from_schema_name`
/// writes it.
pub open spec fn schema_ref(name: Seq<char>) -> Seq<char> {
    "#/components/schemas/"@ + name
}

/// `OperationBuilder` of utoipa: an operation with an id and a summary, no
/// request body and no responses. Its other fields are not stated.
#[verifier::external_body]
fn operation(operation_id: &str, summary: &str) -> (operation: Operation)
    ensures
        operation_doc(operation) == (OperationDoc {
            operation_id: Some(operation_id@),
            summary: Some(summary@),
            description: None,
            request_schema: None,
            responses: Map::empty(),
        }),
{
    OperationBuilder::new().operation_id(Some(operation_id)).summary(Some(summary)).build()
}

/// `OperationBuilder::response` of utoipa with `Response::new`: adds (or
/// replaces) the response for `status`, with a description and no body.
#[verifier::external_body]
fn respond_with(operation: Operation, status: &str, description: &str) -> (answered: Operation)
    ensures
        operation_doc(answered) == (OperationDoc {
            operation_id: operation_doc(operation).operation_id,
            summary: operation_doc(operation).summary,
            description: operation_doc(operation).description,
            request_schema: operation_doc(operation).request_schema,
            responses: operation_doc(operation).responses.insert(
                status@,
                ResponseDoc { description: description@, json_schema: None },
            ),
        }),
{
    OperationBuilder::from(operation).response(status, utoipa::openapi::Response::new(description)).build()
}

/// `OperationBuilder::response` of utoipa with a `ResponseBuilder`: adds (or
/// replaces) the response for `status`, with an empty description and an
/// `application/json` body that refers to the component schema `schema`.
#[verifier::external_body]
fn respond_with_json(operation: Operation, status: &str, schema: &str) -> (answered: Operation)
    ensures
        operation_doc(answered) == (OperationDoc {
            operation_id: operation_doc(operation).operation_id,
            summary: operation_doc(operation).summary,
            description: operation_doc(operation).description,
            request_schema: operation_doc(operation).request_schema,
            responses: operation_doc(operation).responses.insert(
                status@,
                ResponseDoc { description: ""@, json_schema: Some(schema_ref(schema@)) },
            ),
        }),
{
    let content = Content::new(Some(Ref::from_schema_name(schema)));
    let response = ResponseBuilder::new().description("").content("application/json", content);
    OperationBuilder::from(operation).response(status, response.build()).build()
}

/// `OperationBuilder::request_body` of utoipa with a `RequestBodyBuilder`:
/// a required `application/json` body that refers to the component schema
/// `schema`.
#[verifier::external_body]
fn accept_json(operation: Operation, schema: &str) -> (accepting: Operation)
    ensures
        operation_doc(accepting) == (OperationDoc {
            operation_id: operation_doc(operation).operation_id,
            summary: operation_doc(operation).summary,
            description: operation_doc(operation).description,
            request_schema: Some(schema_ref(schema@)),
            responses: operation_doc(operation).responses,
        }),
{
    let content = Content::new(Some(Ref::from_schema_name(schema)));
    let body = RequestBodyBuilder::new().content("application/json", content).required(Some(Required::True));
    OperationBuilder::from(operation).request_body(Some(body.build())).build()
}

/// `OperationBuilder::description` of utoipa: sets the operation's
/// description.
#[verifier::external_body]
fn describe(operation: Operation, description: &str) -> (described: Operation)
    ensures
        operation_doc(described) == (OperationDoc {
            operation_id: operation_doc(operation).operation_id,
            summary: operation_doc(operation).summary,
            description: Some(description@),
            request_schema: operation_doc(operation).request_schema,
            responses: operation_doc(operation).responses,
        }),
{
    OperationBuilder::from(operation).description(Some(description)).build()
}

/// `PathItemBuilder::operation` of utoipa: a path item with a GET and a POST
/// operation.
#[verifier::external_body]
fn get_and_post(get: Operation, post: Operation) -> (item: PathItem)
    ensures
        path_item_doc(item) == (PathItemDoc {
            get: Some(operation_doc(get)),
            post: Some(operation_doc(post)),
        }),
{
    PathItemBuilder::new().operation(HttpMethod::Get, get).operation(HttpMethod::Post, post).build()
}

/// `PathsBuilder::path` of utoipa on a new builder: the one path `path`.
#[verifier::external_body]
fn single_path(path: &str, item: PathItem) -> (paths: Paths)
    ensures
        paths_doc(paths) == Map::empty().insert(path@, path_item_doc(item)),
{
    PathsBuilder::new().path(path, item).build()
}

/// `Object::new` of utoipa: an object schema with no properties.
#[verifier::external_body]
fn object_schema() -> (object: Object)
    ensures
        object_doc(object) == (ObjectDoc { properties: Map::empty(), required: Seq::empty() }),
{
    Object::new()
}

/// `ObjectBuilder::property` and `::required` of utoipa: adds the property
/// `name` of type integer, format int64, and appends `name` to the required
/// fields.
#[verifier::external_body]
fn with_integer(object: Object, name: &str) -> (extended: Object)
    ensures
        object_doc(extended) == (ObjectDoc {
            properties: object_doc(object).properties.insert(name@, PropertyDoc::Integer),
            required: object_doc(object).required.push(name@),
        }),
{
    let integer = ObjectBuilder::new().schema_type(Type::Integer).format(Some(SchemaFormat::KnownFormat(KnownFormat::Int64)));
    ObjectBuilder::from(object).property(name, integer).required(name).build()
}

/// `ObjectBuilder::property` and `::required` of utoipa: adds the property
/// `name` of type string, and appends `name` to the required fields.
#[verifier::external_body]
fn with_string(object: Object, name: &str) -> (extended: Object)
    ensures
        object_doc(extended) == (ObjectDoc {
            properties: object_doc(object).properties.insert(name@, PropertyDoc::Text),
            required: object_doc(object).required.push(name@),
        }),
{
    let string = ObjectBuilder::new().schema_type(Type::String);
    ObjectBuilder::from(object).property(name, string).required(name).build()
}

/// `ObjectBuilder::property` and `::required` of utoipa with `Array::new`:
/// adds the property `name`, an array of strings, and appends `name` to the
/// required fields.
#[verifier::external_body]
fn with_string_list(object: Object, name: &str) -> (extended: Object)
    ensures
        object_doc(extended) == (ObjectDoc {
            properties: object_doc(object).properties.insert(name@, PropertyDoc::TextList),
            required: object_doc(object).required.push(name@),
        }),
{
    let list = Array::new(ObjectBuilder::new().schema_type(Type::String));
    ObjectBuilder::from(object).property(name, list).required(name).build()
}

/// No component schemas.
pub open spec fn no_schemas() -> Map<Seq<char>, ObjectDoc> {
    Map::empty()
}

/// `Components::new` of utoipa: no component schemas.
#[verifier::external_body]
fn no_components() -> (components: Components)
    ensures
        components_doc(components) == no_schemas(),
{
    Components::new()
}

/// `ComponentsBuilder::schema` of utoipa: adds (or replaces) the component
/// schema `name`.
#[verifier::external_body]
fn with_schema(components: Components, name: &str, schema: Object) -> (extended: Components)
    ensures
        components_doc(extended) == components_doc(components).insert(name@, object_doc(schema)),
{
    ComponentsBuilder::from(components).schema(name, schema).build()
}

/// `OpenApiBuilder` of utoipa with `Info::new`: the document with a title, a
/// version, the paths and the components.
#[verifier::external_body]
fn document(title: &str, version: &str, paths: Paths, components: Components) -> (doc: OpenApi)
    ensures
        openapi_doc(doc) == (ApiDocument {
            title: title@,
            version: version@,
            paths: paths_doc(paths),
            schemas: components_doc(components),
        }),
{
    let info = utoipa::openapi::Info::new(title, version);
    OpenApiBuilder::new().info(info).paths(paths).components(Some(components)).build()
}

/// The summary of `GET /`: the first paragraph of its handler's doc comment.
pub const INDEX_SUMMARY: &'static str = "`GET /` — service identity (srvcs service standard).";

/// The summary of `POST /`: the first paragraph of its handler's doc comment.
pub const EVALUATE_SUMMARY: &'static str = "`POST /` — compute the sum of the first `n` terms of the geometric sequence\nwith starting term `first` and common `ratio`, delegating every arithmetic\nstep to the dependency primitives:";

/// The description of `POST /`: the later paragraphs of its handler's doc
/// comment, separated by blank lines.
pub const EVALUATE_DESCRIPTION: &'static str = "- if `ratio == 1`, every term equals `first`, so the sum is `first * n`\n  (one `srvcs-multiply` call);\n- otherwise apply the closed form `first * (ratio^n - 1) / (ratio - 1)`:\n  1. `rn = ratio^n`         via `srvcs-power`;\n  2. `num = rn - 1`         via `srvcs-subtract`;\n  3. `num2 = first * num`   via `srvcs-multiply`;\n  4. `den = ratio - 1`      via `srvcs-subtract`;\n  5. `result = num2 / den`  via `srvcs-divide`.\n\nIf a dependency is unreachable it reports itself degraded (`503`); if a\ndependency rejects the input it forwards the `422`.";

/// An object schema whose properties, all required, have the given names and types.
pub open spec fn object_of(fields: Seq<(Seq<char>, PropertyDoc)>) -> ObjectDoc
    decreases fields.len(),
{
    if fields.len() == 0 {
        ObjectDoc { properties: Map::empty(), required: Seq::empty() }
    } else {
        let rest = object_of(fields.drop_last());
        ObjectDoc {
            properties: rest.properties.insert(fields.last().0, fields.last().1),
            required: rest.required.push(fields.last().0),
        }
    }
}

/// Adding one more property field to `object_of`.
proof fn lemma_object_of_push(fields: Seq<(Seq<char>, PropertyDoc)>, field: (Seq<char>, PropertyDoc))
    ensures
        object_of(fields.push(field)) == (ObjectDoc {
            properties: object_of(fields).properties.insert(field.0, field.1),
            required: object_of(fields).required.push(field.0),
        }),
{
    assert(fields.push(field).drop_last() =~= fields);
}

/// The document the service publishes: `GET /` with operation id `index`,
/// answering `200` with an `Info`; `POST /` with operation id `evaluate`,
/// taking an `EvalRequest` and answering `200` with a
/// `GeometricSeriesSumResponse`, or `422`, `500` or `503`; and the schemas of
/// those three types.
pub open spec fn documented_api() -> ApiDocument {
    let index = OperationDoc {
        operation_id: Some("index"@),
        summary: Some(INDEX_SUMMARY@),
        description: None,
        request_schema: None,
        responses: Map::empty().insert(
            "200"@,
            ResponseDoc { description: ""@, json_schema: Some(schema_ref("Info"@)) },
        ),
    };
    let evaluate = OperationDoc {
        operation_id: Some("evaluate"@),
        summary: Some(EVALUATE_SUMMARY@),
        description: Some(EVALUATE_DESCRIPTION@),
        request_schema: Some(schema_ref("EvalRequest"@)),
        responses: Map::empty().insert(
            "200"@,
            ResponseDoc {
                description: ""@,
                json_schema: Some(schema_ref("GeometricSeriesSumResponse"@)),
            },
        ).insert(
            "422"@,
            ResponseDoc {
                description: "a dependency rejected the input (forwarded)"@,
                json_schema: None,
            },
        ).insert(
            "500"@,
            ResponseDoc { description: "a dependency returned a malformed result"@, json_schema: None },
        ).insert(
            "503"@,
            ResponseDoc { description: "a dependency is unavailable"@, json_schema: None },
        ),
    };
    ApiDocument {
        title: SERVICE@,
        version: "0.1.0"@,
        paths: Map::empty().insert("/"@, PathItemDoc { get: Some(index), post: Some(evaluate) }),
        schemas: Map::empty().insert(
            "Info"@,
            object_of(
                seq![
                    ("service"@, PropertyDoc::Text),
                    ("concern"@, PropertyDoc::Text),
                    ("depends_on"@, PropertyDoc::TextList),
                ],
            ),
        ).insert(
            "EvalRequest"@,
            object_of(
                seq![
                    ("first"@, PropertyDoc::Integer),
                    ("ratio"@, PropertyDoc::Integer),
                    ("n"@, PropertyDoc::Integer),
                ],
            ),
        ).insert(
            "GeometricSeriesSumResponse"@,
            object_of(
                seq![
                    ("first"@, PropertyDoc::Integer),
                    ("ratio"@, PropertyDoc::Integer),
                    ("n"@, PropertyDoc::Integer),
                    ("result"@, PropertyDoc::Integer),
                ],
            ),
        ),
    }
}

/// The OpenAPI document of the service.
pub struct ApiDoc;

impl ApiDoc {
    /// The document: `GET /` answers the service identity (`Info`);
    /// `POST /` takes an `EvalRequest` and answers `200` with a
    /// `GeometricSeriesSumResponse`, or `422`, `500` or `503`.
    pub fn openapi() -> (doc: OpenApi)
        ensures
            openapi_doc(doc) == documented_api(),
    {
        let index = operation("index", INDEX_SUMMARY);
        let index = respond_with_json(index, "200", "Info");

        let evaluate = operation("evaluate", EVALUATE_SUMMARY);
        let evaluate = describe(evaluate, EVALUATE_DESCRIPTION);
        let evaluate = accept_json(evaluate, "EvalRequest");
        let evaluate = respond_with_json(evaluate, "200", "GeometricSeriesSumResponse");
        let evaluate = respond_with(
            evaluate,
            "422",
            "a dependency rejected the input (forwarded)",
        );
        let evaluate = respond_with(evaluate, "500", "a dependency returned a malformed result");
        let evaluate = respond_with(evaluate, "503", "a dependency is unavailable");

        let paths = single_path("/", get_and_post(index, evaluate));

        let info = with_string(object_schema(), "service");
        let info = with_string(info, "concern");
        let info = with_string_list(info, "depends_on");

        let request = with_integer(object_schema(), "first");
        let request = with_integer(request, "ratio");
        let request = with_integer(request, "n");

        let response = with_integer(object_schema(), "first");
        let response = with_integer(response, "ratio");
        let response = with_integer(response, "n");
        let response = with_integer(response, "result");

        let components = with_schema(no_components(), "Info", info);
        let components = with_schema(components, "EvalRequest", request);
        let components = with_schema(components, "GeometricSeriesSumResponse", response);

        proof {
            let no_fields = Seq::<(Seq<char>, PropertyDoc)>::empty();
            let text = |name: Seq<char>| (name, PropertyDoc::Text);
            let integer = |name: Seq<char>| (name, PropertyDoc::Integer);
            lemma_object_of_push(no_fields, text("service"@));
            lemma_object_of_push(no_fields.push(text("service"@)), text("concern"@));
            lemma_object_of_push(
                no_fields.push(text("service"@)).push(text("concern"@)),
                ("depends_on"@, PropertyDoc::TextList),
            );
            assert(seq![text("service"@), text("concern"@), ("depends_on"@, PropertyDoc::TextList)]
                =~= no_fields.push(text("service"@)).push(text("concern"@)).push(("depends_on"@, PropertyDoc::TextList)));
            let ints3 = no_fields.push(integer("first"@)).push(integer("ratio"@)).push(integer("n"@));
            lemma_object_of_push(no_fields, integer("first"@));
            lemma_object_of_push(no_fields.push(integer("first"@)), integer("ratio"@));
            lemma_object_of_push(no_fields.push(integer("first"@)).push(integer("ratio"@)), integer("n"@));
            lemma_object_of_push(ints3, integer("result"@));
            assert(seq![integer("first"@), integer("ratio"@), integer("n"@)] =~= ints3);
            assert(seq![integer("first"@), integer("ratio"@), integer("n"@), integer("result"@)]
                =~= ints3.push(integer("result"@)));
        }
        document(SERVICE, "0.1.0", paths, components)
    }
}

} // verus!
