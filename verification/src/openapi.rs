use vstd::prelude::*;

use crate::identity::SERVICE;
use utoipa::openapi::path::{Operation, Paths};
use utoipa::openapi::schema::{Components, Object};
use utoipa::openapi::OpenApi;

verus! {

/// An OpenAPI document.
#[verifier::external_type_specification]
#[verifier::external_body]
pub struct ExOpenApi(utoipa::openapi::OpenApi);

/// The paths of an OpenAPI document, each with its operations.
#[verifier::external_type_specification]
#[verifier::external_body]
pub struct ExPaths(utoipa::openapi::path::Paths);

/// One documented operation.
#[verifier::external_type_specification]
#[verifier::external_body]
pub struct ExOperation(utoipa::openapi::path::Operation);

/// The reusable parts of an OpenAPI document, among them its named schemas.
#[verifier::external_type_specification]
#[verifier::external_body]
pub struct ExComponents(utoipa::openapi::schema::Components);

/// An object schema: its properties and which of them are required.
#[verifier::external_type_specification]
#[verifier::external_body]
pub struct ExObject(utoipa::openapi::schema::Object);

/// The HTTP methods that the service documents.
#[derive(Clone, Copy, Debug, PartialEq, Eq, Structural)]
pub enum Method {
    Get,
    Post,
}

/// What the document says of one response: its description and, when it has
/// a body, its media type and the name of the schema that it refers to.
pub struct ResponseDoc {
    pub description: Seq<char>,
    pub body: Option<(Seq<char>, Seq<char>)>,
}

/// What the document says of one operation.
pub struct OperationDoc {
    pub operation_id: Seq<char>,
    pub summary: Seq<char>,
    pub description: Option<Seq<char>>,
    pub tags: Option<Seq<Seq<char>>>,
    /// The media type of a required request body and the name of the schema
    /// that it refers to, if there is one.
    pub request_body: Option<(Seq<char>, Seq<char>)>,
    pub responses: Map<u16, ResponseDoc>,
}

/// The schema of one property.
pub enum PropertyDoc {
    /// `{"type": "string"}`
    Text,
    /// `{"type": "array", "items": {"type": "string"}}`
    TextList,
    /// `{"type": "object"}`, with nothing said of its properties.
    AnyObject,
    /// `{"type": "number", "format": "double"}` with a description.
    Double { description: Seq<char> },
}

/// What the document says of one object schema.
pub struct ObjectDoc {
    pub properties: Map<Seq<char>, PropertyDoc>,
    pub required: Seq<Seq<char>>,
}

/// The responses that an operation documents, by status.
pub uninterp spec fn operation_responses(operation: Operation) -> Map<u16, ResponseDoc>;

/// The media type of the operation's required request body and the schema
/// that it refers to.
pub uninterp spec fn operation_request_body(operation: Operation) -> Option<(Seq<char>, Seq<char>)>;

/// The operations that `paths` documents, by path and method.
pub uninterp spec fn path_operations(paths: Paths) -> Map<(Seq<char>, Method), OperationDoc>;

/// The properties of an object schema, by name.
pub uninterp spec fn object_properties(object: Object) -> Map<Seq<char>, PropertyDoc>;

/// The required properties of an object schema, in order.
pub uninterp spec fn object_required(object: Object) -> Seq<Seq<char>>;

/// The object schemas that `components` holds, by name.
pub uninterp spec fn component_schemas(components: Components) -> Map<Seq<char>, ObjectDoc>;

/// The operations that a document documents, by path and method.
pub uninterp spec fn document_operations(document: OpenApi) -> Map<(Seq<char>, Method), OperationDoc>;

/// The title and the version of a document.
pub uninterp spec fn document_info(document: OpenApi) -> (Seq<char>, Seq<char>);

/// The object schemas among a document's components, by name.
pub uninterp spec fn document_schemas(document: OpenApi) -> Map<Seq<char>, ObjectDoc>;

/// The text of an optional string.
pub open spec fn text_of(text: Option<&str>) -> Option<Seq<char>> {
    match text {
        Some(t) => Some(t@),
        None => None,
    }
}

/// `Operation::new`: an operation with no response and no request body yet.
#[verifier::external_body]
fn new_operation() -> (res: Operation)
    ensures
        operation_responses(res) =~= Map::empty(),
        operation_request_body(res) is None,
{
    Operation::new()
}

/// `Response::new(description)`, inserted into the operation's response map
/// under the status written in decimal: that status, and no other, now has
/// this description and no body.
#[verifier::external_body]
fn add_response(operation: &mut Operation, status: u16, description: &str)
    ensures
        operation_responses(*final(operation)) == operation_responses(*old(operation)).insert(
            status,
            ResponseDoc { description: description@, body: None },
        ),
        operation_request_body(*final(operation)) == operation_request_body(*old(operation)),
{
    operation.responses.responses.insert(
        status.to_string(),
        utoipa::openapi::RefOr::T(utoipa::openapi::Response::new(description)),
    );
}

/// A response built with `ResponseBuilder`: the description, and a body of
/// type `media_type` whose schema is `Ref::from_schema_name(schema)`, inserted
/// as `add_response` does.
#[verifier::external_body]
fn add_response_with_body(operation: &mut Operation, status: u16, description: &str, media_type: &str, schema: &str)
    ensures
        operation_responses(*final(operation)) == operation_responses(*old(operation)).insert(
            status,
            ResponseDoc { description: description@, body: Some((media_type@, schema@)) },
        ),
        operation_request_body(*final(operation)) == operation_request_body(*old(operation)),
{
    let body = utoipa::openapi::Content::new(Some(utoipa::openapi::Ref::from_schema_name(schema)));
    let response = utoipa::openapi::ResponseBuilder::new().description(description).content(media_type, body);
    operation.responses.responses.insert(status.to_string(), response.into());
}

/// A required request body built with `RequestBodyBuilder`: a body of type
/// `media_type` whose schema is `Ref::from_schema_name(schema)`.
#[verifier::external_body]
fn set_request_body(operation: &mut Operation, media_type: &str, schema: &str)
    ensures
        operation_responses(*final(operation)) == operation_responses(*old(operation)),
        operation_request_body(*final(operation)) == Some((media_type@, schema@)),
{
    let body = utoipa::openapi::Content::new(Some(utoipa::openapi::Ref::from_schema_name(schema)));
    let required = Some(utoipa::openapi::Required::True);
    let builder = utoipa::openapi::request_body::RequestBodyBuilder::new().content(media_type, body);
    operation.request_body = Some(builder.required(required).build());
}

/// `Paths::new`: no path yet.
#[verifier::external_body]
fn new_paths() -> (paths: Paths)
    ensures
        path_operations(paths) =~= Map::empty(),
{
    Paths::new()
}

/// `Paths::add_path_operation(path, vec![method], operation)` with the
/// operation's id, summary and description set first and its tags set to an
/// empty list. Its source sets the operation for that method of the path,
/// creating the path item when there is none, and leaves every other method and
/// path as it was.
#[verifier::external_body]
fn add_operation(
    paths: &mut Paths,
    path: &str,
    method: Method,
    operation_id: &str,
    summary: &str,
    description: Option<&str>,
    operation: Operation,
)
    ensures
        path_operations(*final(paths)) == path_operations(*old(paths)).insert(
            (path@, method),
            OperationDoc {
                operation_id: operation_id@,
                summary: summary@,
                description: text_of(description),
                tags: Some(Seq::empty()),
                request_body: operation_request_body(operation),
                responses: operation_responses(operation),
            },
        ),
{
    let mut operation = operation;
    operation.operation_id = Some(operation_id.to_string());
    operation.summary = Some(summary.to_string());
    operation.description = description.map(str::to_string);
    operation.tags = Some(Vec::new());
    let method = match method {
        Method::Get => utoipa::openapi::path::HttpMethod::Get,
        Method::Post => utoipa::openapi::path::HttpMethod::Post,
    };
    paths.add_path_operation(path, vec![method], operation);
}

/// `Object::new`: an object schema with no property yet.
#[verifier::external_body]
fn new_object() -> (res: Object)
    ensures
        object_properties(res) =~= Map::empty(),
        object_required(res) =~= Seq::empty(),
{
    Object::new()
}

/// Adds the required property `name` with the schema `Object::with_type(Type::String)`.
#[verifier::external_body]
fn add_text_property(object: &mut Object, name: &str)
    ensures
        object_properties(*final(object)) == object_properties(*old(object)).insert(name@, PropertyDoc::Text),
        object_required(*final(object)) == object_required(*old(object)).push(name@),
{
    let schema = Object::with_type(utoipa::openapi::schema::Type::String);
    object.properties.insert(name.to_string(), schema.into());
    object.required.push(name.to_string());
}

/// Adds the required property `name` with the schema
/// `Array::new(Object::with_type(Type::String))`.
#[verifier::external_body]
fn add_text_list_property(object: &mut Object, name: &str)
    ensures
        object_properties(*final(object)) == object_properties(*old(object)).insert(name@, PropertyDoc::TextList),
        object_required(*final(object)) == object_required(*old(object)).push(name@),
{
    let items = Object::with_type(utoipa::openapi::schema::Type::String);
    let schema = utoipa::openapi::schema::Schema::Array(utoipa::openapi::schema::Array::new(items));
    object.properties.insert(name.to_string(), utoipa::openapi::RefOr::T(schema));
    object.required.push(name.to_string());
}

/// Adds the required property `name` with the schema `Object::new()`.
#[verifier::external_body]
fn add_object_property(object: &mut Object, name: &str)
    ensures
        object_properties(*final(object)) == object_properties(*old(object)).insert(name@, PropertyDoc::AnyObject),
        object_required(*final(object)) == object_required(*old(object)).push(name@),
{
    object.properties.insert(name.to_string(), Object::new().into());
    object.required.push(name.to_string());
}

/// Adds the required property `name` with the schema
/// `Object::with_type(Type::Number)`, format `double` and `description`.
#[verifier::external_body]
fn add_double_property(object: &mut Object, name: &str, description: &str)
    ensures
        object_properties(*final(object)) == object_properties(*old(object)).insert(
            name@,
            PropertyDoc::Double { description: description@ },
        ),
        object_required(*final(object)) == object_required(*old(object)).push(name@),
{
    let mut schema = Object::with_type(utoipa::openapi::schema::Type::Number);
    let double = utoipa::openapi::schema::KnownFormat::Double;
    schema.format = Some(utoipa::openapi::schema::SchemaFormat::KnownFormat(double));
    schema.description = Some(description.to_string());
    object.properties.insert(name.to_string(), schema.into());
    object.required.push(name.to_string());
}

/// `Components::new`: no schema yet.
#[verifier::external_body]
fn new_components() -> (res: Components)
    ensures
        component_schemas(res) =~= Map::empty(),
{
    Components::new()
}

/// Inserts the object schema under `name` into the components' schema map.
#[verifier::external_body]
fn add_schema(components: &mut Components, name: &str, object: Object)
    ensures
        component_schemas(*final(components)) == component_schemas(*old(components)).insert(
            name@,
            ObjectDoc { properties: object_properties(object), required: object_required(object) },
        ),
{
    let schema = utoipa::openapi::schema::Schema::Object(object);
    components.schemas.insert(name.to_string(), utoipa::openapi::RefOr::T(schema));
}

/// `OpenApi::new(Info::new(title, version), paths)`, with `components` set as
/// its components: a document with that title and version, exactly those paths
/// and exactly those schemas.
#[verifier::external_body]
fn new_document(title: &str, version: &str, paths: Paths, components: Components) -> (document: OpenApi)
    ensures
        document_operations(document) == path_operations(paths),
        document_info(document) == (title@, version@),
        document_schemas(document) == component_schemas(components),
{
    let mut document = OpenApi::new(utoipa::openapi::Info::new(title, version), paths);
    document.components = Some(components);
    document
}

/// Version of the documented API.
pub const API_VERSION: &'static str = "0.1.0";

/// Summary of `GET /`: the first paragraph of its documentation.
pub const INDEX_SUMMARY: &'static str = "`GET /` — service identity (srvcs service standard).";

/// Summary of `POST /`: the first paragraph of its documentation.
pub const EVALUATE_SUMMARY: &'static str = "`POST /` — compute the inverse linear interpolation of `value` between `a`\nand `b` by composing two float primitives.";

/// Description of `POST /`: the other paragraphs of its documentation.
pub const EVALUATE_DESCRIPTION: &'static str = "This service owns the *control flow* but delegates every arithmetic step to\nits dependencies, exactly as specified:\n\n1. ask `srvcs-floatsubtract` for `num = value - a`;\n2. ask `srvcs-floatsubtract` for `den = b - a`;\n3. ask `srvcs-floatdivide` for `result = num / den`.\n\n`inverselerp(0, 10, 5) == 0.5`.\n\nIf a dependency is unreachable it reports itself degraded (`503`); if a\ndependency rejects the input it forwards the `422`.";

/// Description of the `422` of `POST /`.
pub const REJECTED: &'static str = "a dependency rejected the input (forwarded)";

/// Description of the `500` of `POST /`.
pub const MALFORMED: &'static str = "a dependency returned a malformed result";

/// Description of the `503` of `POST /`.
pub const UNAVAILABLE: &'static str = "a dependency is unavailable";

/// Media type of every documented body.
pub const JSON: &'static str = "application/json";

/// Name of the schema of the service identity.
pub const INFO_SCHEMA: &'static str = "Info";

/// Name of the schema of the body of `POST /`.
pub const EVAL_REQUEST_SCHEMA: &'static str = "EvalRequest";

/// Name of the schema of a computed answer.
pub const RESULT_RESPONSE_SCHEMA: &'static str = "ResultResponse";

/// Description of the `result` of a computed answer.
pub const RESULT_DESCRIPTION: &'static str = "Where `value` lies between `a` and `b`, as a fraction (`f64`).";

/// The documented operations: `GET /` answering `200` with the identity, and
/// `POST /` taking an `EvalRequest` and answering `200` with a
/// `ResultResponse`, or `422`, `500` or `503`.
pub open spec fn documented_operations() -> Map<(Seq<char>, Method), OperationDoc> {
    map![
        ("/"@, Method::Get) => OperationDoc {
            operation_id: "index"@,
            summary: INDEX_SUMMARY@,
            description: None,
            tags: Some(Seq::empty()),
            request_body: None,
            responses: map![200u16 => ResponseDoc { description: ""@, body: Some((JSON@, INFO_SCHEMA@)) }],
        },
        ("/"@, Method::Post) => OperationDoc {
            operation_id: "evaluate"@,
            summary: EVALUATE_SUMMARY@,
            description: Some(EVALUATE_DESCRIPTION@),
            tags: Some(Seq::empty()),
            request_body: Some((JSON@, EVAL_REQUEST_SCHEMA@)),
            responses: map![
                200u16 => ResponseDoc { description: ""@, body: Some((JSON@, RESULT_RESPONSE_SCHEMA@)) },
                422u16 => ResponseDoc { description: REJECTED@, body: None },
                500u16 => ResponseDoc { description: MALFORMED@, body: None },
                503u16 => ResponseDoc { description: UNAVAILABLE@, body: None },
            ],
        },
    ]
}

/// The documented schemas: the identity, the request body and the computed
/// answer, every property required.
pub open spec fn documented_schemas() -> Map<Seq<char>, ObjectDoc> {
    map![
        INFO_SCHEMA@ => ObjectDoc {
            properties: map![
                "service"@ => PropertyDoc::Text,
                "concern"@ => PropertyDoc::Text,
                "depends_on"@ => PropertyDoc::TextList,
            ],
            required: seq!["service"@, "concern"@, "depends_on"@],
        },
        EVAL_REQUEST_SCHEMA@ => ObjectDoc {
            properties: map![
                "a"@ => PropertyDoc::AnyObject,
                "b"@ => PropertyDoc::AnyObject,
                "value"@ => PropertyDoc::AnyObject,
            ],
            required: seq!["a"@, "b"@, "value"@],
        },
        RESULT_RESPONSE_SCHEMA@ => ObjectDoc {
            properties: map![
                "a"@ => PropertyDoc::AnyObject,
                "b"@ => PropertyDoc::AnyObject,
                "value"@ => PropertyDoc::AnyObject,
                "result"@ => PropertyDoc::Double { description: RESULT_DESCRIPTION@ },
            ],
            required: seq!["a"@, "b"@, "value"@, "result"@],
        },
    ]
}

/// The service's OpenAPI document.
pub struct ApiDoc;

impl ApiDoc {
    /// The OpenAPI document of the service: titled with the service's name,
    /// documenting `GET /` and `POST /` and the schemas of their bodies.
    pub fn openapi() -> (document: OpenApi)
        ensures
            document_operations(document) == documented_operations(),
            document_info(document) == (SERVICE@, API_VERSION@),
            document_schemas(document) == documented_schemas(),
    {
        let mut index = new_operation();
        add_response_with_body(&mut index, 200, "", JSON, INFO_SCHEMA);
        let mut evaluate = new_operation();
        set_request_body(&mut evaluate, JSON, EVAL_REQUEST_SCHEMA);
        add_response_with_body(&mut evaluate, 200, "", JSON, RESULT_RESPONSE_SCHEMA);
        add_response(&mut evaluate, 422, REJECTED);
        add_response(&mut evaluate, 500, MALFORMED);
        add_response(&mut evaluate, 503, UNAVAILABLE);
        let mut paths = new_paths();
        add_operation(&mut paths, "/", Method::Get, "index", INDEX_SUMMARY, None, index);
        add_operation(&mut paths, "/", Method::Post, "evaluate", EVALUATE_SUMMARY, Some(EVALUATE_DESCRIPTION), evaluate);

        let mut info = new_object();
        add_text_property(&mut info, "service");
        add_text_property(&mut info, "concern");
        add_text_list_property(&mut info, "depends_on");
        let mut request = new_object();
        add_object_property(&mut request, "a");
        add_object_property(&mut request, "b");
        add_object_property(&mut request, "value");
        let mut result = new_object();
        add_object_property(&mut result, "a");
        add_object_property(&mut result, "b");
        add_object_property(&mut result, "value");
        add_double_property(&mut result, "result", RESULT_DESCRIPTION);
        assert(object_required(info) =~= seq!["service"@, "concern"@, "depends_on"@]);
        assert(object_required(request) =~= seq!["a"@, "b"@, "value"@]);
        assert(object_required(result) =~= seq!["a"@, "b"@, "value"@, "result"@]);
        let mut components = new_components();
        add_schema(&mut components, INFO_SCHEMA, info);
        add_schema(&mut components, EVAL_REQUEST_SCHEMA, request);
        add_schema(&mut components, RESULT_RESPONSE_SCHEMA, result);

        let document = new_document(SERVICE, API_VERSION, paths, components);
        assert(document_operations(document) =~~= documented_operations());
        assert(document_schemas(document) =~~= documented_schemas());
        document
    }
}

} // verus!
