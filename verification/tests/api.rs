use inverselerp::identity::index;
use inverselerp::openapi::ApiDoc;

#[test]
fn openapi_documents_routes() {
    let doc = ApiDoc::openapi();
    let root = doc.paths.paths.get("/").expect("path / present");
    assert!(root.get.is_some());
    assert!(root.post.is_some());
}

#[test]
fn index_reports_all_dependencies() {
    let info = index();
    assert_eq!(info.service, "srvcs-inverselerp");
    assert_eq!(
        info.concern,
        "range: inverse linear interpolation (where value lies between a and b)"
    );
    assert_eq!(
        info.depends_on,
        vec!["srvcs-floatsubtract", "srvcs-floatdivide"]
    );
}

#[test]
fn openapi_operations_carry_ids_summaries_and_responses() {
    let doc = ApiDoc::openapi();
    assert_eq!(doc.info.title, "srvcs-inverselerp");
    assert_eq!(doc.info.version, "0.1.0");
    assert_eq!(doc.paths.paths.len(), 1);
    let root = doc.paths.paths.get("/").unwrap();
    let get = root.get.as_ref().unwrap();
    assert_eq!(get.operation_id.as_deref(), Some("index"));
    assert_eq!(
        get.summary.as_deref(),
        Some("`GET /` — service identity (srvcs service standard).")
    );
    assert_eq!(get.description, None);
    assert_eq!(get.tags, Some(Vec::new()));
    assert!(get.request_body.is_none());
    let get_codes: Vec<&String> = get.responses.responses.keys().collect();
    assert_eq!(get_codes, vec!["200"]);
    let post = root.post.as_ref().unwrap();
    assert_eq!(post.operation_id.as_deref(), Some("evaluate"));
    assert_eq!(
        post.summary.as_deref(),
        Some("`POST /` — compute the inverse linear interpolation of `value` between `a`\nand `b` by composing two float primitives.")
    );
    let description = post.description.as_deref().unwrap();
    assert!(description.starts_with("This service owns the *control flow*"));
    assert!(description.contains("\n\n1. ask `srvcs-floatsubtract` for `num = value - a`;\n2. ask"));
    assert!(description.ends_with("it forwards the `422`."));
    let post_codes: Vec<&String> = post.responses.responses.keys().collect();
    assert_eq!(post_codes, vec!["200", "422", "500", "503"]);
    match post.responses.responses.get("503").unwrap() {
        utoipa::openapi::RefOr::T(response) => {
            assert_eq!(response.description, "a dependency is unavailable");
            assert!(response.content.is_empty());
        }
        _ => panic!("inline response expected"),
    }
    match post.responses.responses.get("422").unwrap() {
        utoipa::openapi::RefOr::T(response) => {
            assert_eq!(response.description, "a dependency rejected the input (forwarded)")
        }
        _ => panic!("inline response expected"),
    }
    assert!(root.put.is_none());
    assert!(root.delete.is_none());
}

#[test]
fn openapi_document_serialises_bodies_and_schemas() {
    let json = serde_json::to_value(ApiDoc::openapi()).unwrap();
    let root = &json["paths"]["/"];
    assert_eq!(root["get"]["operationId"], "index");
    assert_eq!(root["post"]["operationId"], "evaluate");
    assert_eq!(
        root["get"]["responses"]["200"]["content"]["application/json"]["schema"]["$ref"],
        "#/components/schemas/Info"
    );
    assert_eq!(root["get"]["responses"]["200"]["description"], "");
    assert_eq!(
        root["post"]["responses"]["200"]["content"]["application/json"]["schema"]["$ref"],
        "#/components/schemas/ResultResponse"
    );
    assert_eq!(
        root["post"]["requestBody"]["content"]["application/json"]["schema"]["$ref"],
        "#/components/schemas/EvalRequest"
    );
    assert_eq!(root["post"]["requestBody"]["required"], true);
    assert_eq!(
        root["post"]["responses"]["500"]["description"],
        "a dependency returned a malformed result"
    );
    let schemas = &json["components"]["schemas"];
    let info = &schemas["Info"];
    assert_eq!(info["type"], "object");
    assert_eq!(info["properties"]["service"]["type"], "string");
    assert_eq!(info["properties"]["concern"]["type"], "string");
    assert_eq!(info["properties"]["depends_on"]["type"], "array");
    assert_eq!(info["properties"]["depends_on"]["items"]["type"], "string");
    assert_eq!(info["required"], serde_json::Value::from(vec!["service", "concern", "depends_on"]));
    let request = &schemas["EvalRequest"];
    assert_eq!(request["properties"]["a"]["type"], "object");
    assert_eq!(request["required"], serde_json::Value::from(vec!["a", "b", "value"]));
    let result = &schemas["ResultResponse"];
    assert_eq!(result["properties"]["result"]["type"], "number");
    assert_eq!(result["properties"]["result"]["format"], "double");
    assert_eq!(
        result["properties"]["result"]["description"],
        "Where `value` lies between `a` and `b`, as a fraction (`f64`)."
    );
    assert_eq!(result["required"], serde_json::Value::from(vec!["a", "b", "value", "result"]));
    assert_eq!(schemas.as_object().unwrap().len(), 3);
}
