use swagger_test_generator::cli::TestFramework;
use swagger_test_generator::emit_jest::JestGenerator;
use swagger_test_generator::emit_postman::{postman_request_of, PostmanGenerator};
use swagger_test_generator::json::Json;
use swagger_test_generator::swagger_doc::update_swagger_spec;
use swagger_test_generator::emit_pytest::PytestGenerator;
use swagger_test_generator::emit_reqwest::ReqwestGenerator;
use swagger_test_generator::generate_tests_from_spec;
use swagger_test_generator::generator::{create_generator, GeneratedFile};
use swagger_test_generator::helpers::{camel_to_snake, sanitize_path_for_filename, snake_to_camel};
use swagger_test_generator::ir::{ApiOperation, ApiResponse, SwaggerSpec};
use swagger_test_generator::parser::{parse_swagger_string, sanitize_path, ParserError};
use swagger_test_generator::rules::{expected_status, needs_fixture};
use swagger_test_generator::AppError;

const USERS_V2: &str = r##"{
  "swagger": "2.0",
  "host": "api.sample.com",
  "basePath": "/v1",
  "schemes": ["http"],
  "paths": {
    "/users": {
      "get": { "summary": "Get all users", "operationId": "getUsers",
               "responses": { "200": { "description": "A list of users" } } },
      "post": { "summary": "Create a user", "operationId": "createUser",
                "parameters": [ { "name": "user", "in": "body", "required": true,
                                  "schema": { "$ref": "#/definitions/User" } } ],
                "responses": { "201": { "description": "Created" } } }
    },
    "/users/{id}": {
      "get": { "operationId": "getUserById",
               "parameters": [ { "name": "id", "in": "path", "required": true, "type": "integer" } ],
               "responses": { "200": { "description": "A user" }, "404": { "description": "Missing" } } },
      "put": { "operationId": "updateUser",
               "parameters": [ { "name": "id", "in": "path", "required": true, "type": "integer" },
                               { "name": "user", "in": "body", "schema": { "type": "object" } } ],
               "responses": { "200": { "description": "Updated" } } },
      "delete": { "operationId": "deleteUser",
                  "parameters": [ { "name": "id", "in": "path", "required": true, "type": "integer" } ],
                  "responses": { "204": { "description": "Deleted" } } }
    }
  }
}"##;

const ITEMS_V3: &str = r##"{
  "openapi": "3.0.1",
  "servers": [ { "url": "https://items.example.org/api" } ],
  "paths": {
    "/items/{itemId}": {
      "parameters": [],
      "x-note": "ignored",
      "get": {
        "parameters": [
          { "name": "itemId", "in": "path", "required": true },
          { "name": "verbose", "in": "query", "schema": { "format": "flag" } },
          { "name": "limit", "in": "query", "schema": { "type": "integer" } },
          { "name": "X-Trace", "in": "header" }
        ],
        "responses": {
          "default": { "description": "Error" },
          "200": { "description": "Found",
                   "content": { "application/json": { "schema": { "type": "object" } } } }
        }
      },
      "post": {
        "requestBody": { "required": true,
                         "content": { "application/json": { "schema": { "type": "object" } } } },
        "responses": { "400": { "description": "Bad" } }
      }
    },
    "/empty": { "x-only": true }
  }
}"##;

fn find<'a>(files: &'a [GeneratedFile], name: &str) -> &'a GeneratedFile {
    files.iter().find(|f| f.name == name).expect("file is generated")
}

fn operation<'a>(spec: &'a SwaggerSpec, path: &str, method: &str) -> &'a ApiOperation {
    let p = spec.paths.iter().find(|p| p.path == path).expect("path is parsed");
    p.operations.iter().find(|o| o.method == method).expect("operation is parsed")
}

fn bare_operation(method: &str, codes: &[&str]) -> ApiOperation {
    ApiOperation {
        method: method.to_string(),
        operation_id: "op".to_string(),
        summary: None,
        description: None,
        path_params: Vec::new(),
        query_params: Vec::new(),
        body_param: None,
        responses: codes
            .iter()
            .map(|c| ApiResponse { status_code: c.to_string(), description: None, schema: None })
            .collect(),
    }
}

#[test]
fn sample_document_parses_to_five_operations() {
    let spec = parse_swagger_string(USERS_V2).unwrap();
    assert_eq!(spec.base_url, "http://api.sample.com/v1");
    let total: usize = spec.paths.iter().map(|p| p.operations.len()).sum();
    assert_eq!(total, 5);
    let get = operation(&spec, "/users/{id}", "GET");
    assert_eq!(get.path_params.len(), 1);
    assert_eq!(get.path_params[0].param_type, "integer");
    assert_eq!(get.responses.len(), 2);
    let post = operation(&spec, "/users", "POST");
    assert_eq!(post.body_param.as_ref().unwrap().name, "user");
    assert_eq!(post.body_param.as_ref().unwrap().param_type, "object");
    assert!(post.body_param.as_ref().unwrap().schema.is_some());
}

#[test]
fn v2_base_url_defaults() {
    let spec = parse_swagger_string(r#"{"swagger": "2.0", "paths": {}}"#).unwrap();
    assert_eq!(spec.base_url, "http://localhost");
    assert!(spec.paths.is_empty());
    let spec = parse_swagger_string(r#"{"swagger": "2.0", "schemes": ["https", "http"], "host": "h:1", "paths": {}}"#).unwrap();
    assert_eq!(spec.base_url, "https://h:1");
}

#[test]
fn v3_document_is_normalized() {
    let spec = parse_swagger_string(ITEMS_V3).unwrap();
    assert_eq!(spec.base_url, "https://items.example.org/api");
    assert_eq!(spec.paths.len(), 1);
    let get = operation(&spec, "/items/{itemId}", "GET");
    assert_eq!(get.operation_id, "get_items_itemId");
    assert_eq!(get.path_params.len(), 1);
    assert_eq!(get.path_params[0].param_type, "string");
    assert!(get.path_params[0].required);
    assert_eq!(get.query_params.len(), 2);
    assert_eq!(get.query_params[0].param_type, "object");
    assert_eq!(get.query_params[1].param_type, "integer");
    assert!(get.body_param.is_none());
    assert!(get.responses.iter().any(|r| r.status_code == "default"));
    let ok = get.responses.iter().find(|r| r.status_code == "200").unwrap();
    assert!(ok.schema.is_some());
    let post = operation(&spec, "/items/{itemId}", "POST");
    let body = post.body_param.as_ref().unwrap();
    assert_eq!(body.name, "body");
    assert_eq!(body.location, "body");
    assert!(body.required);
    assert_eq!(body.param_type, "object");
}

#[test]
fn v3_base_url_default() {
    let spec = parse_swagger_string(r#"{"openapi": "3.1.0", "servers": [], "paths": {}}"#).unwrap();
    assert_eq!(spec.base_url, "http://localhost");
}

#[test]
fn paths_without_operations_are_dropped() {
    let spec = parse_swagger_string(ITEMS_V3).unwrap();
    assert!(spec.paths.iter().all(|p| !p.operations.is_empty()));
    assert!(spec.paths.iter().all(|p| p.path != "/empty"));
}

#[test]
fn synthesized_ids_are_repeatable() {
    let a = parse_swagger_string(ITEMS_V3).unwrap();
    let b = parse_swagger_string(ITEMS_V3).unwrap();
    assert_eq!(operation(&a, "/items/{itemId}", "POST").operation_id, "post_items_itemId");
    for (pa, pb) in a.paths.iter().zip(b.paths.iter()) {
        for (oa, ob) in pa.operations.iter().zip(pb.operations.iter()) {
            assert_eq!(oa.operation_id, ob.operation_id);
        }
    }
}

#[test]
fn parse_errors() {
    assert!(matches!(parse_swagger_string("not json"), Err(ParserError::JsonError(_))));
    assert!(matches!(parse_swagger_string(r#"{"swagger": "1.2", "paths": {}}"#), Err(ParserError::UnsupportedVersion)));
    assert!(matches!(parse_swagger_string(r#"{"openapi": "2.9", "paths": {}}"#), Err(ParserError::UnsupportedVersion)));
    assert!(matches!(parse_swagger_string("[1, 2]"), Err(ParserError::UnsupportedVersion)));
    assert!(matches!(parse_swagger_string(r#"{"openapi": "3.0.0"}"#), Err(ParserError::InvalidSpec(_))));
}

#[test]
fn expected_status_rules() {
    assert_eq!(expected_status(&bare_operation("GET", &[])), "200");
    assert_eq!(expected_status(&bare_operation("POST", &["400"])), "201");
    assert_eq!(expected_status(&bare_operation("DELETE", &["default"])), "204");
    assert_eq!(expected_status(&bare_operation("PUT", &["404", "202", "200"])), "202");
    assert_eq!(expected_status(&bare_operation("POST", &["200"])), "200");
}

#[test]
fn fixture_rule() {
    let spec = parse_swagger_string(USERS_V2).unwrap();
    assert!(needs_fixture(operation(&spec, "/users/{id}", "GET")));
    assert!(needs_fixture(operation(&spec, "/users/{id}", "DELETE")));
    assert!(!needs_fixture(operation(&spec, "/users", "POST")));
    assert!(!needs_fixture(operation(&spec, "/users", "GET")));
}

#[test]
fn id_parameter_uses_fixture_or_literal() {
    let spec = parse_swagger_string(USERS_V2).unwrap();
    let get = operation(&spec, "/users/{id}", "GET");
    let rs = ReqwestGenerator::new().generate_operation_test(get, "/users/{id}", "http://x");
    assert!(rs.contains("let id = create_test_user(\"Get User Test\", \"get_test@example.com\").await;"));
    assert!(!rs.contains("let id = 1;"));
    let py = PytestGenerator::new().generate_operation_test(get, "/users/{id}", "http://x");
    assert!(py.contains("    # Path parameter: id\n    id = 1  # Replace with actual test value"));
    assert!(py.contains("url = f\"http://x/users/{id}\""));
    let js = JestGenerator::new().generate_operation_test(get, "/users/{id}", "http://x");
    assert!(js.contains("  const id = 1; // Replace with actual test value"));
    assert!(js.contains("const url = `http://x/users/${id}`;"));
    assert!(js.contains("await axios.get(url, { params });"));
    let files = PostmanGenerator::new().generate_files_with_id(&spec, "http://localhost:3000", "fixed");
    let collection = &find(&files, "postman_collection.json").contents;
    assert!(collection.contains("\"raw\": \"http://localhost:3000/users/:id\""));
    assert!(collection.contains("\"users\",\n                \":id\""));
}

#[test]
fn reqwest_backend_end_to_end() {
    let spec = parse_swagger_string(USERS_V2).unwrap();
    let files = create_generator(TestFramework::Reqwest).unwrap().generate_tests(&spec, "http://localhost:3000");
    let names: Vec<&str> = files.iter().map(|f| f.name.as_str()).collect();
    assert_eq!(names, vec!["api_tests.rs", "main.rs", "Cargo.toml"]);
    let tests = &find(&files, "api_tests.rs").contents;
    assert!(tests.contains("let url = \"http://localhost:3000/v1/users\";"));
    assert!(tests.contains("async fn test_delete_user()"));
    assert!(tests.contains("assert_eq!(get_response.status().as_u16(), 404);"));
    assert!(tests.contains("assert_eq!(response.status().as_u16(), 204);"));
    assert!(tests.contains("async fn test_get_user_by_id()"));
    assert!(tests.contains("let url = format!(\"http://localhost:3000/v1/users/{id}\");"));
    assert!(tests.contains("client.post(&url).json(&body)"));
    assert!(tests.contains("\"name\": \"Updated Name\""));
    assert_eq!(tests.matches("#[tokio::test]").count(), 5);
}

#[test]
fn reqwest_base_url_joining() {
    let spec = parse_swagger_string(USERS_V2).unwrap();
    let g = ReqwestGenerator::new();
    let files = g.generate_tests(&spec, "http://localhost:3000/");
    assert!(find(&files, "api_tests.rs").contents.contains("let url = \"http://localhost:3000/v1/users\";"));
    let root = parse_swagger_string(r#"{"swagger": "2.0", "host": "a.b", "paths": {}}"#).unwrap();
    let files = g.generate_tests(&root, "http://localhost:3000");
    assert!(find(&files, "api_tests.rs").contents.contains("let url = \"http://localhost:3000/users\";"));
}

#[test]
fn rust_test_names_are_snake_case() {
    let op = ApiOperation { operation_id: "listAllUsers".to_string(), ..bare_operation("GET", &[]) };
    let text = ReqwestGenerator::new().generate_operation_test(&op, "/users", "http://x");
    assert!(text.starts_with("#[tokio::test]\nasync fn test_list_all_users() {\n    // \n"));
}

#[test]
fn pytest_and_jest_files() {
    let spec = parse_swagger_string(USERS_V2).unwrap();
    let py = PytestGenerator::new().generate_tests(&spec, "http://localhost:3000");
    let names: Vec<&str> = py.iter().map(|f| f.name.as_str()).collect();
    assert_eq!(names, vec!["test_api.py", "requirements.txt", "README.md"]);
    let text = &find(&py, "test_api.py").contents;
    assert!(text.starts_with("import requests\nimport pytest\n\n"));
    assert!(text.contains("def test_createUser():"));
    assert!(text.contains("assert response.status_code == 201"));
    let js = JestGenerator::new().generate_tests(&spec, "http://localhost:3000");
    let names: Vec<&str> = js.iter().map(|f| f.name.as_str()).collect();
    assert_eq!(names, vec!["users.test.js", "users_id.test.js", "package.json", "README.md"]);
    assert!(find(&js, "users_id.test.js").contents.contains("test('deleteUser', async () => {"));
}

#[test]
fn postman_collection_shape() {
    let spec = parse_swagger_string(USERS_V2).unwrap();
    let files = PostmanGenerator::new().generate_files_with_id(&spec, "https://localhost:3000/base", "the-id");
    let names: Vec<&str> = files.iter().map(|f| f.name.as_str()).collect();
    assert_eq!(names, vec!["postman_collection.json", "README.md"]);
    let c = &find(&files, "postman_collection.json").contents;
    assert!(c.starts_with("{\n  \"info\": {\n    \"_postman_id\": \"the-id\",\n"));
    assert!(c.contains("\"name\": \"users id\""));
    assert!(c.contains("\"name\": \"GET Get all users\""));
    assert!(c.contains("\"name\": \"DELETE deleteUser\""));
    assert!(c.contains("\"method\": \"PUT\""));
    assert!(c.contains("\"localhost:3000\""));
    assert!(c.contains("pm.response.to.have.status(204);"));
    assert!(c.ends_with("\n  ],\n  \"event\": []\n}\n"));
}

#[test]
fn generation_is_repeatable() {
    let spec = parse_swagger_string(USERS_V2).unwrap();
    for f in [TestFramework::Reqwest, TestFramework::Pytest, TestFramework::Jest] {
        let g = create_generator(f).unwrap();
        let a = g.generate_tests(&spec, "http://localhost:3000");
        let b = g.generate_tests(&spec, "http://localhost:3000");
        assert_eq!(a.len(), b.len());
        for (x, y) in a.iter().zip(b.iter()) {
            assert_eq!(x.name, y.name);
            assert_eq!(x.contents, y.contents);
        }
    }
    let g = create_generator(TestFramework::Postman).unwrap();
    let a = g.generate_tests(&spec, "http://localhost:3000");
    let b = g.generate_tests(&spec, "http://localhost:3000");
    assert_eq!(a[1].contents, b[1].contents);
    let lead = "\"_postman_id\": \"";
    let id_of = |s: &str| {
        let start = s.find(lead).unwrap() + lead.len();
        s[start..start + 36].to_string()
    };
    let (ia, ib) = (id_of(&a[0].contents), id_of(&b[0].contents));
    assert_ne!(ia, ib);
    for (i, c) in ia.chars().enumerate() {
        if [8, 13, 18, 23].contains(&i) {
            assert_eq!(c, '-');
        } else {
            assert!(c.is_ascii_hexdigit() && !c.is_ascii_uppercase());
        }
    }
    assert_eq!(a[0].contents.replace(&ia, ""), b[0].contents.replace(&ib, ""));
}

#[test]
fn top_level_generation() {
    let files = generate_tests_from_spec(USERS_V2, TestFramework::Jest, "http://localhost:3000").unwrap();
    assert_eq!(files.len(), 4);
    assert!(matches!(
        generate_tests_from_spec("{}", TestFramework::Jest, "http://localhost:3000"),
        Err(AppError::ParserError(ParserError::UnsupportedVersion))
    ));
}

#[test]
fn case_conversion() {
    assert_eq!(camel_to_snake("getUserById"), "get_user_by_id");
    assert_eq!(camel_to_snake("HTTPServer"), "h_t_t_p_server");
    assert_eq!(camel_to_snake("already_Snake"), "already_snake");
    assert_eq!(camel_to_snake(""), "");
    assert_eq!(snake_to_camel("get_user_by_id"), "GetUserById");
    assert_eq!(snake_to_camel("__a__b"), "AB");
    assert_eq!(snake_to_camel(""), "");
}

#[test]
fn path_sanitizing() {
    assert_eq!(sanitize_path_for_filename("/users/{id}"), "users_id");
    assert_eq!(sanitize_path_for_filename("\\a:b\\"), "ab");
    assert_eq!(sanitize_path_for_filename("___"), "");
    assert_eq!(sanitize_path("/users/{id}/posts"), "users_id_posts");
    assert_eq!(sanitize_path("/"), "");
}

#[test]
fn methods_are_case_normalized_per_backend() {
    let op = bare_operation("delete", &[]);
    let pm = postman_request_of(&op, "/things/{id}", "http://h");
    assert!(pm.contains("\"method\": \"DELETE\""));
    assert!(pm.contains("pm.response.to.have.status(204);"));
    let rs = ReqwestGenerator::new().generate_operation_test(&op, "/things", "http://h");
    assert!(rs.contains("client.delete(&url)"));
    let js = JestGenerator::new().generate_operation_test(&bare_operation("PATCH", &[]), "/t", "http://h");
    assert!(js.contains("await axios.patch(url, jsonData, { params });"));
}

#[test]
fn security_definitions_are_added_once() {
    let spec = parse_swagger_string(r#"{"swagger": "2.0", "paths": {}}"#).unwrap();
    let updated = update_swagger_spec(spec.raw_spec).unwrap();
    let defs = updated.get("securityDefinitions").expect("member is added");
    assert!(defs.get("api_key").is_some());
    let flow = defs.get("oauth2").and_then(|o| o.get("flow")).and_then(|f| f.as_str()).unwrap();
    assert_eq!(flow, "implicit");
    let again = update_swagger_spec(updated).unwrap();
    match &again {
        Json::Object(m) => assert_eq!(m.iter().filter(|(k, _)| k == "securityDefinitions").count(), 1),
        _ => panic!("an object stays an object"),
    }
    let not_object = update_swagger_spec(Json::Bool(true)).unwrap();
    assert!(matches!(not_object, Json::Bool(true)));
}

#[test]
fn first_success_status_follows_declaration_order() {
    let doc = r#"{"swagger": "2.0", "paths": {"/jobs": {"post": {
        "responses": {"404": {"description": "a"}, "202": {"description": "b"}, "200": {"description": "c"}}
    }}}}"#;
    let spec = parse_swagger_string(doc).unwrap();
    let op = operation(&spec, "/jobs", "POST");
    let codes: Vec<&str> = op.responses.iter().map(|r| r.status_code.as_str()).collect();
    assert_eq!(codes, vec!["404", "202", "200"]);
    assert_eq!(expected_status(op), "202");
    assert_eq!(op.operation_id, "post_jobs");
}
