use swagger_test_generator::cli::TestFramework;
use swagger_test_generator::generator::{create_generator, GeneratedFile};
use swagger_test_generator::parser::parse_swagger_string;

const SAMPLE_SWAGGER: &str = r##"{
  "swagger": "2.0",
  "info": { "title": "Sample API", "version": "1.0.0" },
  "host": "api.sample.com",
  "basePath": "/v1",
  "schemes": ["http"],
  "paths": {
    "/users": {
      "get": {
        "summary": "Get all users",
        "operationId": "getUsers",
        "responses": { "200": { "description": "A list of users" } }
      },
      "post": {
        "summary": "Create a user",
        "operationId": "createUser",
        "parameters": [
          { "name": "user", "in": "body", "required": true, "schema": { "$ref": "#/definitions/User" } }
        ],
        "responses": { "201": { "description": "User created" } }
      }
    },
    "/users/{id}": {
      "get": {
        "summary": "Get a user by ID",
        "operationId": "getUserById",
        "parameters": [ { "name": "id", "in": "path", "required": true, "type": "integer" } ],
        "responses": { "200": { "description": "A user" }, "404": { "description": "Not found" } }
      },
      "put": {
        "summary": "Update a user",
        "operationId": "updateUser",
        "parameters": [
          { "name": "id", "in": "path", "required": true, "type": "integer" },
          { "name": "user", "in": "body", "required": true, "schema": { "$ref": "#/definitions/User" } }
        ],
        "responses": { "200": { "description": "User updated" } }
      },
      "delete": {
        "summary": "Delete a user",
        "operationId": "deleteUser",
        "parameters": [ { "name": "id", "in": "path", "required": true, "type": "integer" } ],
        "responses": { "204": { "description": "User deleted" } }
      }
    }
  }
}"##;

fn names(files: &[GeneratedFile]) -> Vec<String> {
    files.iter().map(|f| f.name.clone()).collect()
}

#[test]
fn test_parse_swagger_file() {
    let result = parse_swagger_string(SAMPLE_SWAGGER);
    assert!(result.is_ok());

    let spec = result.unwrap();
    assert_eq!(spec.base_url, "http://api.sample.com/v1");

    let all_operations: usize = spec.paths.iter().map(|p| p.operations.len()).sum();
    assert_eq!(all_operations, 5);
}

#[test]
fn test_generate_reqwest_tests() {
    let spec = parse_swagger_string(SAMPLE_SWAGGER).unwrap();
    let generator = create_generator(TestFramework::Reqwest).unwrap();
    let files = generator.generate_tests(&spec, "http://localhost:3000");
    let names = names(&files);
    assert!(names.contains(&"api_tests.rs".to_string()));
    assert!(names.contains(&"main.rs".to_string()));
    assert!(names.contains(&"Cargo.toml".to_string()));
}

#[test]
fn test_generate_pytest_tests() {
    let spec = parse_swagger_string(SAMPLE_SWAGGER).unwrap();
    let generator = create_generator(TestFramework::Pytest).unwrap();
    let files = generator.generate_tests(&spec, "http://localhost:3000");
    let names = names(&files);
    assert!(names.contains(&"test_api.py".to_string()));
    assert!(names.contains(&"requirements.txt".to_string()));
}
