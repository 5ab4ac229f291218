//! The native-async-client backend: one Rust test file using reqwest and tokio.
use vstd::prelude::*;
use crate::generator::{file, files_view, FileModel, GeneratedFile};
use crate::ir::{operations_view, paths_view, ApiOperation, OperationModel, ParamModel, PathModel, SpecModel, SwaggerSpec};
use crate::json::str_eq;
use crate::rules::{
    around, expected_status, expected_status_spec, has_id_param, has_id_parameter, lower_text,
    needs_fixture, needs_fixture_spec, render_names, to_lower_text,
};
use crate::text::{
    char_is_uppercase, char_to_lowercase, chars_of, contains_spec, contains_text, find_chars, find_spec,
    is_upper_char, join_spec, join_strings, lemma_find_in_bounds, lower_char, string_of, sub_chars,
    trim_end_chars, trim_end_of, trim_start_chars, trim_start_of,
};

verus! {

/// A test function name for an operation id: each upper-case character is
/// lowered and, unless it starts the name, preceded by `_`.
pub open spec fn rust_fn_name(s: Seq<char>) -> Seq<char>
    decreases s.len(),
{
    if s.len() == 0 {
        seq![]
    } else {
        let prev = rust_fn_name(s.drop_last());
        let c = s.last();
        if is_upper_char(c) {
            if prev.len() > 0 {
                prev.push('_').push(lower_char(c))
            } else {
                prev.push(lower_char(c))
            }
        } else {
            prev.push(c)
        }
    }
}

/// The name given to the resource that a fixture creates.
pub open spec fn fixture_name(m: Seq<char>) -> Seq<char> {
    if m == "get"@ {
        "\"Get User Test\""@
    } else if m == "put"@ {
        "\"Update Test\""@
    } else if m == "delete"@ {
        "\"Delete Test\""@
    } else {
        "\"Test User\""@
    }
}

/// The e-mail given to the resource that a fixture creates.
pub open spec fn fixture_email(m: Seq<char>) -> Seq<char> {
    if m == "get"@ {
        "\"get_test@example.com\""@
    } else if m == "put"@ {
        "\"update_test@example.com\""@
    } else if m == "delete"@ {
        "\"delete_test@example.com\""@
    } else {
        "\"test@example.com\""@
    }
}

/// The start of the fixture call that creates the resource a test uses.
pub open spec fn fixture_lead() -> Seq<char> {
    "    // Create a test user first\n    let id = create_test_user("@
}

/// The text that leads into a test's status assertion.
pub open spec fn reqwest_status_lead() -> Seq<char> {
    "\n        .send()\n        .await\n        .expect(\"Failed to send request\");\n        \n    assert_eq!(response.status().as_u16(), "@
}

/// The lines that bind the path parameters: a fixture call where the
/// operation needs one, else one literal binding per parameter.
pub open spec fn path_decls(o: OperationModel) -> Seq<char> {
    if needs_fixture_spec(o) {
        fixture_lead() + fixture_name(
            lower_text(o.method),
        ) + ", "@ + fixture_email(lower_text(o.method)) + ").await;"@
    } else {
        join_spec(
            o.path_params.map_values(
                |p: ParamModel| around(p, "    let "@, " = 1; // Replace with actual test value for "@, ""@, true),
            ),
            "\n"@,
        )
    }
}

/// The query-parameter array, where there are query parameters.
pub open spec fn query_block(o: OperationModel) -> Seq<char> {
    if o.query_params.len() > 0 {
        "    let query_params = ["@ + join_spec(
            o.query_params.map_values(|p: ParamModel| around(p, "        (\""@, "\", \"test_value\")"@, ""@, false)),
            ",\n"@,
        ) + "\n    ];"@
    } else {
        ""@
    }
}

/// The request body: an updated payload for PUT, the fixed example payload
/// where the operation has a body parameter, else nothing.
pub open spec fn body_block(o: OperationModel) -> Seq<char> {
    if lower_text(o.method) == "put"@ {
        "    let body = json!({\n        \"name\": \"Updated Name\",\n        \"email\": \"updated@example.com\"\n    });"@
    } else if o.body_param is Some {
        "    let body = json!({\n        \"name\": \"Test User\",\n        \"email\": \"test@example.com\"\n    });"@
    } else {
        ""@
    }
}

/// The client call for the operation's method.
pub open spec fn client_call(o: OperationModel) -> Seq<char> {
    let m = lower_text(o.method);
    if m == "post"@ {
        if o.body_param is Some {
            "client.post(&url).json(&body)"@
        } else {
            "client.post(&url)"@
        }
    } else if m == "put"@ {
        if o.body_param is Some {
            "client.put(&url).json(&body)"@
        } else {
            "client.put(&url)"@
        }
    } else if m == "delete"@ {
        "client.delete(&url)"@
    } else {
        "client.get(&url)"@
    }
}

/// The query attachment, where there are query parameters.
pub open spec fn query_apply(o: OperationModel) -> Seq<char> {
    if o.query_params.len() > 0 {
        ".query(&query_params)"@
    } else {
        ""@
    }
}

/// The check that a deleted resource is gone: a second GET answers 404.
pub open spec fn deleted_check() -> Seq<char> {
    "\n    // Verify the user is deleted by trying to get it\n    let get_response = client.get(&url)\n        .send()\n        .await\n        .expect(\"Failed to send GET request\");\n        \n    assert_eq!(get_response.status().as_u16(), 404);"@
}

/// The checks on the response body that follow the status check.
pub open spec fn verification(o: OperationModel, path: Seq<char>) -> Seq<char> {
    let m = lower_text(o.method);
    if m == "delete"@ {
        deleted_check()
    } else if m == "get"@ && has_id_param(o.path_params) {
        "\n    // Verify the response body contains the right data\n    let user: User = response.json().await.expect(\"Failed to parse response\");\n    assert_eq!(user.id, id);"@
    } else if m == "put"@ {
        "\n    // Verify the response body\n    let user: User = response.json().await.expect(\"Failed to parse response\");\n    assert_eq!(user.name, \"Updated Name\");\n    assert_eq!(user.email, \"updated@example.com\");"@
    } else if m == "post"@ && contains_spec(path, "users"@) && !contains_spec(path, "{"@) {
        "\n    // Verify the response body\n    let user: User = response.json().await.expect(\"Failed to parse response\");\n    assert_eq!(user.name, \"Test User\");\n    assert_eq!(user.email, \"test@example.com\");"@
    } else if m == "get"@ && !contains_spec(path, "{"@) {
        "\n    // Verify the response body contains users\n    let users: Vec<User> = response.json().await.expect(\"Failed to parse response\");\n    assert!(!users.is_empty(), \"Expected users array to not be empty\");"@
    } else {
        ""@
    }
}

/// The summary line's text.
pub open spec fn summary_text(o: OperationModel) -> Seq<char> {
    match o.summary {
        Some(s) => s,
        None => ""@,
    }
}

/// The test of one operation on `path` against `base`.
pub open spec fn reqwest_test_spec(o: OperationModel, path: Seq<char>, base: Seq<char>) -> Seq<char> {
    "#[tokio::test]\nasync fn test_"@ + rust_fn_name(o.operation_id) + "() {\n    // "@ + summary_text(o)
        + "\n"@ + path_decls(o) + "\n"@ + query_block(o) + "\n"@ + body_block(o)
        + "\n\n    let client = reqwest::Client::new();\n    let url = format!(\""@ + base + path
        + "\");\n    \n    let response = "@ + client_call(o) + query_apply(o)
        + reqwest_status_lead() + expected_status_spec(o) + ");"@ + verification(o, path) + "\n}\n"@
}

/// The test function name for an operation id.
pub fn rust_test_name(id: &str) -> (r: String)
    ensures
        r@ == rust_fn_name(id@),
{
    let cs = chars_of(id);
    let mut out: Vec<char> = Vec::new();
    let mut i: usize = 0;
    while i < cs.len()
        invariant
            i <= cs.len(),
            cs@ == id@,
            out@ == rust_fn_name(cs@.take(i as int)),
        decreases cs.len() - i,
    {
        let c = cs[i];
        assert(cs@.take(i + 1).drop_last() =~= cs@.take(i as int));
        if char_is_uppercase(c) {
            if out.len() > 0 {
                out.push('_');
            }
            out.push(char_to_lowercase(c));
        } else {
            out.push(c);
        }
        i = i + 1;
    }
    assert(cs@.take(i as int) =~= id@);
    string_of(&out)
}

/// The fixture's resource name for a lower-case method.
fn fixture_name_of(m: &str) -> (r: &'static str)
    ensures
        r@ == fixture_name(m@),
{
    if str_eq(m, "get") {
        "\"Get User Test\""
    } else if str_eq(m, "put") {
        "\"Update Test\""
    } else if str_eq(m, "delete") {
        "\"Delete Test\""
    } else {
        "\"Test User\""
    }
}

/// The fixture's resource e-mail for a lower-case method.
fn fixture_email_of(m: &str) -> (r: &'static str)
    ensures
        r@ == fixture_email(m@),
{
    if str_eq(m, "get") {
        "\"get_test@example.com\""
    } else if str_eq(m, "put") {
        "\"update_test@example.com\""
    } else if str_eq(m, "delete") {
        "\"delete_test@example.com\""
    } else {
        "\"test@example.com\""
    }
}

/// The path part of a spec's base URL: between the first `://` and the next
/// one, from the first `/` on; empty where either is missing.
pub open spec fn base_path_of(u: Seq<char>) -> Seq<char> {
    match find_spec(u, "://"@) {
        Some(k) => {
            let rest = u.skip(k + 3);
            let seg = match find_spec(rest, "://"@) {
                Some(k2) => rest.take(k2),
                None => rest,
            };
            match find_spec(seg, "/"@) {
                Some(p) => seg.skip(p),
                None => ""@,
            }
        },
        None => ""@,
    }
}

/// The URL the tests call: the requested base URL followed by the spec's
/// base path, with exactly one `/` between them.
pub open spec fn final_base_spec(base: Seq<char>, bp: Seq<char>) -> Seq<char> {
    if (base.len() > 0 && base.last() == '/') || (bp.len() > 0 && bp[0] == '/') {
        trim_end_of(base, '/') + bp
    } else if bp.len() > 0 {
        base + "/"@ + trim_start_of(bp, '/')
    } else {
        base
    }
}

/// The start of the test file, up to the fixture helper's URL.
pub open spec fn header_head() -> Seq<char> {
    "use serde_json::json;\nuse serde::{Deserialize, Serialize};\n\n#[derive(Debug, Serialize, Deserialize)]\nstruct User {\n    id: i64,\n    name: String,\n    email: String,\n    created_at: String,\n    updated_at: Option<String>,\n}\n\n// Helper function to create a test user and return its ID\nasync fn create_test_user(name: &str, email: &str) -> i64 {\n    let body = json!({\n        \"name\": name,\n        \"email\": email\n    });\n\n    let client = reqwest::Client::new();\n    let url = \""@
}

/// The rest of the fixture helper.
pub open spec fn header_tail() -> Seq<char> {
    "/users\";\n    \n    let response = client.post(url).json(&body)\n        .send()\n        .await\n        .expect(\"Failed to create test user\");\n        \n    assert_eq!(response.status().as_u16(), 201);\n    \n    let user: User = response.json().await.expect(\"Failed to parse user response\");\n    user.id\n}\n"@
}

/// The tests of a path's operations, each followed by a blank line.
pub open spec fn reqwest_ops_text(ops: Seq<OperationModel>, path: Seq<char>, base: Seq<char>) -> Seq<char>
    decreases ops.len(),
{
    if ops.len() == 0 {
        seq![]
    } else {
        reqwest_ops_text(ops.drop_last(), path, base) + reqwest_test_spec(ops.last(), path, base) + "\n\n"@
    }
}

/// The tests of every path, in order.
pub open spec fn reqwest_paths_text(paths: Seq<PathModel>, base: Seq<char>) -> Seq<char>
    decreases paths.len(),
{
    if paths.len() == 0 {
        seq![]
    } else {
        reqwest_paths_text(paths.drop_last(), base) + reqwest_ops_text(
            paths.last().operations,
            paths.last().path,
            base,
        )
    }
}

/// The entry point of the generated test project.
pub open spec fn main_text() -> Seq<char> {
    "#[cfg(test)]\nmod api_tests;\n\nfn main() {\n    println!(\"Run with 'cargo test' to execute the API tests\");\n}\n\n"@
}

/// The manifest of the generated test project.
pub open spec fn manifest_text() -> Seq<char> {
    "[package]\nname = \"api_tests\"\nversion = \"0.1.0\"\nedition = \"2021\"\n\n[dependencies]\nreqwest = { version = \"0.11\", features = [\"json\", \"blocking\"] }\ntokio = { version = \"1\", features = [\"full\"] }\nserde = { version = \"1.0\", features = [\"derive\"] }\nserde_json = \"1.0\"\n\n"@
}

/// The files of the reqwest backend for a spec and a requested base URL.
pub open spec fn reqwest_files(s: SpecModel, base: Seq<char>) -> Seq<FileModel> {
    let fb = final_base_spec(base, base_path_of(s.base_url));
    seq![
        FileModel {
            name: "api_tests.rs"@,
            contents: header_head() + fb + header_tail() + reqwest_paths_text(s.paths, fb),
        },
        FileModel { name: "main.rs"@, contents: main_text() },
        FileModel { name: "Cargo.toml"@, contents: manifest_text() },
    ]
}

/// The path part of a base URL.
pub fn base_path(url: &str) -> (r: Vec<char>)
    ensures
        r@ == base_path_of(url@),
{
    let u = chars_of(url);
    let sep = chars_of("://");
    let slash = chars_of("/");
    match find_chars(&u, &sep) {
        Some(k) => {
            proof {
                reveal_strlit("://");
                lemma_find_in_bounds(u@, sep@);
                assert("://"@.len() == 3);
                assert(sep@.len() == 3);
                assert(k + sep@.len() <= u@.len());
            }
            assert(k + 3 <= u.len());
            let rest = sub_chars(&u, k + 3, u.len());
            assert(rest@ =~= u@.skip(k + 3));
            let seg = match find_chars(&rest, &sep) {
                Some(k2) => {
                    proof {
                        lemma_find_in_bounds(rest@, sep@);
                    }
                    let x = sub_chars(&rest, 0, k2);
                    assert(x@ =~= rest@.take(k2 as int));
                    x
                },
                None => rest,
            };
            match find_chars(&seg, &slash) {
                Some(p) => {
                    proof {
                        lemma_find_in_bounds(seg@, slash@);
                    }
                    let x = sub_chars(&seg, p, seg.len());
                    assert(x@ =~= seg@.skip(p as int));
                    x
                },
                None => {
                    proof {
                        reveal_strlit("");
                    }
                    let x: Vec<char> = Vec::new();
                    assert(x@ =~= ""@);
                    x
                },
            }
        },
        None => {
            proof {
                reveal_strlit("");
            }
            let x: Vec<char> = Vec::new();
            assert(x@ =~= ""@);
            x
        },
    }
}

/// The URL the tests call.
pub fn final_base(base: &str, bp: &Vec<char>) -> (r: String)
    ensures
        r@ == final_base_spec(base@, bp@),
{
    let b = chars_of(base);
    if (b.len() > 0 && b[b.len() - 1] == '/') || (bp.len() > 0 && bp[0] == '/') {
        let mut out = string_of(&trim_end_chars(&b, '/'));
        out.append(string_of(bp).as_str());
        out
    } else if bp.len() > 0 {
        let mut out = base.to_string();
        out.append("/");
        out.append(string_of(&trim_start_chars(bp, '/')).as_str());
        out
    } else {
        base.to_string()
    }
}

/// The reqwest backend.
pub struct ReqwestGenerator;

impl ReqwestGenerator {
    pub fn new() -> (r: ReqwestGenerator) {
        ReqwestGenerator
    }

    /// The test of one operation on `path` against `base_url`.
    pub fn generate_operation_test(&self, operation: &ApiOperation, path: &str, base_url: &str) -> (r: String)
        ensures
            r@ == reqwest_test_spec(operation@, path@, base_url@),
    {
        let op = operation;
        let method = to_lower_text(op.method.as_str());
        let m = method.as_str();
        let name = rust_test_name(op.operation_id.as_str());
        let summary: &str = match &op.summary {
            Some(s) => s.as_str(),
            None => "",
        };
        let decls = if needs_fixture(op) {
            let mut d = "    // Create a test user first\n    let id = create_test_user(".to_string();
            d.append(fixture_name_of(m));
            d.append(", ");
            d.append(fixture_email_of(m));
            d.append(").await;");
            d
        } else {
            join_strings(
                &render_names(&op.path_params, "    let ", " = 1; // Replace with actual test value for ", "", true),
                "\n",
            )
        };
        let query = if op.query_params.len() > 0 {
            let mut q = "    let query_params = [".to_string();
            q.append(join_strings(&render_names(&op.query_params, "        (\"", "\", \"test_value\")", "", false), ",\n").as_str());
            q.append("\n    ];");
            q
        } else {
            "".to_string()
        };
        let body: &str = if str_eq(m, "put") {
            "    let body = json!({\n        \"name\": \"Updated Name\",\n        \"email\": \"updated@example.com\"\n    });"
        } else if op.body_param.is_some() {
            "    let body = json!({\n        \"name\": \"Test User\",\n        \"email\": \"test@example.com\"\n    });"
        } else {
            ""
        };
        let has_body = op.body_param.is_some();
        let client: &str = if str_eq(m, "post") {
            if has_body {
                "client.post(&url).json(&body)"
            } else {
                "client.post(&url)"
            }
        } else if str_eq(m, "put") {
            if has_body {
                "client.put(&url).json(&body)"
            } else {
                "client.put(&url)"
            }
        } else if str_eq(m, "delete") {
            "client.delete(&url)"
        } else {
            "client.get(&url)"
        };
        let apply: &str = if op.query_params.len() > 0 {
            ".query(&query_params)"
        } else {
            ""
        };
        let status = expected_status(op);
        let check: &str = if str_eq(m, "delete") {
            "\n    // Verify the user is deleted by trying to get it\n    let get_response = client.get(&url)\n        .send()\n        .await\n        .expect(\"Failed to send GET request\");\n        \n    assert_eq!(get_response.status().as_u16(), 404);"
        } else if str_eq(m, "get") && has_id_parameter(&op.path_params) {
            "\n    // Verify the response body contains the right data\n    let user: User = response.json().await.expect(\"Failed to parse response\");\n    assert_eq!(user.id, id);"
        } else if str_eq(m, "put") {
            "\n    // Verify the response body\n    let user: User = response.json().await.expect(\"Failed to parse response\");\n    assert_eq!(user.name, \"Updated Name\");\n    assert_eq!(user.email, \"updated@example.com\");"
        } else if str_eq(m, "post") && contains_text(path, "users") && !contains_text(path, "{") {
            "\n    // Verify the response body\n    let user: User = response.json().await.expect(\"Failed to parse response\");\n    assert_eq!(user.name, \"Test User\");\n    assert_eq!(user.email, \"test@example.com\");"
        } else if str_eq(m, "get") && !contains_text(path, "{") {
            "\n    // Verify the response body contains users\n    let users: Vec<User> = response.json().await.expect(\"Failed to parse response\");\n    assert!(!users.is_empty(), \"Expected users array to not be empty\");"
        } else {
            ""
        };
        let mut out = "#[tokio::test]\nasync fn test_".to_string();
        out.append(name.as_str());
        out.append("() {\n    // ");
        out.append(summary);
        out.append("\n");
        out.append(decls.as_str());
        out.append("\n");
        out.append(query.as_str());
        out.append("\n");
        out.append(body);
        out.append("\n\n    let client = reqwest::Client::new();\n    let url = format!(\"");
        out.append(base_url);
        out.append(path);
        out.append("\");\n    \n    let response = ");
        out.append(client);
        out.append(apply);
        out.append("\n        .send()\n        .await\n        .expect(\"Failed to send request\");\n        \n    assert_eq!(response.status().as_u16(), ");
        out.append(status.as_str());
        out.append(");");
        out.append(check);
        out.append("\n}\n");
        out
    }

    /// The files of this backend: `api_tests.rs` with a fixture helper and
    /// one test per operation, `main.rs`, and `Cargo.toml`.
    pub fn generate_tests(&self, spec: &SwaggerSpec, base_url: &str) -> (r: Vec<GeneratedFile>)
        ensures
            files_view(r@) == reqwest_files(spec@, base_url@),
    {
        let bp = base_path(spec.base_url.as_str());
        let fb = final_base(base_url, &bp);
        let mut text = "use serde_json::json;\nuse serde::{Deserialize, Serialize};\n\n#[derive(Debug, Serialize, Deserialize)]\nstruct User {\n    id: i64,\n    name: String,\n    email: String,\n    created_at: String,\n    updated_at: Option<String>,\n}\n\n// Helper function to create a test user and return its ID\nasync fn create_test_user(name: &str, email: &str) -> i64 {\n    let body = json!({\n        \"name\": name,\n        \"email\": email\n    });\n\n    let client = reqwest::Client::new();\n    let url = \"".to_string();
        text.append(fb.as_str());
        text.append("/users\";\n    \n    let response = client.post(url).json(&body)\n        .send()\n        .await\n        .expect(\"Failed to create test user\");\n        \n    assert_eq!(response.status().as_u16(), 201);\n    \n    let user: User = response.json().await.expect(\"Failed to parse user response\");\n    user.id\n}\n");
        let ghost head = text@;
        let ghost paths = paths_view(spec.paths@);
        let mut i: usize = 0;
        while i < spec.paths.len()
            invariant
                i <= spec.paths.len(),
                paths == paths_view(spec.paths@),
                text@ == head + reqwest_paths_text(paths.take(i as int), fb@),
            decreases spec.paths.len() - i,
        {
            assert(paths.take(i + 1).drop_last() =~= paths.take(i as int));
            let p = &spec.paths[i];
            let ghost before = text@;
            let mut j: usize = 0;
            let ghost ops = operations_view(p.operations@);
            while j < p.operations.len()
                invariant
                    j <= p.operations.len(),
                    ops == operations_view(p.operations@),
                    text@ == before + reqwest_ops_text(ops.take(j as int), p.path@, fb@),
                decreases p.operations.len() - j,
            {
                assert(ops.take(j + 1).drop_last() =~= ops.take(j as int));
                let t = self.generate_operation_test(&p.operations[j], p.path.as_str(), fb.as_str());
                text.append(t.as_str());
                text.append("\n\n");
                j = j + 1;
            }
            assert(ops.take(j as int) =~= ops);
            assert(paths.take(i + 1).last() == p@);
            i = i + 1;
        }
        assert(paths.take(i as int) =~= paths);
        let mut files: Vec<GeneratedFile> = Vec::new();
        files.push(file("api_tests.rs", text));
        files.push(file("main.rs", "#[cfg(test)]\nmod api_tests;\n\nfn main() {\n    println!(\"Run with 'cargo test' to execute the API tests\");\n}\n\n".to_string()));
        files.push(file("Cargo.toml", "[package]\nname = \"api_tests\"\nversion = \"0.1.0\"\nedition = \"2021\"\n\n[dependencies]\nreqwest = { version = \"0.11\", features = [\"json\", \"blocking\"] }\ntokio = { version = \"1\", features = [\"full\"] }\nserde = { version = \"1.0\", features = [\"derive\"] }\nserde_json = \"1.0\"\n\n".to_string()));
        assert(files_view(files@) =~= reqwest_files(spec@, base_url@));
        files
    }
}

} // verus!
