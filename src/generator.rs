//! Choosing a backend, and what every backend hands back.
use vstd::prelude::*;
use crate::cli::TestFramework;
use crate::emit_jest::{
    jest_files, jest_status_lead, jest_test_spec, js_body, js_path_setup, js_query, js_request_args,
    js_summary, JestGenerator,
};
use crate::emit_postman::{postman_files, postman_request, pm_tests, PostmanGenerator};
use crate::emit_pytest::{
    py_body, py_path_setup, py_query, py_request, py_summary, pytest_files, pytest_status_lead,
    pytest_test_spec, PytestGenerator,
};
use crate::emit_reqwest::{
    body_block, client_call, fixture_email, fixture_lead, fixture_name, path_decls, query_apply,
    query_block, reqwest_files, reqwest_status_lead, reqwest_test_spec, rust_fn_name, summary_text,
    verification, ReqwestGenerator,
};
use crate::ir::{OperationModel, ParamModel};
use crate::rules::{around, expected_status_spec, lower_text, needs_fixture_spec, substitute_spec};
use crate::text::{join_spec, lemma_join_contains};
use crate::ir::{SpecModel, SwaggerSpec};

verus! {

/// One file that a backend produces: its name inside the output directory,
/// and its full contents.
pub struct GeneratedFile {
    pub name: String,
    pub contents: String,
}

/// A generated file as plain values.
pub struct FileModel {
    pub name: Seq<char>,
    pub contents: Seq<char>,
}

impl View for GeneratedFile {
    type V = FileModel;

    open spec fn view(&self) -> FileModel {
        FileModel { name: self.name@, contents: self.contents@ }
    }
}

/// The models of a sequence of generated files.
pub open spec fn files_view(s: Seq<GeneratedFile>) -> Seq<FileModel> {
    s.map_values(|f: GeneratedFile| f@)
}

/// A file with the given name and contents.
pub fn file(name: &str, contents: String) -> (r: GeneratedFile)
    ensures
        r@ == (FileModel { name: name@, contents: contents@ }),
{
    GeneratedFile { name: name.to_string(), contents }
}

/// Why generation failed.
#[derive(Debug)]
pub enum GeneratorError {
    /// A generated file could not be written.
    IoError(String),
    /// A template could not be filled.
    TemplateError(String),
    /// No backend exists for the requested framework.
    UnsupportedFramework(TestFramework),
}

/// A backend, chosen from the closed set of frameworks.
pub enum TestGenerator {
    Reqwest(ReqwestGenerator),
    Pytest(PytestGenerator),
    Jest(JestGenerator),
    Postman(PostmanGenerator),
}

/// Whether `files` are what the backend for `f` produces for `s` and `base`;
/// the Postman collection carries a random 36-character id.
pub open spec fn framework_files(f: TestFramework, s: SpecModel, base: Seq<char>, files: Seq<FileModel>) -> bool {
    match f {
        TestFramework::Reqwest => files == reqwest_files(s, base),
        TestFramework::Pytest => files == pytest_files(s, base),
        TestFramework::Jest => files == jest_files(s, base),
        TestFramework::Postman => exists|id: Seq<char>| id.len() == 36 && #[trigger] postman_files(s, base, id) == files,
    }
}

impl TestGenerator {
    /// The framework this backend generates for.
    pub open spec fn framework_spec(&self) -> TestFramework {
        match self {
            TestGenerator::Reqwest(_) => TestFramework::Reqwest,
            TestGenerator::Pytest(_) => TestFramework::Pytest,
            TestGenerator::Jest(_) => TestFramework::Jest,
            TestGenerator::Postman(_) => TestFramework::Postman,
        }
    }

    /// The framework this backend generates for.
    pub fn framework(&self) -> (r: TestFramework)
        ensures
            r == self.framework_spec(),
    {
        match self {
            TestGenerator::Reqwest(_) => TestFramework::Reqwest,
            TestGenerator::Pytest(_) => TestFramework::Pytest,
            TestGenerator::Jest(_) => TestFramework::Jest,
            TestGenerator::Postman(_) => TestFramework::Postman,
        }
    }

    /// The files of this backend for `spec`, calling `base_url`.
    pub fn generate_tests(&self, spec: &SwaggerSpec, base_url: &str) -> (r: Vec<GeneratedFile>)
        ensures
            framework_files(self.framework_spec(), spec@, base_url@, files_view(r@)),
    {
        match self {
            TestGenerator::Reqwest(g) => g.generate_tests(spec, base_url),
            TestGenerator::Pytest(g) => g.generate_tests(spec, base_url),
            TestGenerator::Jest(g) => g.generate_tests(spec, base_url),
            TestGenerator::Postman(g) => g.generate_tests(spec, base_url),
        }
    }
}

/// The backend for a framework. Every framework has one.
pub fn create_generator(framework: TestFramework) -> (r: Result<TestGenerator, GeneratorError>)
    ensures
        r matches Ok(g) && g.framework_spec() == framework,
{
    match framework {
        TestFramework::Reqwest => Ok(TestGenerator::Reqwest(ReqwestGenerator::new())),
        TestFramework::Pytest => Ok(TestGenerator::Pytest(PytestGenerator::new())),
        TestFramework::Jest => Ok(TestGenerator::Jest(JestGenerator::new())),
        TestFramework::Postman => Ok(TestGenerator::Postman(PostmanGenerator::new())),
    }
}

/// Every backend asserts the same success status for an operation: the
/// shared expected status, right after the backend's own assertion text.
pub proof fn lemma_backends_assert_expected_status(o: OperationModel, path: Seq<char>, base: Seq<char>)
    ensures
        exists|pre: Seq<char>, post: Seq<char>|
            #[trigger] (pre + reqwest_status_lead() + expected_status_spec(o) + post) == reqwest_test_spec(o, path, base),
        exists|pre: Seq<char>, post: Seq<char>|
            #[trigger] (pre + pytest_status_lead() + expected_status_spec(o) + post) == pytest_test_spec(o, path, base),
        exists|pre: Seq<char>, post: Seq<char>|
            #[trigger] (pre + jest_status_lead() + expected_status_spec(o) + post) == jest_test_spec(o, path, base),
        exists|pre: Seq<char>, post: Seq<char>|
            #[trigger] (pre + pm_tests(expected_status_spec(o)) + post) == postman_request(o, path, base),
{
    let st = expected_status_spec(o);
    let pre = "#[tokio::test]\nasync fn test_"@ + rust_fn_name(o.operation_id) + "() {\n    // "@ + summary_text(o)
        + "\n"@ + path_decls(o) + "\n"@ + query_block(o) + "\n"@ + body_block(o)
        + "\n\n    let client = reqwest::Client::new();\n    let url = format!(\""@ + base + path
        + "\");\n    \n    let response = "@ + client_call(o) + query_apply(o);
    let post = ");"@ + verification(o, path) + "\n}\n"@;
    assert(pre + reqwest_status_lead() + st + post =~= reqwest_test_spec(o, path, base));

    let pre = "def test_"@ + o.operation_id + "():\n    \"\"\"\n    "@ + py_summary(o) + "\n    \"\"\"\n"@
        + py_path_setup(o) + "\n"@ + py_query(o) + "\n"@ + py_body(o) + "\n\n    url = f\""@ + base
        + path + "\"\n    "@ + py_request(o);
    let post = "\n    \n    # Verify the response body\n    # response_json = response.json()\n    # assert \"id\" in response_json\n"@;
    assert(pre + pytest_status_lead() + st + post =~= pytest_test_spec(o, path, base));

    let pre = "test('"@ + o.operation_id + "', async () => {\n  // "@ + js_summary(o) + "\n"@ + js_path_setup(o)
        + "\n"@ + js_query(o) + "\n"@ + js_body(o) + "\n\n  const url = `"@ + base + substitute_spec(
        path,
        o.path_params,
        "${"@,
        "}"@,
    ) + "`;\n  \n  const response = await axios."@ + lower_text(o.method) + "(url, "@ + js_request_args(o);
    let post = ");\n  \n  // Verify the response body\n  // expect(response.data).toHaveProperty('id');\n});"@;
    assert(pre + jest_status_lead() + st + post =~= jest_test_spec(o, path, base));

    let text = postman_request(o, path, base);
    let post = "\n          \"response\": []\n        }\n"@;
    let pre = text.take(text.len() - post.len() - pm_tests(st).len());
    assert(pre + pm_tests(st) + post =~= text);
}

/// Where an operation needs a fixture, its reqwest test calls the fixture
/// helper that creates the resource.
pub proof fn lemma_reqwest_creates_fixture(o: OperationModel, path: Seq<char>, base: Seq<char>)
    requires
        needs_fixture_spec(o),
    ensures
        exists|pre: Seq<char>, post: Seq<char>| #[trigger] (pre + fixture_lead() + post) == reqwest_test_spec(o, path, base),
{
    let m = lower_text(o.method);
    let rest = fixture_name(m) + ", "@ + fixture_email(m) + ").await;"@;
    assert(path_decls(o) =~= fixture_lead() + rest);
    let head = "#[tokio::test]\nasync fn test_"@ + rust_fn_name(o.operation_id) + "() {\n    // "@ + summary_text(o) + "\n"@;
    let tail = "\n"@ + query_block(o) + "\n"@ + body_block(o)
        + "\n\n    let client = reqwest::Client::new();\n    let url = format!(\""@ + base + path
        + "\");\n    \n    let response = "@ + client_call(o) + query_apply(o) + reqwest_status_lead()
        + expected_status_spec(o) + ");"@ + verification(o, path) + "\n}\n"@;
    assert(head + path_decls(o) + tail =~= reqwest_test_spec(o, path, base));
    assert(head + fixture_lead() + (rest + tail) =~= head + (fixture_lead() + rest) + tail);
}

/// The pytest test of an operation binds each path parameter to `1`.
pub proof fn lemma_pytest_binds_literal(o: OperationModel, path: Seq<char>, base: Seq<char>, k: int)
    requires
        0 <= k < o.path_params.len(),
    ensures
        exists|pre: Seq<char>, post: Seq<char>|
            #[trigger] (pre + around(
                o.path_params[k],
                "    # Path parameter: "@,
                "\n    "@,
                " = 1  # Replace with actual test value"@,
                true,
            ) + post) == pytest_test_spec(o, path, base),
{
    let items = o.path_params.map_values(
        |p: ParamModel| around(p, "    # Path parameter: "@, "\n    "@, " = 1  # Replace with actual test value"@, true),
    );
    lemma_join_contains(items, "\n"@, k);
    let (a, b) = choose|a: Seq<char>, b: Seq<char>| #[trigger] (a + items[k] + b) == join_spec(items, "\n"@);
    let head = "def test_"@ + o.operation_id + "():\n    \"\"\"\n    "@ + py_summary(o) + "\n    \"\"\"\n"@;
    let tail = "\n"@ + py_query(o) + "\n"@ + py_body(o) + "\n\n    url = f\""@ + base + path + "\"\n    "@
        + py_request(o) + pytest_status_lead() + expected_status_spec(o)
        + "\n    \n    # Verify the response body\n    # response_json = response.json()\n    # assert \"id\" in response_json\n"@;
    assert(head + py_path_setup(o) + tail =~= pytest_test_spec(o, path, base));
    assert((head + a) + items[k] + (b + tail) =~= head + (a + items[k] + b) + tail);
}

/// The Jest test of an operation binds each path parameter to `1`.
pub proof fn lemma_jest_binds_literal(o: OperationModel, path: Seq<char>, base: Seq<char>, k: int)
    requires
        0 <= k < o.path_params.len(),
    ensures
        exists|pre: Seq<char>, post: Seq<char>|
            #[trigger] (pre + around(
                o.path_params[k],
                "  // Path parameter: "@,
                "\n  const "@,
                " = 1; // Replace with actual test value"@,
                true,
            ) + post) == jest_test_spec(o, path, base),
{
    let items = o.path_params.map_values(
        |p: ParamModel| around(p, "  // Path parameter: "@, "\n  const "@, " = 1; // Replace with actual test value"@, true),
    );
    lemma_join_contains(items, "\n"@, k);
    let (a, b) = choose|a: Seq<char>, b: Seq<char>| #[trigger] (a + items[k] + b) == join_spec(items, "\n"@);
    let head = "test('"@ + o.operation_id + "', async () => {\n  // "@ + js_summary(o) + "\n"@;
    let tail = "\n"@ + js_query(o) + "\n"@ + js_body(o) + "\n\n  const url = `"@ + base + substitute_spec(
        path,
        o.path_params,
        "${"@,
        "}"@,
    ) + "`;\n  \n  const response = await axios."@ + lower_text(o.method) + "(url, "@ + js_request_args(o)
        + jest_status_lead() + expected_status_spec(o)
        + ");\n  \n  // Verify the response body\n  // expect(response.data).toHaveProperty('id');\n});"@;
    assert(head + js_path_setup(o) + tail =~= jest_test_spec(o, path, base));
    assert((head + a) + items[k] + (b + tail) =~= head + (a + items[k] + b) + tail);
}

/// A path parameter named `id` on a GET, PUT or DELETE operation makes the
/// reqwest test create its resource through the fixture helper first; the
/// pytest and Jest tests instead bind that parameter to the literal `1`.
pub proof fn lemma_id_fixture_or_literal(o: OperationModel, path: Seq<char>, base: Seq<char>, k: int)
    requires
        0 <= k < o.path_params.len(),
        o.path_params[k].name == "id"@,
        lower_text(o.method) == "get"@ || lower_text(o.method) == "put"@ || lower_text(o.method) == "delete"@,
    ensures
        needs_fixture_spec(o),
        exists|pre: Seq<char>, post: Seq<char>| #[trigger] (pre + fixture_lead() + post) == reqwest_test_spec(o, path, base),
        exists|pre: Seq<char>, post: Seq<char>|
            #[trigger] (pre + around(
                o.path_params[k],
                "    # Path parameter: "@,
                "\n    "@,
                " = 1  # Replace with actual test value"@,
                true,
            ) + post) == pytest_test_spec(o, path, base),
        exists|pre: Seq<char>, post: Seq<char>|
            #[trigger] (pre + around(
                o.path_params[k],
                "  // Path parameter: "@,
                "\n  const "@,
                " = 1; // Replace with actual test value"@,
                true,
            ) + post) == jest_test_spec(o, path, base),
{
    assert(needs_fixture_spec(o));
    lemma_reqwest_creates_fixture(o, path, base);
    lemma_pytest_binds_literal(o, path, base, k);
    lemma_jest_binds_literal(o, path, base, k);
}

/// Generating twice from the same model gives byte-identical files, except
/// for the Postman collection, whose id is drawn anew: there the file names
/// and the README agree, and the collections differ at most in their ids.
pub proof fn lemma_generation_repeatable(
    f: TestFramework,
    s: SpecModel,
    base: Seq<char>,
    files1: Seq<FileModel>,
    files2: Seq<FileModel>,
)
    requires
        framework_files(f, s, base, files1),
        framework_files(f, s, base, files2),
    ensures
        f != TestFramework::Postman ==> files1 == files2,
        f == TestFramework::Postman ==> {
            &&& files1.len() == 2 && files2.len() == 2
            &&& files1[0].name == files2[0].name
            &&& files1[1] == files2[1]
            &&& exists|id1: Seq<char>, id2: Seq<char>|
                #[trigger] postman_files(s, base, id1) == files1 && #[trigger] postman_files(s, base, id2) == files2
        },
{
    if f == TestFramework::Postman {
        let id1 = choose|id: Seq<char>| id.len() == 36 && #[trigger] postman_files(s, base, id) == files1;
        let id2 = choose|id: Seq<char>| id.len() == 36 && #[trigger] postman_files(s, base, id) == files2;
        assert(postman_files(s, base, id1) == files1);
        assert(postman_files(s, base, id2) == files2);
    }
}

} // verus!
