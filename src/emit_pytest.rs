//! The scripting-client backend: one pytest file using requests.
use vstd::prelude::*;
use crate::generator::{file, files_view, FileModel, GeneratedFile};
use crate::ir::{operations_view, paths_view, ApiOperation, OperationModel, ParamModel, PathModel, SpecModel, SwaggerSpec};
use crate::json::str_eq;
use crate::rules::{around, expected_status, expected_status_spec, lower_text, render_names, to_lower_text};
use crate::text::{join_spec, join_strings};

verus! {

/// The lines that bind each path parameter to the literal `1`.
pub open spec fn py_path_setup(o: OperationModel) -> Seq<char> {
    join_spec(
        o.path_params.map_values(
            |p: ParamModel| around(p, "    # Path parameter: "@, "\n    "@, " = 1  # Replace with actual test value"@, true),
        ),
        "\n"@,
    )
}

/// The query-parameter dictionary.
pub open spec fn py_query(o: OperationModel) -> Seq<char> {
    if o.query_params.len() > 0 {
        "    params = {\n"@ + join_spec(
            o.query_params.map_values(|p: ParamModel| around(p, "        \""@, "\": \"test_value\""@, ""@, false)),
            ",\n"@,
        ) + "\n    }"@
    } else {
        "    params = {}"@
    }
}

/// The request body: the fixed example payload where the operation has a
/// body parameter, else `None`.
pub open spec fn py_body(o: OperationModel) -> Seq<char> {
    if o.body_param is Some {
        "    json_data = {\n        \"name\": \"Test User\",\n        \"email\": \"test@example.com\"\n    }"@
    } else {
        "    json_data = None"@
    }
}

/// The request for the operation's method.
pub open spec fn py_request(o: OperationModel) -> Seq<char> {
    let m = lower_text(o.method);
    if m == "post"@ {
        "response = requests.post(url, json=json_data, params=params)"@
    } else if m == "put"@ {
        "response = requests.put(url, json=json_data, params=params)"@
    } else if m == "delete"@ {
        "response = requests.delete(url, params=params)"@
    } else {
        "response = requests.get(url, params=params)"@
    }
}

/// The summary's text.
pub open spec fn py_summary(o: OperationModel) -> Seq<char> {
    match o.summary {
        Some(s) => s,
        None => ""@,
    }
}

/// The text that leads into a test's status assertion.
pub open spec fn pytest_status_lead() -> Seq<char> {
    "\n    \n    # Verify status code\n    assert response.status_code == "@
}

/// The test of one operation on `path` against `base`.
pub open spec fn pytest_test_spec(o: OperationModel, path: Seq<char>, base: Seq<char>) -> Seq<char> {
    "def test_"@ + o.operation_id + "():\n    \"\"\"\n    "@ + py_summary(o) + "\n    \"\"\"\n"@
        + py_path_setup(o) + "\n"@ + py_query(o) + "\n"@ + py_body(o) + "\n\n    url = f\""@ + base
        + path + "\"\n    "@ + py_request(o)
        + pytest_status_lead() + expected_status_spec(o)
        + "\n    \n    # Verify the response body\n    # response_json = response.json()\n    # assert \"id\" in response_json\n"@
}

/// The tests of a path's operations, each followed by a blank line.
pub open spec fn pytest_ops_text(ops: Seq<OperationModel>, path: Seq<char>, base: Seq<char>) -> Seq<char>
    decreases ops.len(),
{
    if ops.len() == 0 {
        seq![]
    } else {
        pytest_ops_text(ops.drop_last(), path, base) + pytest_test_spec(ops.last(), path, base) + "\n\n"@
    }
}

/// The tests of every path, in order.
pub open spec fn pytest_paths_text(paths: Seq<PathModel>, base: Seq<char>) -> Seq<char>
    decreases paths.len(),
{
    if paths.len() == 0 {
        seq![]
    } else {
        pytest_paths_text(paths.drop_last(), base) + pytest_ops_text(paths.last().operations, paths.last().path, base)
    }
}

/// How to install and run the generated tests.
pub open spec fn pytest_readme() -> Seq<char> {
    "# API Tests\n\nGenerated API tests for the Swagger/OpenAPI specification.\n\n## Setup\n\nInstall the requirements:\n\n```\npip install -r requirements.txt\n```\n\n## Running the tests\n\nTo run the tests:\n\n```\npytest -v\n```\n\n"@
}

/// The files of the pytest backend.
pub open spec fn pytest_files(s: SpecModel, base: Seq<char>) -> Seq<FileModel> {
    seq![
        FileModel {
            name: "test_api.py"@,
            contents: "import requests\nimport pytest\n\n"@ + pytest_paths_text(s.paths, base),
        },
        FileModel { name: "requirements.txt"@, contents: "requests==2.28.1\npytest==7.3.1\n"@ },
        FileModel { name: "README.md"@, contents: pytest_readme() },
    ]
}

/// The pytest backend.
pub struct PytestGenerator;

impl PytestGenerator {
    pub fn new() -> (r: PytestGenerator) {
        PytestGenerator
    }

    /// The test of one operation on `path` against `base_url`.
    pub fn generate_operation_test(&self, operation: &ApiOperation, path: &str, base_url: &str) -> (r: String)
        ensures
            r@ == pytest_test_spec(operation@, path@, base_url@),
    {
        let op = operation;
        let method = to_lower_text(op.method.as_str());
        let m = method.as_str();
        let summary: &str = match &op.summary {
            Some(s) => s.as_str(),
            None => "",
        };
        let setup = join_strings(
            &render_names(&op.path_params, "    # Path parameter: ", "\n    ", " = 1  # Replace with actual test value", true),
            "\n",
        );
        let query = if op.query_params.len() > 0 {
            let mut q = "    params = {\n".to_string();
            q.append(join_strings(&render_names(&op.query_params, "        \"", "\": \"test_value\"", "", false), ",\n").as_str());
            q.append("\n    }");
            q
        } else {
            "    params = {}".to_string()
        };
        let body: &str = if op.body_param.is_some() {
            "    json_data = {\n        \"name\": \"Test User\",\n        \"email\": \"test@example.com\"\n    }"
        } else {
            "    json_data = None"
        };
        let request: &str = if str_eq(m, "post") {
            "response = requests.post(url, json=json_data, params=params)"
        } else if str_eq(m, "put") {
            "response = requests.put(url, json=json_data, params=params)"
        } else if str_eq(m, "delete") {
            "response = requests.delete(url, params=params)"
        } else {
            "response = requests.get(url, params=params)"
        };
        let status = expected_status(op);
        let mut out = "def test_".to_string();
        out.append(op.operation_id.as_str());
        out.append("():\n    \"\"\"\n    ");
        out.append(summary);
        out.append("\n    \"\"\"\n");
        out.append(setup.as_str());
        out.append("\n");
        out.append(query.as_str());
        out.append("\n");
        out.append(body);
        out.append("\n\n    url = f\"");
        out.append(base_url);
        out.append(path);
        out.append("\"\n    ");
        out.append(request);
        out.append("\n    \n    # Verify status code\n    assert response.status_code == ");
        out.append(status.as_str());
        out.append("\n    \n    # Verify the response body\n    # response_json = response.json()\n    # assert \"id\" in response_json\n");
        out
    }

    /// The files of this backend: `test_api.py` with one test per operation,
    /// `requirements.txt`, and `README.md`.
    pub fn generate_tests(&self, spec: &SwaggerSpec, base_url: &str) -> (r: Vec<GeneratedFile>)
        ensures
            files_view(r@) == pytest_files(spec@, base_url@),
    {
        let mut text = "import requests\nimport pytest\n\n".to_string();
        let ghost head = text@;
        let ghost paths = paths_view(spec.paths@);
        let mut i: usize = 0;
        while i < spec.paths.len()
            invariant
                i <= spec.paths.len(),
                paths == paths_view(spec.paths@),
                text@ == head + pytest_paths_text(paths.take(i as int), base_url@),
            decreases spec.paths.len() - i,
        {
            assert(paths.take(i + 1).drop_last() =~= paths.take(i as int));
            let p = &spec.paths[i];
            let ghost before = text@;
            let mut j: usize = 0;
            let ghost ops = operations_view(p.operations@);
            while j < p.operations.len()
                invariant
                    j <= p.operations.len(),
                    ops == operations_view(p.operations@),
                    text@ == before + pytest_ops_text(ops.take(j as int), p.path@, base_url@),
                decreases p.operations.len() - j,
            {
                assert(ops.take(j + 1).drop_last() =~= ops.take(j as int));
                let t = self.generate_operation_test(&p.operations[j], p.path.as_str(), base_url);
                text.append(t.as_str());
                text.append("\n\n");
                j = j + 1;
            }
            assert(ops.take(j as int) =~= ops);
            assert(paths.take(i + 1).last() == p@);
            i = i + 1;
        }
        assert(paths.take(i as int) =~= paths);
        let mut files: Vec<GeneratedFile> = Vec::new();
        files.push(file("test_api.py", text));
        files.push(file("requirements.txt", "requests==2.28.1\npytest==7.3.1\n".to_string()));
        files.push(file("README.md", "# API Tests\n\nGenerated API tests for the Swagger/OpenAPI specification.\n\n## Setup\n\nInstall the requirements:\n\n```\npip install -r requirements.txt\n```\n\n## Running the tests\n\nTo run the tests:\n\n```\npytest -v\n```\n\n".to_string()));
        assert(files_view(files@) =~= pytest_files(spec@, base_url@));
        files
    }
}

} // verus!
