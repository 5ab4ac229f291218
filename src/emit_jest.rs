//! The browser-client backend: one Jest file per path, using axios.
use vstd::prelude::*;
use crate::generator::{file, files_view, FileModel, GeneratedFile};
use crate::ir::{operations_view, paths_view, ApiOperation, OperationModel, ParamModel, PathModel, SpecModel, SwaggerSpec};
use crate::json::str_eq;
use crate::parser::{id_chars, id_map};
use crate::rules::{
    around, expected_status, expected_status_spec, lower_text, render_names, substitute_params,
    substitute_spec, to_lower_text,
};
use crate::text::{chars_of, join, join_spec, join_strings, string_of, trim_start_chars, trim_start_of};

verus! {

/// The lines that bind each path parameter to the literal `1`.
pub open spec fn js_path_setup(o: OperationModel) -> Seq<char> {
    join_spec(
        o.path_params.map_values(
            |p: ParamModel| around(p, "  // Path parameter: "@, "\n  const "@, " = 1; // Replace with actual test value"@, true),
        ),
        "\n"@,
    )
}

/// The query-parameter object.
pub open spec fn js_query(o: OperationModel) -> Seq<char> {
    if o.query_params.len() > 0 {
        "  const params = {\n"@ + join_spec(
            o.query_params.map_values(|p: ParamModel| around(p, "    "@, ": \"test_value\""@, ""@, false)),
            ",\n"@,
        ) + "\n  };"@
    } else {
        "  const params = {};"@
    }
}

/// The request body: the fixed example payload where the operation has a
/// body parameter, else `null`.
pub open spec fn js_body(o: OperationModel) -> Seq<char> {
    if o.body_param is Some {
        "  const jsonData = {\n    name: \"Test User\",\n    email: \"test@example.com\"\n  };"@
    } else {
        "  const jsonData = null;"@
    }
}

/// The arguments after the URL: GET and DELETE send no body.
pub open spec fn js_request_args(o: OperationModel) -> Seq<char> {
    let m = lower_text(o.method);
    if m == "get"@ || m == "delete"@ {
        "{ params }"@
    } else {
        "jsonData, { params }"@
    }
}

/// The summary's text.
pub open spec fn js_summary(o: OperationModel) -> Seq<char> {
    match o.summary {
        Some(s) => s,
        None => ""@,
    }
}

/// The text that leads into a test's status assertion.
pub open spec fn jest_status_lead() -> Seq<char> {
    ");\n  \n  // Verify status code\n  expect(response.status).toBe("@
}

/// The test of one operation on `path` against `base`; path parameters are
/// interpolated into a template literal.
pub open spec fn jest_test_spec(o: OperationModel, path: Seq<char>, base: Seq<char>) -> Seq<char> {
    "test('"@ + o.operation_id + "', async () => {\n  // "@ + js_summary(o) + "\n"@ + js_path_setup(o)
        + "\n"@ + js_query(o) + "\n"@ + js_body(o) + "\n\n  const url = `"@ + base + substitute_spec(
        path,
        o.path_params,
        "${"@,
        "}"@,
    ) + "`;\n  \n  const response = await axios."@ + lower_text(o.method) + "(url, "@ + js_request_args(o)
        + jest_status_lead() + expected_status_spec(o)
        + ");\n  \n  // Verify the response body\n  // expect(response.data).toHaveProperty('id');\n});"@
}

/// The tests of a path's operations, each followed by a blank line.
pub open spec fn jest_ops_text(ops: Seq<OperationModel>, path: Seq<char>, base: Seq<char>) -> Seq<char>
    decreases ops.len(),
{
    if ops.len() == 0 {
        seq![]
    } else {
        jest_ops_text(ops.drop_last(), path, base) + jest_test_spec(ops.last(), path, base) + "\n\n"@
    }
}

/// The file name of a path's tests: leading `/` trimmed, `/` as `_`, braces
/// dropped, then `.test.js`.
pub open spec fn jest_file_name(path: Seq<char>) -> Seq<char> {
    id_chars(trim_start_of(path, '/')) + ".test.js"@
}

/// The test file of one path.
pub open spec fn jest_path_file(p: PathModel, base: Seq<char>) -> FileModel {
    FileModel {
        name: jest_file_name(p.path),
        contents: "const axios = require('axios');\n\n"@ + jest_ops_text(p.operations, p.path, base),
    }
}

/// The package manifest of the generated tests.
pub open spec fn jest_package() -> Seq<char> {
    "{\n  \"name\": \"api-tests\",\n  \"version\": \"1.0.0\",\n  \"description\": \"Generated API tests for the Swagger/OpenAPI specification\",\n  \"scripts\": {\n    \"test\": \"jest\"\n  },\n  \"dependencies\": {\n    \"axios\": \"^1.3.4\"\n  },\n  \"devDependencies\": {\n    \"jest\": \"^29.5.0\"\n  }\n}\n\n"@
}

/// How to install and run the generated tests.
pub open spec fn jest_readme() -> Seq<char> {
    "# API Tests\n\nGenerated API tests for the Swagger/OpenAPI specification.\n\n## Setup\n\nInstall the dependencies:\n\n```\nnpm install\n```\n\n## Running the tests\n\nTo run the tests:\n\n```\nnpm test\n```\n\n"@
}

/// The files of the Jest backend: one test file per path, then
/// `package.json` and `README.md`.
pub open spec fn jest_files(s: SpecModel, base: Seq<char>) -> Seq<FileModel> {
    s.paths.map_values(|p: PathModel| jest_path_file(p, base)) + seq![
        FileModel { name: "package.json"@, contents: jest_package() },
        FileModel { name: "README.md"@, contents: jest_readme() },
    ]
}

/// The Jest backend.
pub struct JestGenerator;

impl JestGenerator {
    pub fn new() -> (r: JestGenerator) {
        JestGenerator
    }

    /// The test of one operation on `path` against `base_url`.
    pub fn generate_operation_test(&self, operation: &ApiOperation, path: &str, base_url: &str) -> (r: String)
        ensures
            r@ == jest_test_spec(operation@, path@, base_url@),
    {
        let op = operation;
        let method = to_lower_text(op.method.as_str());
        let m = method.as_str();
        let summary: &str = match &op.summary {
            Some(s) => s.as_str(),
            None => "",
        };
        let setup = join_strings(
            &render_names(&op.path_params, "  // Path parameter: ", "\n  const ", " = 1; // Replace with actual test value", true),
            "\n",
        );
        let query = if op.query_params.len() > 0 {
            let mut q = "  const params = {\n".to_string();
            q.append(join_strings(&render_names(&op.query_params, "    ", ": \"test_value\"", "", false), ",\n").as_str());
            q.append("\n  };");
            q
        } else {
            "  const params = {};".to_string()
        };
        let body: &str = if op.body_param.is_some() {
            "  const jsonData = {\n    name: \"Test User\",\n    email: \"test@example.com\"\n  };"
        } else {
            "  const jsonData = null;"
        };
        let args: &str = if str_eq(m, "get") || str_eq(m, "delete") {
            "{ params }"
        } else {
            "jsonData, { params }"
        };
        let endpoint = substitute_params(path, &op.path_params, "${", "}");
        let status = expected_status(op);
        let mut out = "test('".to_string();
        out.append(op.operation_id.as_str());
        out.append("', async () => {\n  // ");
        out.append(summary);
        out.append("\n");
        out.append(setup.as_str());
        out.append("\n");
        out.append(query.as_str());
        out.append("\n");
        out.append(body);
        out.append("\n\n  const url = `");
        out.append(base_url);
        out.append(endpoint.as_str());
        out.append("`;\n  \n  const response = await axios.");
        out.append(m);
        out.append("(url, ");
        out.append(args);
        out.append(");\n  \n  // Verify status code\n  expect(response.status).toBe(");
        out.append(status.as_str());
        out.append(");\n  \n  // Verify the response body\n  // expect(response.data).toHaveProperty('id');\n});");
        out
    }

    /// The files of this backend: one `<path>.test.js` per path, then
    /// `package.json` and `README.md`.
    pub fn generate_tests(&self, spec: &SwaggerSpec, base_url: &str) -> (r: Vec<GeneratedFile>)
        ensures
            files_view(r@) == jest_files(spec@, base_url@),
    {
        let ghost paths = paths_view(spec.paths@);
        let mut files: Vec<GeneratedFile> = Vec::new();
        let mut i: usize = 0;
        while i < spec.paths.len()
            invariant
                i <= spec.paths.len(),
                paths == paths_view(spec.paths@),
                files_view(files@) == paths.take(i as int).map_values(|p: PathModel| jest_path_file(p, base_url@)),
            decreases spec.paths.len() - i,
        {
            let p = &spec.paths[i];
            let mut text = "const axios = require('axios');\n\n".to_string();
            let ghost before = text@;
            let mut j: usize = 0;
            let ghost ops = operations_view(p.operations@);
            while j < p.operations.len()
                invariant
                    j <= p.operations.len(),
                    ops == operations_view(p.operations@),
                    text@ == before + jest_ops_text(ops.take(j as int), p.path@, base_url@),
                decreases p.operations.len() - j,
            {
                assert(ops.take(j + 1).drop_last() =~= ops.take(j as int));
                let t = self.generate_operation_test(&p.operations[j], p.path.as_str(), base_url);
                text.append(t.as_str());
                text.append("\n\n");
                j = j + 1;
            }
            assert(ops.take(j as int) =~= ops);
            let stem = string_of(&id_map(&trim_start_chars(&chars_of(p.path.as_str()), '/')));
            let name = join(stem.as_str(), ".test.js");
            let f = file(name.as_str(), text);
            assert(f@ == jest_path_file(paths[i as int], base_url@));
            assert(files_view(files@.push(f)) =~= files_view(files@).push(f@));
            files.push(f);
            i = i + 1;
            assert(files_view(files@) =~= paths.take(i as int).map_values(|p: PathModel| jest_path_file(p, base_url@)));
        }
        assert(paths.take(i as int) =~= paths);
        let ghost before = files@;
        files.push(file("package.json", "{\n  \"name\": \"api-tests\",\n  \"version\": \"1.0.0\",\n  \"description\": \"Generated API tests for the Swagger/OpenAPI specification\",\n  \"scripts\": {\n    \"test\": \"jest\"\n  },\n  \"dependencies\": {\n    \"axios\": \"^1.3.4\"\n  },\n  \"devDependencies\": {\n    \"jest\": \"^29.5.0\"\n  }\n}\n\n".to_string()));
        files.push(file("README.md", "# API Tests\n\nGenerated API tests for the Swagger/OpenAPI specification.\n\n## Setup\n\nInstall the dependencies:\n\n```\nnpm install\n```\n\n## Running the tests\n\nTo run the tests:\n\n```\nnpm test\n```\n\n".to_string()));
        assert(files_view(files@) =~= files_view(before) + seq![
            FileModel { name: "package.json"@, contents: jest_package() },
            FileModel { name: "README.md"@, contents: jest_readme() },
        ]);
        files
    }
}

} // verus!
