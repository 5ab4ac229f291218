//! The collection-format backend: one Postman collection with a folder per
//! path and a request per operation.
use vstd::prelude::*;
use crate::generator::{file, files_view, FileModel, GeneratedFile};
use crate::ir::{operations_view, paths_view, ApiOperation, OperationModel, ParamModel, PathModel, SpecModel, SwaggerSpec};
use crate::rules::{
    around, expected_status, expected_status_spec, render_names, replace_spec, replace_text,
    substitute_params, substitute_spec, to_upper_text, upper_text,
};
use crate::text::{
    chars_of, find_chars, find_spec, join, join_spec, join_strings, lemma_find_in_bounds, string_of,
    sub_chars, texts, trim_start_chars, trim_start_of,
};

verus! {

/// Whether a character is a lower-case hexadecimal digit.
pub open spec fn is_lower_hex(c: char) -> bool {
    ('0' <= c && c <= '9') || ('a' <= c && c <= 'f')
}

/// Relies on `uuid::Uuid::new_v4` and its `Display`, which writes the
/// hyphenated lower-case form: 36 characters, dashes at 8, 13, 18 and 23,
/// hexadecimal digits elsewhere. The value is random.
#[verifier::external_body]
fn new_collection_id() -> (r: String)
    ensures
        r@.len() == 36,
        forall|i: int| 0 <= i < 36 ==> if i == 8 || i == 13 || i == 18 || i == 23 {
            #[trigger] r@[i] == '-'
        } else {
            is_lower_hex(r@[i])
        },
{
    uuid::Uuid::new_v4().to_string()
}

/// What one character of a path becomes in a folder name.
pub open spec fn folder_char(c: char) -> Seq<char> {
    if c == '/' {
        seq![' ']
    } else if c == '{' || c == '}' {
        seq![]
    } else {
        seq![c]
    }
}

/// Each character of `s` replaced as `folder_char` says.
pub open spec fn folder_chars(s: Seq<char>) -> Seq<char>
    decreases s.len(),
{
    if s.len() == 0 {
        seq![]
    } else {
        folder_chars(s.drop_last()) + folder_char(s.last())
    }
}

/// What one character of a path becomes in the quoted segment list.
pub open spec fn segment_char(c: char) -> Seq<char> {
    if c == '/' {
        "\",\n                \""@
    } else if c == '{' {
        seq![':']
    } else if c == '}' {
        seq![]
    } else {
        seq![c]
    }
}

/// Each character of `s` replaced as `segment_char` says.
pub open spec fn segment_chars(s: Seq<char>) -> Seq<char>
    decreases s.len(),
{
    if s.len() == 0 {
        seq![]
    } else {
        segment_chars(s.drop_last()) + segment_char(s.last())
    }
}

/// The folder name of a path: leading `/` trimmed, `/` as a space, braces
/// dropped.
pub open spec fn folder_name(path: Seq<char>) -> Seq<char> {
    folder_chars(trim_start_of(path, '/'))
}

/// The quoted segments of a path, one per line, with `{name}` as `:name`.
pub open spec fn path_segments(path: Seq<char>) -> Seq<char> {
    "                \""@ + segment_chars(trim_start_of(path, '/')) + "\""@
}

/// The host of a base URL: its scheme removed, up to the first `/`.
pub open spec fn host_of(base: Seq<char>) -> Seq<char> {
    let s = replace_spec(replace_spec(base, "http://"@, ""@), "https://"@, ""@);
    match find_spec(s, "/"@) {
        Some(k) => s.take(k),
        None => s,
    }
}

/// The query block of a request, where there are query parameters.
pub open spec fn pm_query(o: OperationModel) -> Seq<char> {
    if o.query_params.len() > 0 {
        "          \"query\": [\n"@ + join_spec(
            o.query_params.map_values(
                |p: ParamModel|
                    around(
                        p,
                        "            {\n              \"key\": \""@,
                        "\",\n              \"value\": \"test_value\",\n              \"description\": \""@,
                        "\"\n            }"@,
                        true,
                    ),
            ),
            ",\n"@,
        ) + "\n          ],"@
    } else {
        ""@
    }
}

/// The raw body of a request: the fixed example payload where the operation
/// has a body parameter.
pub open spec fn pm_body(o: OperationModel) -> Seq<char> {
    if o.body_param is Some {
        "          \"body\": {\n            \"mode\": \"raw\",\n            \"raw\": \"{\\n  \\\"name\\\": \\\"Test User\\\",\\n  \\\"email\\\": \\\"test@example.com\\\"\\n}\",\n            \"options\": {\n              \"raw\": {\n                \"language\": \"json\"\n              }\n            }\n          },"@
    } else {
        ""@
    }
}

/// The status assertion attached to a request.
pub open spec fn pm_tests(status: Seq<char>) -> Seq<char> {
    "          \"event\": [\n            {\n              \"listen\": \"test\",\n              \"script\": {\n                \"exec\": [\n                  \"pm.test(\\\"Status code is "@
        + status + "\\\", function () {\",\n                  \"    pm.response.to.have.status("@ + status
        + ");\",\n                  \"})\"\n                ],\n                \"type\": \"text/javascript\"\n              }\n            }\n          ],"@
}

/// The summary of a request, else its operation id.
pub open spec fn pm_summary(o: OperationModel) -> Seq<char> {
    match o.summary {
        Some(s) => s,
        None => o.operation_id,
    }
}

/// The description of a request, else nothing.
pub open spec fn pm_description(o: OperationModel) -> Seq<char> {
    match o.description {
        Some(s) => s,
        None => ""@,
    }
}

/// The request of one operation on `path` against `base`; path parameters
/// become `:name` route tokens.
pub open spec fn postman_request(o: OperationModel, path: Seq<char>, base: Seq<char>) -> Seq<char> {
    let m = upper_text(o.method);
    "        {\n          \"name\": \""@ + m + " "@ + pm_summary(o) + "\",\n          \"request\": {\n            \"method\": \""@
        + m + "\",\n            \"header\": [],\n"@ + pm_query(o) + "\n"@ + pm_body(o)
        + "\n            \"url\": {\n              \"raw\": \""@ + substitute_spec(base + path, o.path_params, ":"@, ""@)
        + "\",\n              \"host\": [\n                \""@ + host_of(base)
        + "\"\n              ],\n              \"path\": ["@ + path_segments(path)
        + "\n              ]\n            },\n            \"description\": \""@ + pm_description(o)
        + "\"\n          },\n"@ + pm_tests(expected_status_spec(o)) + "\n          \"response\": []\n        }\n"@
}

/// The folder of one path.
pub open spec fn postman_folder(p: PathModel, base: Seq<char>) -> Seq<char> {
    "    {\n      \"name\": \""@ + folder_name(p.path) + "\",\n      \"item\": [\n"@ + join_spec(
        p.operations.map_values(|o: OperationModel| postman_request(o, p.path, base)),
        ",\n"@,
    ) + "\n      ]\n    }\n"@
}

/// The whole collection, identified by `id`.
pub open spec fn postman_collection_spec(s: SpecModel, base: Seq<char>, id: Seq<char>) -> Seq<char> {
    "{\n  \"info\": {\n    \"_postman_id\": \""@ + id
        + "\",\n    \"name\": \"API Tests\",\n    \"description\": \"Generated API tests for the Swagger/OpenAPI specification\",\n    \"schema\": \"https://schema.getpostman.com/json/collection/v2.1.0/collection.json\"\n  },\n  \"item\": [\n"@
        + join_spec(s.paths.map_values(|p: PathModel| postman_folder(p, base)), ",\n"@)
        + "\n  ],\n  \"event\": []\n}\n"@
}

/// How to import and run the collection.
pub open spec fn postman_readme() -> Seq<char> {
    "# Postman API Tests\n\nGenerated Postman collection for testing the Swagger/OpenAPI specification.\n\n## Setup\n\n1. Import the `postman_collection.json` file into Postman\n2. Create an environment and set the base URL if needed\n\n## Running the tests\n\nRun the collection in Postman and review the test results.\n\n"@
}

/// The files of the Postman backend for a collection identified by `id`.
pub open spec fn postman_files(s: SpecModel, base: Seq<char>, id: Seq<char>) -> Seq<FileModel> {
    seq![
        FileModel { name: "postman_collection.json"@, contents: postman_collection_spec(s, base, id) },
        FileModel { name: "README.md"@, contents: postman_readme() },
    ]
}

/// The folder name of a path.
pub fn folder_name_of(path: &str) -> (r: String)
    ensures
        r@ == folder_name(path@),
{
    let cs = trim_start_chars(&chars_of(path), '/');
    let mut out: Vec<char> = Vec::new();
    let mut i: usize = 0;
    while i < cs.len()
        invariant
            i <= cs.len(),
            out@ == folder_chars(cs@.take(i as int)),
        decreases cs.len() - i,
    {
        let c = cs[i];
        assert(cs@.take(i + 1).drop_last() =~= cs@.take(i as int));
        if c == '/' {
            out.push(' ');
        } else if c == '{' || c == '}' {
        } else {
            out.push(c);
        }
        i = i + 1;
        assert(out@ =~= folder_chars(cs@.take(i as int)));
    }
    assert(cs@.take(i as int) =~= cs@);
    string_of(&out)
}

/// The quoted segments of a path.
pub fn path_segments_of(path: &str) -> (r: String)
    ensures
        r@ == path_segments(path@),
{
    let cs = trim_start_chars(&chars_of(path), '/');
    let mut out = "                \"".to_string();
    let ghost head = out@;
    let mut i: usize = 0;
    while i < cs.len()
        invariant
            i <= cs.len(),
            out@ == head + segment_chars(cs@.take(i as int)),
        decreases cs.len() - i,
    {
        let c = cs[i];
        assert(cs@.take(i + 1).drop_last() =~= cs@.take(i as int));
        let ghost before = out@;
        if c == '/' {
            out.append("\",\n                \"");
        } else if c == '{' {
            crate::text::push_char(&mut out, ':');
        } else if c == '}' {
        } else {
            crate::text::push_char(&mut out, c);
        }
        i = i + 1;
        assert(out@ =~= head + segment_chars(cs@.take(i as int)));
    }
    assert(cs@.take(i as int) =~= cs@);
    out.append("\"");
    out
}

/// The host of a base URL.
pub fn host_of_base(base: &str) -> (r: String)
    ensures
        r@ == host_of(base@),
{
    proof {
        reveal_strlit("http://");
        reveal_strlit("https://");
    }
    let s = replace_text(replace_text(base, "http://", "").as_str(), "https://", "");
    let cs = chars_of(s.as_str());
    let slash = chars_of("/");
    match find_chars(&cs, &slash) {
        Some(k) => {
            proof {
                lemma_find_in_bounds(cs@, slash@);
            }
            let x = sub_chars(&cs, 0, k);
            assert(x@ =~= cs@.take(k as int));
            string_of(&x)
        },
        None => s,
    }
}

/// The request of one operation on `path` against `base_url`.
pub fn postman_request_of(operation: &ApiOperation, path: &str, base_url: &str) -> (r: String)
    ensures
        r@ == postman_request(operation@, path@, base_url@),
{
    let op = operation;
    let m = to_upper_text(op.method.as_str());
    let summary: &str = match &op.summary {
        Some(s) => s.as_str(),
        None => op.operation_id.as_str(),
    };
    let query = if op.query_params.len() > 0 {
        let mut q = "          \"query\": [\n".to_string();
        q.append(join_strings(
            &render_names(
                &op.query_params,
                "            {\n              \"key\": \"",
                "\",\n              \"value\": \"test_value\",\n              \"description\": \"",
                "\"\n            }",
                true,
            ),
            ",\n",
        ).as_str());
        q.append("\n          ],");
        q
    } else {
        "".to_string()
    };
    let body: &str = if op.body_param.is_some() {
        "          \"body\": {\n            \"mode\": \"raw\",\n            \"raw\": \"{\\n  \\\"name\\\": \\\"Test User\\\",\\n  \\\"email\\\": \\\"test@example.com\\\"\\n}\",\n            \"options\": {\n              \"raw\": {\n                \"language\": \"json\"\n              }\n            }\n          },"
    } else {
        ""
    };
    let url = substitute_params(join(base_url, path).as_str(), &op.path_params, ":", "");
    let host = host_of_base(base_url);
    let segments = path_segments_of(path);
    let description: &str = match &op.description {
        Some(d) => d.as_str(),
        None => "",
    };
    let status = expected_status(op);
    let mut out = "        {\n          \"name\": \"".to_string();
    out.append(m.as_str());
    out.append(" ");
    out.append(summary);
    out.append("\",\n          \"request\": {\n            \"method\": \"");
    out.append(m.as_str());
    out.append("\",\n            \"header\": [],\n");
    out.append(query.as_str());
    out.append("\n");
    out.append(body);
    out.append("\n            \"url\": {\n              \"raw\": \"");
    out.append(url.as_str());
    out.append("\",\n              \"host\": [\n                \"");
    out.append(host.as_str());
    out.append("\"\n              ],\n              \"path\": [");
    out.append(segments.as_str());
    out.append("\n              ]\n            },\n            \"description\": \"");
    out.append(description);
    out.append("\"\n          },\n");
    out.append("          \"event\": [\n            {\n              \"listen\": \"test\",\n              \"script\": {\n                \"exec\": [\n                  \"pm.test(\\\"Status code is ");
    out.append(status.as_str());
    out.append("\\\", function () {\",\n                  \"    pm.response.to.have.status(");
    out.append(status.as_str());
    out.append(");\",\n                  \"})\"\n                ],\n                \"type\": \"text/javascript\"\n              }\n            }\n          ],");
    out.append("\n          \"response\": []\n        }\n");
    out
}

/// The folder of one path.
pub fn postman_folder_of(p: &crate::ir::ApiPath, base_url: &str) -> (r: String)
    ensures
        r@ == postman_folder(p@, base_url@),
{
    let ghost ops = operations_view(p.operations@);
    let mut items: Vec<String> = Vec::new();
    let mut j: usize = 0;
    while j < p.operations.len()
        invariant
            j <= p.operations.len(),
            ops == operations_view(p.operations@),
            texts(items@) == ops.take(j as int).map_values(|o: OperationModel| postman_request(o, p.path@, base_url@)),
        decreases p.operations.len() - j,
    {
        let req = postman_request_of(&p.operations[j], p.path.as_str(), base_url);
        assert(texts(items@.push(req)) =~= texts(items@).push(req@));
        items.push(req);
        j = j + 1;
        assert(texts(items@) =~= ops.take(j as int).map_values(|o: OperationModel| postman_request(o, p.path@, base_url@)));
    }
    assert(ops.take(j as int) =~= ops);
    let mut out = "    {\n      \"name\": \"".to_string();
    out.append(folder_name_of(p.path.as_str()).as_str());
    out.append("\",\n      \"item\": [\n");
    out.append(join_strings(&items, ",\n").as_str());
    out.append("\n      ]\n    }\n");
    out
}

/// The whole collection, identified by `collection_id`.
pub fn postman_collection(spec: &SwaggerSpec, base_url: &str, collection_id: &str) -> (r: String)
    ensures
        r@ == postman_collection_spec(spec@, base_url@, collection_id@),
{
    let ghost paths = paths_view(spec.paths@);
    let mut folders: Vec<String> = Vec::new();
    let mut i: usize = 0;
    while i < spec.paths.len()
        invariant
            i <= spec.paths.len(),
            paths == paths_view(spec.paths@),
            texts(folders@) == paths.take(i as int).map_values(|p: PathModel| postman_folder(p, base_url@)),
        decreases spec.paths.len() - i,
    {
        let f = postman_folder_of(&spec.paths[i], base_url);
        assert(texts(folders@.push(f)) =~= texts(folders@).push(f@));
        folders.push(f);
        i = i + 1;
        assert(texts(folders@) =~= paths.take(i as int).map_values(|p: PathModel| postman_folder(p, base_url@)));
    }
    assert(paths.take(i as int) =~= paths);
    let mut out = "{\n  \"info\": {\n    \"_postman_id\": \"".to_string();
    out.append(collection_id);
    out.append("\",\n    \"name\": \"API Tests\",\n    \"description\": \"Generated API tests for the Swagger/OpenAPI specification\",\n    \"schema\": \"https://schema.getpostman.com/json/collection/v2.1.0/collection.json\"\n  },\n  \"item\": [\n");
    out.append(join_strings(&folders, ",\n").as_str());
    out.append("\n  ],\n  \"event\": []\n}\n");
    out
}

/// The Postman backend.
pub struct PostmanGenerator;

impl PostmanGenerator {
    pub fn new() -> (r: PostmanGenerator) {
        PostmanGenerator
    }

    /// The files of this backend for a collection identified by
    /// `collection_id`: `postman_collection.json` and `README.md`.
    pub fn generate_files_with_id(&self, spec: &SwaggerSpec, base_url: &str, collection_id: &str) -> (r: Vec<GeneratedFile>)
        ensures
            files_view(r@) == postman_files(spec@, base_url@, collection_id@),
    {
        let mut files: Vec<GeneratedFile> = Vec::new();
        files.push(file("postman_collection.json", postman_collection(spec, base_url, collection_id)));
        files.push(file("README.md", "# Postman API Tests\n\nGenerated Postman collection for testing the Swagger/OpenAPI specification.\n\n## Setup\n\n1. Import the `postman_collection.json` file into Postman\n2. Create an environment and set the base URL if needed\n\n## Running the tests\n\nRun the collection in Postman and review the test results.\n\n".to_string()));
        assert(files_view(files@) =~= postman_files(spec@, base_url@, collection_id@));
        files
    }

    /// The files of this backend under a freshly drawn random collection id.
    pub fn generate_tests(&self, spec: &SwaggerSpec, base_url: &str) -> (r: Vec<GeneratedFile>)
        ensures
            exists|id: Seq<char>| id.len() == 36 && #[trigger] postman_files(spec@, base_url@, id) == files_view(r@),
    {
        let id = new_collection_id();
        let r = self.generate_files_with_id(spec, base_url, id.as_str());
        assert(postman_files(spec@, base_url@, id@) == files_view(r@));
        r
    }
}

} // verus!
