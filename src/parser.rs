//! Reading an OpenAPI 2.0 or 3.x document into the normalized model.
use vstd::prelude::*;
use crate::ir::{
    opt_json_view, opt_param_view, opt_view, params_view, responses_view, operations_view, paths_view,
    ApiOperation, ApiParameter, ApiPath, ApiResponse, OperationModel, ParamModel, PathModel,
    ResponseModel, SpecModel, SwaggerSpec,
};
use crate::json::{
    array_spec, bool_spec, clone_json, decode_json, get_opt, get_spec, json_decode, object_spec,
    str_eq, str_spec, Json,
};
use crate::text::{chars_of, join, string_of, trim_start_chars, trim_start_of};

verus! {

/// Why a document could not be read.
#[derive(Debug)]
pub enum ParserError {
    /// The document could not be read from its source.
    IoError(String),
    /// The text is not JSON.
    JsonError(serde_json::Error),
    /// Neither `swagger: "2.0"` nor an `openapi` version starting with `3.` is declared.
    UnsupportedVersion,
    /// A required top-level member is missing.
    InvalidSpec(String),
}

/// The seven HTTP methods that can carry an operation.
pub open spec fn is_verb(m: Seq<char>) -> bool {
    m == "get"@ || m == "post"@ || m == "put"@ || m == "delete"@ || m == "patch"@
        || m == "options"@ || m == "head"@
}

/// The upper-case spelling of a method key.
pub open spec fn verb_upper(m: Seq<char>) -> Seq<char> {
    if m == "get"@ {
        "GET"@
    } else if m == "post"@ {
        "POST"@
    } else if m == "put"@ {
        "PUT"@
    } else if m == "delete"@ {
        "DELETE"@
    } else if m == "patch"@ {
        "PATCH"@
    } else if m == "options"@ {
        "OPTIONS"@
    } else {
        "HEAD"@
    }
}

/// What one character of a path becomes in a synthesized operation id.
pub open spec fn id_char(c: char) -> Seq<char> {
    if c == '/' {
        seq!['_']
    } else if c == '{' || c == '}' {
        seq![]
    } else {
        seq![c]
    }
}

/// A path with each character replaced as `id_char` says.
pub open spec fn id_chars(s: Seq<char>) -> Seq<char>
    decreases s.len(),
{
    if s.len() == 0 {
        seq![]
    } else {
        id_chars(s.drop_last()) + id_char(s.last())
    }
}

/// A path as it stands in a synthesized operation id: `/` becomes `_`,
/// braces go, and leading underscores are trimmed.
pub open spec fn sanitize_path_spec(path: Seq<char>) -> Seq<char> {
    trim_start_of(id_chars(path), '_')
}

/// The identifier of an operation that declares none: the method key, `_`,
/// and the sanitized path.
pub open spec fn synthesized_id(method: Seq<char>, path: Seq<char>) -> Seq<char> {
    method + "_"@ + sanitize_path_spec(path)
}

/// A string member, or `dflt` where there is none.
pub open spec fn str_or(j: Option<Json>, dflt: Seq<char>) -> Seq<char> {
    match str_spec(j) {
        Some(s) => s,
        None => dflt,
    }
}

/// The scalar type of a parameter. In 2.0 documents: its `type`, else its
/// schema's `type`, else `object`. In 3.x documents: its schema's `type`, else
/// `object` where it has a schema, else `string`.
pub open spec fn param_type_of(p: Json, v3: bool) -> Seq<char> {
    let schema = get_spec(p, "schema"@);
    if v3 {
        if schema is Some {
            str_or(get_opt(schema, "type"@), "object"@)
        } else {
            "string"@
        }
    } else {
        match str_spec(get_spec(p, "type"@)) {
            Some(t) => t,
            None => str_or(get_opt(schema, "type"@), "object"@),
        }
    }
}

/// The model of a declared parameter.
pub open spec fn param_model(p: Json, v3: bool) -> ParamModel {
    ParamModel {
        name: str_or(get_spec(p, "name"@), ""@),
        location: str_or(get_spec(p, "in"@), ""@),
        required: match bool_spec(get_spec(p, "required"@)) {
            Some(b) => b,
            None => false,
        },
        param_type: param_type_of(p, v3),
        schema: opt_json_view(get_spec(p, "schema"@)),
    }
}

/// The models of the object parameters among `ps` whose location is `loc`,
/// in order.
pub open spec fn params_at(ps: Seq<Json>, loc: Seq<char>, v3: bool) -> Seq<ParamModel>
    decreases ps.len(),
{
    if ps.len() == 0 {
        seq![]
    } else {
        let prev = params_at(ps.drop_last(), loc, v3);
        let p = ps.last();
        if p is Object && param_model(p, v3).location == loc {
            prev.push(param_model(p, v3))
        } else {
            prev
        }
    }
}

/// The last object parameter among `ps` whose location is `body`.
pub open spec fn body_of(ps: Seq<Json>, v3: bool) -> Option<ParamModel>
    decreases ps.len(),
{
    if ps.len() == 0 {
        None
    } else {
        let p = ps.last();
        if p is Object && param_model(p, v3).location == "body"@ {
            Some(param_model(p, v3))
        } else {
            body_of(ps.drop_last(), v3)
        }
    }
}

/// The declared parameters of an operation.
pub open spec fn declared_params(op: Json) -> Seq<Json> {
    match array_spec(get_spec(op, "parameters"@)) {
        Some(a) => a,
        None => seq![],
    }
}

/// A string member, as an optional string.
pub fn member_str(j: &Json, key: &str) -> (r: Option<String>)
    ensures
        opt_view(r) == str_spec(get_spec(*j, key@)),
{
    match j.get(key) {
        Some(v) => match v.as_str() {
            Some(s) => Some(s.clone()),
            None => None,
        },
        None => None,
    }
}

/// A string member, or `dflt` where there is none.
pub fn member_str_or(j: &Json, key: &str, dflt: &str) -> (r: String)
    ensures
        r@ == str_or(get_spec(*j, key@), dflt@),
{
    match member_str(j, key) {
        Some(s) => s,
        None => dflt.to_string(),
    }
}

/// Reads one declared parameter.
pub fn parse_parameter(p: &Json, v3: bool) -> (r: ApiParameter)
    ensures
        r@ == param_model(*p, v3),
{
    let name = member_str_or(p, "name", "");
    let location = member_str_or(p, "in", "");
    let required = match p.get("required") {
        Some(b) => match b.as_bool() {
            Some(x) => x,
            None => false,
        },
        None => false,
    };
    let schema_ref = p.get("schema");
    let param_type = if v3 {
        match schema_ref {
            Some(s) => member_str_or(s, "type", "object"),
            None => "string".to_string(),
        }
    } else {
        match member_str(p, "type") {
            Some(t) => t,
            None => match schema_ref {
                Some(s) => member_str_or(s, "type", "object"),
                None => "object".to_string(),
            },
        }
    };
    let schema = match schema_ref {
        Some(s) => Some(clone_json(s)),
        None => None,
    };
    ApiParameter { name, location, required, param_type, schema }
}

/// The model of a declared response.
pub open spec fn response_model(code: Seq<char>, r: Json, v3: bool) -> ResponseModel {
    ResponseModel {
        status_code: code,
        description: str_spec(get_spec(r, "description"@)),
        schema: if v3 {
            opt_json_view(get_opt(get_opt(get_spec(r, "content"@), "application/json"@), "schema"@))
        } else {
            opt_json_view(get_spec(r, "schema"@))
        },
    }
}

/// The models of the object members of a `responses` object, in order.
pub open spec fn responses_of(es: Seq<(String, Json)>, v3: bool) -> Seq<ResponseModel>
    decreases es.len(),
{
    if es.len() == 0 {
        seq![]
    } else {
        let prev = responses_of(es.drop_last(), v3);
        let e = es.last();
        if e.1 is Object {
            prev.push(response_model(e.0@, e.1, v3))
        } else {
            prev
        }
    }
}

/// The responses an operation declares.
pub open spec fn declared_responses(op: Json) -> Seq<(String, Json)> {
    match object_spec(get_spec(op, "responses"@)) {
        Some(m) => m,
        None => seq![],
    }
}

/// The body parameter that a 3.x `requestBody` stands for: present where it
/// has `content` with an `application/json` entry.
pub open spec fn request_body_of(op: Json) -> Option<ParamModel> {
    let body = get_spec(op, "requestBody"@);
    let json = get_opt(get_opt(body, "content"@), "application/json"@);
    if json is Some {
        Some(
            ParamModel {
                name: "body"@,
                location: "body"@,
                required: match bool_spec(get_opt(body, "required"@)) {
                    Some(b) => b,
                    None => false,
                },
                param_type: "object"@,
                schema: opt_json_view(get_opt(json, "schema"@)),
            },
        )
    } else {
        None
    }
}

/// The three parameter locations are distinct texts.
proof fn lemma_locations_distinct()
    ensures
        "path"@ != "query"@,
        "path"@ != "body"@,
        "query"@ != "body"@,
{
    reveal_strlit("path");
    reveal_strlit("query");
    reveal_strlit("body");
    assert("path"@[0] == 'p');
    assert("query"@[0] == 'q');
    assert("body"@[0] == 'b');
}

/// The parameters of one location, and the body parameter of a 2.0 document.
pub struct ClassifiedParams {
    pub path_params: Vec<ApiParameter>,
    pub query_params: Vec<ApiParameter>,
    pub body_param: Option<ApiParameter>,
}

/// Sorts declared parameters into path, query and (2.0 only) body.
pub fn classify_params(ps: &Vec<Json>, v3: bool) -> (r: ClassifiedParams)
    ensures
        params_view(r.path_params@) == params_at(ps@, "path"@, v3),
        params_view(r.query_params@) == params_at(ps@, "query"@, v3),
        opt_param_view(r.body_param) == if v3 {
            None
        } else {
            body_of(ps@, v3)
        },
{
    let mut path_params: Vec<ApiParameter> = Vec::new();
    let mut query_params: Vec<ApiParameter> = Vec::new();
    let mut body_param: Option<ApiParameter> = None;
    let mut i: usize = 0;
    while i < ps.len()
        invariant
            i <= ps.len(),
            params_view(path_params@) == params_at(ps@.take(i as int), "path"@, v3),
            params_view(query_params@) == params_at(ps@.take(i as int), "query"@, v3),
            opt_param_view(body_param) == if v3 {
                None
            } else {
                body_of(ps@.take(i as int), v3)
            },
        decreases ps.len() - i,
    {
        assert(ps@.take(i + 1).drop_last() =~= ps@.take(i as int));
        proof {
            lemma_locations_distinct();
        }
        let p = &ps[i];
        if let Json::Object(_) = p {
            let param = parse_parameter(p, v3);
            if str_eq(param.location.as_str(), "path") {
                assert(params_view(path_params@.push(param)) =~= params_view(path_params@).push(
                    param@,
                ));
                path_params.push(param);

            } else if str_eq(param.location.as_str(), "query") {
                assert(params_view(query_params@.push(param)) =~= params_view(
                    query_params@,
                ).push(param@));
                query_params.push(param);

            } else if !v3 && str_eq(param.location.as_str(), "body") {
                body_param = Some(param);
            }
        }
        i = i + 1;
    }
    assert(ps@.take(i as int) =~= ps@);
    ClassifiedParams { path_params, query_params, body_param }
}

/// Reads the `responses` object of an operation.
pub fn parse_responses(op: &Json, v3: bool) -> (r: Vec<ApiResponse>)
    ensures
        responses_view(r@) == responses_of(declared_responses(*op), v3),
{
    let mut out: Vec<ApiResponse> = Vec::new();
    let members = match op.get("responses") {
        Some(rs) => rs.as_object(),
        None => None,
    };
    match members {
        Some(es) => {
            let mut i: usize = 0;
            while i < es.len()
                invariant
                    i <= es.len(),
                    es@ == declared_responses(*op),
                    responses_view(out@) == responses_of(es@.take(i as int), v3),
                decreases es.len() - i,
            {
                assert(es@.take(i + 1).drop_last() =~= es@.take(i as int));
                let e = &es[i];
                if let Json::Object(_) = &e.1 {
                    let description = member_str(&e.1, "description");
                    let schema_ref = if v3 {
                        match e.1.get("content") {
                            Some(c) => match c.get("application/json") {
                                Some(j) => j.get("schema"),
                                None => None,
                            },
                            None => None,
                        }
                    } else {
                        e.1.get("schema")
                    };
                    let schema = match schema_ref {
                        Some(s) => Some(clone_json(s)),
                        None => None,
                    };
                    let resp = ApiResponse { status_code: e.0.clone(), description, schema };
                    assert(responses_view(out@.push(resp)) =~= responses_view(out@).push(resp@));
                    out.push(resp);
                }
                i = i + 1;
            }
            assert(es@.take(i as int) =~= es@);
        },
        None => {
            assert(responses_view(out@) =~= seq![]);
        },
    }
    out
}

/// Reads the `requestBody` of a 3.x operation.
pub fn parse_request_body(op: &Json) -> (r: Option<ApiParameter>)
    ensures
        opt_param_view(r) == request_body_of(*op),
{
    let body = match op.get("requestBody") {
        Some(b) => b,
        None => return None,
    };
    let json = match body.get("content") {
        Some(c) => match c.get("application/json") {
            Some(j) => j,
            None => return None,
        },
        None => return None,
    };
    let required = match body.get("required") {
        Some(b) => match b.as_bool() {
            Some(x) => x,
            None => false,
        },
        None => false,
    };
    let schema = match json.get("schema") {
        Some(s) => Some(clone_json(s)),
        None => None,
    };
    Some(
        ApiParameter {
            name: "body".to_string(),
            location: "body".to_string(),
            required,
            param_type: "object".to_string(),
            schema,
        },
    )
}

/// The model of the operation declared under method key `method` on `path`.
pub open spec fn operation_model(method: Seq<char>, op: Json, path: Seq<char>, v3: bool) -> OperationModel {
    OperationModel {
        method: verb_upper(method),
        operation_id: str_or(get_spec(op, "operationId"@), synthesized_id(method, path)),
        summary: str_spec(get_spec(op, "summary"@)),
        description: str_spec(get_spec(op, "description"@)),
        path_params: params_at(declared_params(op), "path"@, v3),
        query_params: params_at(declared_params(op), "query"@, v3),
        body_param: if v3 {
            request_body_of(op)
        } else {
            body_of(declared_params(op), v3)
        },
        responses: responses_of(declared_responses(op), v3),
    }
}

/// The operations of a path item: one for each member whose key is an HTTP
/// method and whose value is an object, in order; other members are skipped.
pub open spec fn operations_of(es: Seq<(String, Json)>, path: Seq<char>, v3: bool) -> Seq<OperationModel>
    decreases es.len(),
{
    if es.len() == 0 {
        seq![]
    } else {
        let prev = operations_of(es.drop_last(), path, v3);
        let e = es.last();
        if is_verb(e.0@) && e.1 is Object {
            prev.push(operation_model(e.0@, e.1, path, v3))
        } else {
            prev
        }
    }
}

/// The operations of the path item `item` on `path`.
pub open spec fn path_item_ops(item: Json, path: Seq<char>, v3: bool) -> Seq<OperationModel> {
    match object_spec(Some(item)) {
        Some(es) => operations_of(es, path, v3),
        None => seq![],
    }
}

/// The paths of a `paths` object that carry at least one operation, in order.
pub open spec fn paths_of(es: Seq<(String, Json)>, v3: bool) -> Seq<PathModel>
    decreases es.len(),
{
    if es.len() == 0 {
        seq![]
    } else {
        let prev = paths_of(es.drop_last(), v3);
        let e = es.last();
        let ops = path_item_ops(e.1, e.0@, v3);
        if ops.len() > 0 {
            prev.push(PathModel { path: e.0@, operations: ops })
        } else {
            prev
        }
    }
}

/// The first element of an array.
pub open spec fn first_of(a: Option<Seq<Json>>) -> Option<Json> {
    match a {
        Some(s) => if s.len() > 0 {
            Some(s[0])
        } else {
            None
        },
        None => None,
    }
}

/// The base URL of a 2.0 document: `{scheme}://{host}{basePath}`, with the
/// first of `schemes` defaulting to `http`, `host` to `localhost` and
/// `basePath` to nothing.
pub open spec fn v2_base_url(doc: Json) -> Seq<char> {
    str_or(first_of(array_spec(get_spec(doc, "schemes"@))), "http"@) + "://"@ + str_or(
        get_spec(doc, "host"@),
        "localhost"@,
    ) + str_or(get_spec(doc, "basePath"@), ""@)
}

/// The base URL of a 3.x document: the `url` of the first server, else
/// `http://localhost`.
pub open spec fn v3_base_url(doc: Json) -> Seq<char> {
    str_or(get_opt(first_of(array_spec(get_spec(doc, "servers"@))), "url"@), "http://localhost"@)
}

/// Whether a version text starts with `3.`.
pub open spec fn is_v3_version(v: Seq<char>) -> bool {
    v.len() >= 2 && v[0] == '3' && v[1] == '.'
}

/// The schema family of a document: `Some(false)` for `swagger: "2.0"`,
/// `Some(true)` for an `openapi` version starting with `3.`, else `None`.
pub open spec fn version_of(doc: Json) -> Option<bool> {
    if str_spec(get_spec(doc, "swagger"@)) == Some("2.0"@) {
        Some(false)
    } else {
        match str_spec(get_spec(doc, "openapi"@)) {
            Some(v) => if is_v3_version(v) {
                Some(true)
            } else {
                None
            },
            None => None,
        }
    }
}

/// The normalized model of a document of the given family that has `paths`.
pub open spec fn spec_model(doc: Json, v3: bool) -> SpecModel {
    SpecModel {
        base_url: if v3 {
            v3_base_url(doc)
        } else {
            v2_base_url(doc)
        },
        paths: match object_spec(get_spec(doc, "paths"@)) {
            Some(es) => paths_of(es, v3),
            None => seq![],
        },
    }
}

/// The upper-case spelling of one of the seven method keys.
pub(crate) fn upper_verb(m: &str) -> (r: String)
    requires
        is_verb(m@),
    ensures
        r@ == verb_upper(m@),
{
    if str_eq(m, "get") {
        "GET".to_string()
    } else if str_eq(m, "post") {
        "POST".to_string()
    } else if str_eq(m, "put") {
        "PUT".to_string()
    } else if str_eq(m, "delete") {
        "DELETE".to_string()
    } else if str_eq(m, "patch") {
        "PATCH".to_string()
    } else if str_eq(m, "options") {
        "OPTIONS".to_string()
    } else {
        "HEAD".to_string()
    }
}

/// Whether a member key is one of the seven HTTP methods.
pub fn is_http_method(m: &str) -> (r: bool)
    ensures
        r == is_verb(m@),
{
    str_eq(m, "get") || str_eq(m, "post") || str_eq(m, "put") || str_eq(m, "delete") || str_eq(
        m,
        "patch",
    ) || str_eq(m, "options") || str_eq(m, "head")
}

/// Replaces each character of a path as `id_char` says.
pub fn id_map(cs: &Vec<char>) -> (r: Vec<char>)
    ensures
        r@ == id_chars(cs@),
{
    let mut out: Vec<char> = Vec::new();
    let mut i: usize = 0;
    while i < cs.len()
        invariant
            i <= cs.len(),
            out@ == id_chars(cs@.take(i as int)),
        decreases cs.len() - i,
    {
        let c = cs[i];
        assert(cs@.take(i + 1).drop_last() =~= cs@.take(i as int));
        if c == '/' {
            out.push('_');
        } else if c == '{' || c == '}' {
        } else {
            out.push(c);
        }
        i = i + 1;
        assert(out@ =~= id_chars(cs@.take(i as int)));
    }
    assert(cs@.take(i as int) =~= cs@);
    out
}

/// Sanitizes a path for use in an operation id.
pub fn sanitize_path(path: &str) -> (r: String)
    ensures
        r@ == sanitize_path_spec(path@),
{
    string_of(&trim_start_chars(&id_map(&chars_of(path)), '_'))
}

/// The identifier of an operation that declares none.
pub fn synthesize_operation_id(method: &str, path: &str) -> (r: String)
    ensures
        r@ == synthesized_id(method@, path@),
{
    let mut cs = chars_of(method);
    cs.push('_');
    let tail = chars_of(sanitize_path(path).as_str());
    let mut i: usize = 0;
    let ghost head = cs@;
    while i < tail.len()
        invariant
            i <= tail.len(),
            cs@ == head + tail@.take(i as int),
        decreases tail.len() - i,
    {
        cs.push(tail[i]);
        i = i + 1;
        assert(cs@ =~= head + tail@.take(i as int));
    }
    proof {
        reveal_strlit("_");
    }
    assert(tail@.take(i as int) =~= tail@);
    assert(cs@ =~= method@ + "_"@ + sanitize_path_spec(path@));
    string_of(&cs)
}

/// Reads the operation declared under method key `method` on `path`.
pub(crate) fn parse_operation(method: &String, op: &Json, path: &String, v3: bool) -> (r: ApiOperation)
    requires
        is_verb(method@),
    ensures
        r@ == operation_model(method@, *op, path@, v3),
{
    let operation_id = match member_str(op, "operationId") {
        Some(id) => id,
        None => synthesize_operation_id(method.as_str(), path.as_str()),
    };
    let summary = member_str(op, "summary");
    let description = member_str(op, "description");
    let empty: Vec<Json> = Vec::new();
    let params = match op.get("parameters") {
        Some(ps) => match ps.as_array() {
            Some(a) => a,
            None => &empty,
        },
        None => &empty,
    };
    assert(params@ == declared_params(*op));
    let classified = classify_params(params, v3);
    let body_param = if v3 {
        parse_request_body(op)
    } else {
        classified.body_param
    };
    let responses = parse_responses(op, v3);
    ApiOperation {
        method: upper_verb(method.as_str()),
        operation_id,
        summary,
        description,
        path_params: classified.path_params,
        query_params: classified.query_params,
        body_param,
        responses,
    }
}

/// Reads the operations of one path item.
pub fn parse_path_item(path: &String, item: &Json, v3: bool) -> (r: Vec<ApiOperation>)
    ensures
        operations_view(r@) == path_item_ops(*item, path@, v3),
{
    let mut out: Vec<ApiOperation> = Vec::new();
    match item.as_object() {
        Some(es) => {
            let mut i: usize = 0;
            while i < es.len()
                invariant
                    i <= es.len(),
                    object_spec(Some(*item)) == Some(es@),
                    operations_view(out@) == operations_of(es@.take(i as int), path@, v3),
                decreases es.len() - i,
            {
                assert(es@.take(i + 1).drop_last() =~= es@.take(i as int));
                let e = &es[i];
                if is_http_method(e.0.as_str()) {
                    if let Json::Object(_) = &e.1 {
                        let op = parse_operation(&e.0, &e.1, path, v3);
                        assert(operations_view(out@.push(op)) =~= operations_view(out@).push(op@));
                        out.push(op);
                    }
                }
                i = i + 1;
            }
            assert(es@.take(i as int) =~= es@);
        },
        None => {
            assert(operations_view(out@) =~= seq![]);
        },
    }
    out
}

/// Reads the members of a `paths` object, dropping paths without operations.
pub fn parse_paths(es: &Vec<(String, Json)>, v3: bool) -> (r: Vec<ApiPath>)
    ensures
        paths_view(r@) == paths_of(es@, v3),
{
    let mut out: Vec<ApiPath> = Vec::new();
    let mut i: usize = 0;
    while i < es.len()
        invariant
            i <= es.len(),
            paths_view(out@) == paths_of(es@.take(i as int), v3),
        decreases es.len() - i,
    {
        assert(es@.take(i + 1).drop_last() =~= es@.take(i as int));
        let e = &es[i];
        let operations = parse_path_item(&e.0, &e.1, v3);
        if operations.len() > 0 {
            let api_path = ApiPath { path: e.0.clone(), operations };
            assert(paths_view(out@.push(api_path)) =~= paths_view(out@).push(api_path@));
            out.push(api_path);
        }
        i = i + 1;
    }
    assert(es@.take(i as int) =~= es@);
    out
}

/// The first element of the array member `key`, where there is one.
pub fn first_element<'a>(doc: &'a Json, key: &str) -> (r: Option<&'a Json>)
    ensures
        match r {
            Some(v) => first_of(array_spec(get_spec(*doc, key@))) == Some(*v),
            None => first_of(array_spec(get_spec(*doc, key@))) is None,
        },
{
    match doc.get(key) {
        Some(a) => match a.as_array() {
            Some(items) => if items.len() > 0 {
                Some(&items[0])
            } else {
                None
            },
            None => None,
        },
        None => None,
    }
}

/// The base URL of a 2.0 document.
pub fn v2_base(doc: &Json) -> (r: String)
    ensures
        r@ == v2_base_url(*doc),
{
    let scheme = match first_element(doc, "schemes") {
        Some(s) => match s.as_str() {
            Some(x) => x.clone(),
            None => "http".to_string(),
        },
        None => "http".to_string(),
    };
    let host = member_str_or(doc, "host", "localhost");
    let base_path = member_str_or(doc, "basePath", "");
    let url = join(join(join(scheme.as_str(), "://").as_str(), host.as_str()).as_str(), base_path.as_str());
    url
}

/// The base URL of a 3.x document.
pub fn v3_base(doc: &Json) -> (r: String)
    ensures
        r@ == v3_base_url(*doc),
{
    match first_element(doc, "servers") {
        Some(server) => member_str_or(server, "url", "http://localhost"),
        None => "http://localhost".to_string(),
    }
}

/// Normalizes a document of the given family; fails where it has no `paths`.
fn parse_document(spec: Json, v3: bool) -> (r: Result<SwaggerSpec, ParserError>)
    ensures
        match r {
            Ok(s) => s.raw_spec == spec && get_spec(spec, "paths"@) is Some && s@ == spec_model(spec, v3),
            Err(e) => e is InvalidSpec && get_spec(spec, "paths"@) is None,
        },
{
    let base_url = if v3 {
        v3_base(&spec)
    } else {
        v2_base(&spec)
    };
    let paths = match spec.get("paths") {
        Some(paths_obj) => match paths_obj.as_object() {
            Some(es) => parse_paths(es, v3),
            None => Vec::new(),
        },
        None => return Err(ParserError::InvalidSpec("No paths defined".to_string())),
    };
    proof {
        if object_spec(get_spec(spec, "paths"@)) is None {
            assert(paths_view(paths@) =~= seq![]);
        }
    }
    Ok(SwaggerSpec { raw_spec: spec, base_url, paths })
}

/// Normalizes a Swagger 2.0 document.
pub fn parse_swagger_v2(spec: Json) -> (r: Result<SwaggerSpec, ParserError>)
    ensures
        match r {
            Ok(s) => s.raw_spec == spec && get_spec(spec, "paths"@) is Some && s@ == spec_model(spec, false),
            Err(e) => e is InvalidSpec && get_spec(spec, "paths"@) is None,
        },
{
    parse_document(spec, false)
}

/// Normalizes an OpenAPI 3.x document.
pub fn parse_openapi_v3(spec: Json) -> (r: Result<SwaggerSpec, ParserError>)
    ensures
        match r {
            Ok(s) => s.raw_spec == spec && get_spec(spec, "paths"@) is Some && s@ == spec_model(spec, true),
            Err(e) => e is InvalidSpec && get_spec(spec, "paths"@) is None,
        },
{
    parse_document(spec, true)
}

/// Whether `text` decodes to a document with a recognized version and a
/// `paths` member whose normalized model is `m`.
pub open spec fn parsed_from(text: Seq<char>, m: SpecModel) -> bool {
    match json_decode(text) {
        Some(doc) => match version_of(doc) {
            Some(v3) => get_spec(doc, "paths"@) is Some && m == spec_model(doc, v3),
            None => false,
        },
        None => false,
    }
}

/// Parses an OpenAPI/Swagger document from its JSON text.
pub fn parse_swagger_string(content: &str) -> (r: Result<SwaggerSpec, ParserError>)
    ensures
        match r {
            Ok(s) => json_decode(content@) == Some(s.raw_spec) && parsed_from(content@, s@),
            Err(ParserError::JsonError(_)) => json_decode(content@) is None,
            Err(ParserError::UnsupportedVersion) => json_decode(content@) is Some && version_of(
                json_decode(content@)->0,
            ) is None,
            Err(ParserError::InvalidSpec(_)) => json_decode(content@) is Some && version_of(
                json_decode(content@)->0,
            ) is Some && get_spec(json_decode(content@)->0, "paths"@) is None,
            Err(ParserError::IoError(_)) => false,
        },
{
    let spec = match decode_json(content) {
        Ok(doc) => doc,
        Err(e) => return Err(ParserError::JsonError(e)),
    };
    let is_v2 = match spec.get("swagger") {
        Some(v) => match v.as_str() {
            Some(s) => str_eq(s.as_str(), "2.0"),
            None => false,
        },
        None => false,
    };
    if is_v2 {
        return parse_swagger_v2(spec);
    }
    let is_v3 = match spec.get("openapi") {
        Some(v) => match v.as_str() {
            Some(s) => {
                let cs = chars_of(s.as_str());
                cs.len() >= 2 && cs[0] == '3' && cs[1] == '.'
            },
            None => false,
        },
        None => false,
    };
    if is_v3 {
        parse_openapi_v3(spec)
    } else {
        Err(ParserError::UnsupportedVersion)
    }
}

/// Every path that `paths_of` keeps carries at least one operation.
pub proof fn lemma_paths_of_nonempty(es: Seq<(String, Json)>, v3: bool)
    ensures
        forall|i: int| 0 <= i < paths_of(es, v3).len() ==> #[trigger] paths_of(es, v3)[i].operations.len() > 0,
    decreases es.len(),
{
    if es.len() > 0 {
        lemma_paths_of_nonempty(es.drop_last(), v3);
        let prev = paths_of(es.drop_last(), v3);
        let ops = path_item_ops(es.last().1, es.last().0@, v3);
        if ops.len() > 0 {
            let cur = prev.push(PathModel { path: es.last().0@, operations: ops });
            assert(paths_of(es, v3) == cur);
            assert forall|i: int| 0 <= i < cur.len() implies #[trigger] cur[i].operations.len() > 0 by {
                if i < prev.len() {
                    assert(cur[i] == prev[i]);
                }
            }
        }
    }
}

/// No path of a parsed document is left without operations.
pub proof fn lemma_parsed_paths_nonempty(text: Seq<char>, m: SpecModel)
    requires
        parsed_from(text, m),
    ensures
        forall|i: int| 0 <= i < m.paths.len() ==> #[trigger] m.paths[i].operations.len() > 0,
{
    let doc = json_decode(text)->0;
    let v3 = version_of(doc)->0;
    match object_spec(get_spec(doc, "paths"@)) {
        Some(es) => lemma_paths_of_nonempty(es, v3),
        None => {},
    }
}

/// An operation that declares no `operationId` is identified by its method
/// key and path alone: any two such operations under the same key on the
/// same path get the same synthesized identifier.
pub proof fn lemma_synthesized_id_depends_on_method_and_path(
    method: Seq<char>,
    op1: Json,
    op2: Json,
    path: Seq<char>,
    v3: bool,
)
    requires
        str_spec(get_spec(op1, "operationId"@)) is None,
        str_spec(get_spec(op2, "operationId"@)) is None,
    ensures
        operation_model(method, op1, path, v3).operation_id == synthesized_id(method, path),
        operation_model(method, op1, path, v3).operation_id == operation_model(
            method,
            op2,
            path,
            v3,
        ).operation_id,
{
}

/// Parsing the same text twice yields the same model, identifiers included.
pub proof fn lemma_reparse_identical(text: Seq<char>, m1: SpecModel, m2: SpecModel)
    requires
        parsed_from(text, m1),
        parsed_from(text, m2),
    ensures
        m1 == m2,
        forall|i: int, j: int|
            0 <= i < m1.paths.len() && 0 <= j < m1.paths[i].operations.len()
                ==> #[trigger] m1.paths[i].operations[j].operation_id
                == m2.paths[i].operations[j].operation_id,
{
}

} // verus!
