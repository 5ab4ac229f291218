//! The normalized model of an API description that every emitter consumes.
use vstd::prelude::*;
use crate::json::{json_view, Json, JsonModel};

verus! {

/// A parameter of an operation.
pub struct ApiParameter {
    pub name: String,
    /// Where the parameter travels: `path`, `query` or `body`.
    pub location: String,
    pub required: bool,
    /// Best-effort scalar type name.
    pub param_type: String,
    pub schema: Option<Json>,
}

/// A response that an operation declares.
pub struct ApiResponse {
    /// Kept as text, so that `default` survives.
    pub status_code: String,
    pub description: Option<String>,
    pub schema: Option<Json>,
}

/// One HTTP method on one path.
pub struct ApiOperation {
    /// Upper case.
    pub method: String,
    pub operation_id: String,
    pub summary: Option<String>,
    pub description: Option<String>,
    pub path_params: Vec<ApiParameter>,
    pub query_params: Vec<ApiParameter>,
    pub body_param: Option<ApiParameter>,
    pub responses: Vec<ApiResponse>,
}

/// A path template and the operations declared on it.
pub struct ApiPath {
    pub path: String,
    pub operations: Vec<ApiOperation>,
}

/// A parsed API description.
pub struct SwaggerSpec {
    /// The decoded document, kept whole.
    pub raw_spec: Json,
    pub base_url: String,
    pub paths: Vec<ApiPath>,
}

/// What a parameter holds, as plain values.
pub struct ParamModel {
    pub name: Seq<char>,
    pub location: Seq<char>,
    pub required: bool,
    pub param_type: Seq<char>,
    pub schema: Option<JsonModel>,
}

/// What a response holds, as plain values.
pub struct ResponseModel {
    pub status_code: Seq<char>,
    pub description: Option<Seq<char>>,
    pub schema: Option<JsonModel>,
}

/// What an operation holds, as plain values.
pub struct OperationModel {
    pub method: Seq<char>,
    pub operation_id: Seq<char>,
    pub summary: Option<Seq<char>>,
    pub description: Option<Seq<char>>,
    pub path_params: Seq<ParamModel>,
    pub query_params: Seq<ParamModel>,
    pub body_param: Option<ParamModel>,
    pub responses: Seq<ResponseModel>,
}

/// What a path holds, as plain values.
pub struct PathModel {
    pub path: Seq<char>,
    pub operations: Seq<OperationModel>,
}

/// What a parsed description holds, as plain values.
pub struct SpecModel {
    pub base_url: Seq<char>,
    pub paths: Seq<PathModel>,
}

/// The model of an optional JSON value.
pub open spec fn opt_json_view(o: Option<Json>) -> Option<JsonModel> {
    match o {
        Some(j) => Some(json_view(j)),
        None => None,
    }
}

/// The text of an optional string.
pub open spec fn opt_view(o: Option<String>) -> Option<Seq<char>> {
    match o {
        Some(s) => Some(s@),
        None => None,
    }
}

impl View for ApiParameter {
    type V = ParamModel;

    open spec fn view(&self) -> ParamModel {
        ParamModel {
            name: self.name@,
            location: self.location@,
            required: self.required,
            param_type: self.param_type@,
            schema: opt_json_view(self.schema),
        }
    }
}

impl View for ApiResponse {
    type V = ResponseModel;

    open spec fn view(&self) -> ResponseModel {
        ResponseModel {
            status_code: self.status_code@,
            description: opt_view(self.description),
            schema: opt_json_view(self.schema),
        }
    }
}

/// The models of a sequence of parameters.
pub open spec fn params_view(s: Seq<ApiParameter>) -> Seq<ParamModel> {
    s.map_values(|p: ApiParameter| p@)
}

/// The models of a sequence of responses.
pub open spec fn responses_view(s: Seq<ApiResponse>) -> Seq<ResponseModel> {
    s.map_values(|r: ApiResponse| r@)
}

/// The model of an optional parameter.
pub open spec fn opt_param_view(o: Option<ApiParameter>) -> Option<ParamModel> {
    match o {
        Some(p) => Some(p@),
        None => None,
    }
}

impl View for ApiOperation {
    type V = OperationModel;

    open spec fn view(&self) -> OperationModel {
        OperationModel {
            method: self.method@,
            operation_id: self.operation_id@,
            summary: opt_view(self.summary),
            description: opt_view(self.description),
            path_params: params_view(self.path_params@),
            query_params: params_view(self.query_params@),
            body_param: opt_param_view(self.body_param),
            responses: responses_view(self.responses@),
        }
    }
}

/// The models of a sequence of operations.
pub open spec fn operations_view(s: Seq<ApiOperation>) -> Seq<OperationModel> {
    s.map_values(|o: ApiOperation| o@)
}

impl View for ApiPath {
    type V = PathModel;

    open spec fn view(&self) -> PathModel {
        PathModel { path: self.path@, operations: operations_view(self.operations@) }
    }
}

/// The models of a sequence of paths.
pub open spec fn paths_view(s: Seq<ApiPath>) -> Seq<PathModel> {
    s.map_values(|p: ApiPath| p@)
}

impl View for SwaggerSpec {
    type V = SpecModel;

    open spec fn view(&self) -> SpecModel {
        SpecModel { base_url: self.base_url@, paths: paths_view(self.paths@) }
    }
}

} // verus!
