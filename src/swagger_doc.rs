//! Editing a decoded document before it is written back out.
use vstd::prelude::*;
use crate::json::{json_view, lookup, members_view, Json, JsonModel};

verus! {

/// Why a document could not be produced.
#[derive(Debug)]
pub enum SwaggerGeneratorError {
    /// The document could not be written.
    IoError(String),
    /// The document could not be encoded.
    JsonError(serde_json::Error),
}

/// A string value.
fn text(s: &str) -> (r: Json)
    ensures
        r matches Json::Str(t) && t@ == s@,
{
    Json::Str(s.to_string())
}

/// An object member.
fn member(key: &str, value: Json) -> (r: (String, Json))
    ensures
        r.0@ == key@,
        r.1 == value,
{
    (key.to_string(), value)
}

/// The security schemes added to a document that declares none: an API key
/// sent in a header, and an implicit OAuth2 flow with read and write scopes.
pub open spec fn security_model() -> JsonModel {
    JsonModel::Object(
        seq![
            (
                "api_key"@,
                JsonModel::Object(
                    seq![
                        ("type"@, JsonModel::Str("apiKey"@)),
                        ("name"@, JsonModel::Str("api_key"@)),
                        ("in"@, JsonModel::Str("header"@)),
                    ],
                ),
            ),
            (
                "oauth2"@,
                JsonModel::Object(
                    seq![
                        ("type"@, JsonModel::Str("oauth2"@)),
                        ("flow"@, JsonModel::Str("implicit"@)),
                        ("authorizationUrl"@, JsonModel::Str("https://example.com/oauth/authorize"@)),
                        (
                            "scopes"@,
                            JsonModel::Object(
                                seq![
                                    ("read"@, JsonModel::Str("Read access"@)),
                                    ("write"@, JsonModel::Str("Write access"@)),
                                ],
                            ),
                        ),
                    ],
                ),
            ),
        ],
    )
}

/// The security schemes added to a document that declares none.
pub fn security_definitions() -> (r: Json)
    ensures
        json_view(r) == security_model(),
{
    let mut api_key: Vec<(String, Json)> = Vec::new();
    api_key.push(member("type", text("apiKey")));
    api_key.push(member("name", text("api_key")));
    api_key.push(member("in", text("header")));
    let mut scopes: Vec<(String, Json)> = Vec::new();
    scopes.push(member("read", text("Read access")));
    scopes.push(member("write", text("Write access")));
    let mut oauth2: Vec<(String, Json)> = Vec::new();
    oauth2.push(member("type", text("oauth2")));
    oauth2.push(member("flow", text("implicit")));
    oauth2.push(member("authorizationUrl", text("https://example.com/oauth/authorize")));
    oauth2.push(member("scopes", Json::Object(scopes)));
    let mut defs: Vec<(String, Json)> = Vec::new();
    defs.push(member("api_key", Json::Object(api_key)));
    defs.push(member("oauth2", Json::Object(oauth2)));
    proof {
        reveal_with_fuel(members_view, 5);
        assert(members_view(api_key@) =~= seq![
            ("type"@, JsonModel::Str("apiKey"@)),
            ("name"@, JsonModel::Str("api_key"@)),
            ("in"@, JsonModel::Str("header"@)),
        ]);
        assert(members_view(scopes@) =~= seq![
            ("read"@, JsonModel::Str("Read access"@)),
            ("write"@, JsonModel::Str("Write access"@)),
        ]);
        assert(members_view(oauth2@) =~= seq![
            ("type"@, JsonModel::Str("oauth2"@)),
            ("flow"@, JsonModel::Str("implicit"@)),
            ("authorizationUrl"@, JsonModel::Str("https://example.com/oauth/authorize"@)),
            ("scopes"@, json_view(Json::Object(scopes))),
        ]);
        assert(members_view(defs@) =~= seq![
            ("api_key"@, json_view(Json::Object(api_key))),
            ("oauth2"@, json_view(Json::Object(oauth2))),
        ]);
    }
    Json::Object(defs)
}

/// Adds `securityDefinitions` to an object document that has none; any
/// other document comes back unchanged.
pub fn update_swagger_spec(spec: Json) -> (r: Result<Json, SwaggerGeneratorError>)
    ensures
        r is Ok,
        match spec {
            Json::Object(m) => if lookup(m@, "securityDefinitions"@) is None {
                r matches Ok(Json::Object(m2)) && m2@.len() == m@.len() + 1 && m2@.take(m@.len() as int) == m@
                    && m2@.last().0@ == "securityDefinitions"@ && json_view(m2@.last().1) == security_model()
            } else {
                r == Ok::<Json, SwaggerGeneratorError>(spec)
            },
            _ => r == Ok::<Json, SwaggerGeneratorError>(spec),
        },
{
    if spec.get("securityDefinitions").is_some() {
        return Ok(spec);
    }
    match spec {
        Json::Object(mut m) => {
            let ghost before = m@;
            m.push(member("securityDefinitions", security_definitions()));
            assert(m@.take(before.len() as int) =~= before);
            Ok(Json::Object(m))
        },
        other => Ok(other),
    }
}

} // verus!
