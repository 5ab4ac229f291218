//! Derivations that every emitter shares, so that all backends expect the
//! same thing of the same operation.
use vstd::prelude::*;
use crate::ir::{ApiOperation, ApiParameter, ApiResponse, OperationModel, ParamModel, ResponseModel, params_view, responses_view};
use crate::json::str_eq;
use crate::text::texts;

verus! {

/// What `str::to_lowercase` returns for a text.
pub uninterp spec fn lower_text(s: Seq<char>) -> Seq<char>;

/// What `str::to_uppercase` returns for a text.
pub uninterp spec fn upper_text(s: Seq<char>) -> Seq<char>;

/// Relies on `str::to_lowercase`: the Unicode lower-case form of a text,
/// which depends on the text alone.
#[verifier::external_body]
pub fn to_lower_text(s: &str) -> (r: String)
    ensures
        r@ == lower_text(s@),
{
    s.to_lowercase()
}

/// Relies on `str::to_uppercase`: the Unicode upper-case form of a text,
/// which depends on the text alone.
#[verifier::external_body]
pub fn to_upper_text(s: &str) -> (r: String)
    ensures
        r@ == upper_text(s@),
{
    s.to_uppercase()
}

/// `s` with every occurrence of `from`, scanned left to right without
/// overlap, replaced by `to`.
pub open spec fn replace_spec(s: Seq<char>, from: Seq<char>, to: Seq<char>) -> Seq<char>
    recommends
        from.len() > 0,
    decreases s.len(),
{
    if s.len() == 0 || from.len() == 0 {
        s
    } else if s.len() >= from.len() && s.take(from.len() as int) == from {
        to + replace_spec(s.skip(from.len() as int), from, to)
    } else {
        seq![s[0]] + replace_spec(s.skip(1), from, to)
    }
}

/// Relies on `str::replace`: replaces all non-overlapping matches of a
/// non-empty pattern, left to right.
#[verifier::external_body]
pub fn replace_text(s: &str, from: &str, to: &str) -> (r: String)
    requires
        from@.len() > 0,
    ensures
        r@ == replace_spec(s@, from@, to@),
{
    s.replace(from, to)
}

/// The status code of the first response whose code starts with `2`.
pub open spec fn first_2xx(rs: Seq<ResponseModel>) -> Option<Seq<char>>
    decreases rs.len(),
{
    if rs.len() == 0 {
        None
    } else if rs[0].status_code.len() > 0 && rs[0].status_code[0] == '2' {
        Some(rs[0].status_code)
    } else {
        first_2xx(rs.drop_first())
    }
}

/// The status an operation is expected to answer with when nothing in its
/// responses says otherwise: `201` for POST, `204` for DELETE, else `200`.
pub open spec fn default_status(method: Seq<char>) -> Seq<char> {
    if lower_text(method) == "post"@ {
        "201"@
    } else if lower_text(method) == "delete"@ {
        "204"@
    } else {
        "200"@
    }
}

/// The success status expected of an operation: its first 2xx response,
/// else the method's default.
pub open spec fn expected_status_spec(op: OperationModel) -> Seq<char> {
    match first_2xx(op.responses) {
        Some(code) => code,
        None => default_status(op.method),
    }
}

/// Whether some path parameter is named `id`.
pub open spec fn has_id_param(ps: Seq<ParamModel>) -> bool {
    exists|i: int| 0 <= i < ps.len() && #[trigger] ps[i].name == "id"@
}

/// Whether the lower-cased method is GET, PUT or DELETE.
pub open spec fn is_get_put_delete(method: Seq<char>) -> bool {
    lower_text(method) == "get"@ || lower_text(method) == "put"@ || lower_text(method) == "delete"@
}

/// Whether a test of the operation must first create the resource that its
/// `id` path parameter names.
pub open spec fn needs_fixture_spec(op: OperationModel) -> bool {
    has_id_param(op.path_params) && is_get_put_delete(op.method)
}

/// The first 2xx status among the responses.
pub fn first_success_status(rs: &Vec<ApiResponse>) -> (r: Option<String>)
    ensures
        match r {
            Some(s) => first_2xx(responses_view(rs@)) == Some(s@),
            None => first_2xx(responses_view(rs@)) is None,
        },
{
    let mut i: usize = 0;
    assert(responses_view(rs@).skip(0) =~= responses_view(rs@));
    while i < rs.len()
        invariant
            i <= rs.len(),
            first_2xx(responses_view(rs@)) == first_2xx(responses_view(rs@).skip(i as int)),
        decreases rs.len() - i,
    {
        let ghost rv = responses_view(rs@);
        assert(rv.skip(i as int).drop_first() =~= rv.skip(i + 1));
        assert(rv.skip(i as int)[0] == rs@[i as int]@);
        let code = &rs[i].status_code;
        let cs = crate::text::chars_of(code.as_str());
        if cs.len() > 0 && cs[0] == '2' {
            return Some(code.clone());
        }
        i = i + 1;
    }
    None
}

/// The success status expected of an operation, shared by every emitter.
pub fn expected_status(op: &ApiOperation) -> (r: String)
    ensures
        r@ == expected_status_spec(op@),
{
    match first_success_status(&op.responses) {
        Some(code) => code,
        None => {
            let m = to_lower_text(op.method.as_str());
            if str_eq(m.as_str(), "post") {
                "201".to_string()
            } else if str_eq(m.as_str(), "delete") {
                "204".to_string()
            } else {
                "200".to_string()
            }
        },
    }
}

/// Whether some parameter is named `id`.
pub fn has_id_parameter(ps: &Vec<ApiParameter>) -> (r: bool)
    ensures
        r == has_id_param(params_view(ps@)),
{
    let mut i: usize = 0;
    while i < ps.len()
        invariant
            i <= ps.len(),
            forall|k: int| 0 <= k < i ==> #[trigger] params_view(ps@)[k].name != "id"@,
        decreases ps.len() - i,
    {
        if str_eq(ps[i].name.as_str(), "id") {
            assert(params_view(ps@)[i as int].name == "id"@);
            return true;
        }
        i = i + 1;
    }
    false
}

/// Whether a test of the operation must first create the resource that its
/// `id` path parameter names.
pub fn needs_fixture(op: &ApiOperation) -> (r: bool)
    ensures
        r == needs_fixture_spec(op@),
{
    let m = to_lower_text(op.method.as_str());
    let verb = str_eq(m.as_str(), "get") || str_eq(m.as_str(), "put") || str_eq(m.as_str(), "delete");
    verb && has_id_parameter(&op.path_params)
}

/// A parameter's name set in fixed text: `pre`, the name, `mid`, and where
/// `twice` holds the name again and `post`.
pub open spec fn around(p: ParamModel, pre: Seq<char>, mid: Seq<char>, post: Seq<char>, twice: bool) -> Seq<char> {
    if twice {
        pre + p.name + mid + p.name + post
    } else {
        pre + p.name + mid
    }
}

/// Each parameter's name set in fixed text, as `around` says.
pub fn render_names(ps: &Vec<ApiParameter>, pre: &str, mid: &str, post: &str, twice: bool) -> (r: Vec<String>)
    ensures
        texts(r@) == params_view(ps@).map_values(|p: ParamModel| around(p, pre@, mid@, post@, twice)),
{
    let mut out: Vec<String> = Vec::new();
    let mut i: usize = 0;
    while i < ps.len()
        invariant
            i <= ps.len(),
            texts(out@) == params_view(ps@.take(i as int)).map_values(
                |p: ParamModel| around(p, pre@, mid@, post@, twice),
            ),
        decreases ps.len() - i,
    {
        let name = ps[i].name.as_str();
        let mut s = pre.to_string();
        s.append(name);
        s.append(mid);
        if twice {
            s.append(name);
            s.append(post);
        }
        assert(texts(out@.push(s)) =~= texts(out@).push(s@));
        out.push(s);
        i = i + 1;
        assert(texts(out@) =~= params_view(ps@.take(i as int)).map_values(
            |p: ParamModel| around(p, pre@, mid@, post@, twice),
        ));
    }
    assert(ps@.take(i as int) =~= ps@);
    out
}

/// A path template with each parameter's `{name}` placeholder, parameter by
/// parameter in order, replaced by `pre`, the name, and `post`.
pub open spec fn substitute_spec(s: Seq<char>, ps: Seq<ParamModel>, pre: Seq<char>, post: Seq<char>) -> Seq<char>
    decreases ps.len(),
{
    if ps.len() == 0 {
        s
    } else {
        let name = ps.last().name;
        replace_spec(substitute_spec(s, ps.drop_last(), pre, post), "{"@ + name + "}"@, pre + name + post)
    }
}

/// Replaces each path parameter's placeholder as `substitute_spec` says.
pub fn substitute_params(s: &str, ps: &Vec<ApiParameter>, pre: &str, post: &str) -> (r: String)
    ensures
        r@ == substitute_spec(s@, params_view(ps@), pre@, post@),
{
    let mut out = s.to_string();
    let mut i: usize = 0;
    while i < ps.len()
        invariant
            i <= ps.len(),
            out@ == substitute_spec(s@, params_view(ps@.take(i as int)), pre@, post@),
        decreases ps.len() - i,
    {
        assert(params_view(ps@.take(i + 1)).drop_last() =~= params_view(ps@.take(i as int)));
        let name = ps[i].name.as_str();
        let mut from = "{".to_string();
        from.append(name);
        from.append("}");
        let mut to = pre.to_string();
        to.append(name);
        to.append(post);
        proof {
            reveal_strlit("{");
        }
        out = replace_text(out.as_str(), from.as_str(), to.as_str());
        i = i + 1;
    }
    assert(ps@.take(i as int) =~= ps@);
    out
}

/// Whether a response's status code starts with `2`.
pub open spec fn is_2xx(r: ResponseModel) -> bool {
    r.status_code.len() > 0 && r.status_code[0] == '2'
}

/// `first_2xx` finds the first 2xx response, and only where there is one.
pub proof fn lemma_first_2xx(rs: Seq<ResponseModel>)
    ensures
        forall|k: int|
            0 <= k < rs.len() && is_2xx(#[trigger] rs[k]) && (forall|j: int| 0 <= j < k ==> !is_2xx(rs[j]))
                ==> first_2xx(rs) == Some(rs[k].status_code),
        (forall|k: int| 0 <= k < rs.len() ==> !is_2xx(#[trigger] rs[k])) ==> first_2xx(rs) is None,
    decreases rs.len(),
{
    if rs.len() > 0 {
        let tail = rs.drop_first();
        lemma_first_2xx(tail);
        assert forall|k: int|
            0 <= k < rs.len() && is_2xx(#[trigger] rs[k]) && (forall|j: int| 0 <= j < k ==> !is_2xx(rs[j]))
                implies first_2xx(rs) == Some(rs[k].status_code) by {
            if k > 0 {
                assert(!is_2xx(rs[0]));
                assert(tail[k - 1] == rs[k]);
                assert forall|j: int| 0 <= j < k - 1 implies !is_2xx(tail[j]) by {
                    assert(tail[j] == rs[j + 1]);
                }
            }
        }
        if forall|k: int| 0 <= k < rs.len() ==> !is_2xx(#[trigger] rs[k]) {
            assert(!is_2xx(rs[0]));
            assert forall|k: int| 0 <= k < tail.len() implies !is_2xx(#[trigger] tail[k]) by {
                assert(tail[k] == rs[k + 1]);
            }
        }
    }
}

/// The expected success status of an operation is the status code of its
/// first response whose code starts with `2`; where no response does, it is
/// `201` for POST, `204` for DELETE and `200` for any other method.
pub proof fn lemma_expected_status_rule(o: OperationModel)
    ensures
        forall|k: int|
            0 <= k < o.responses.len() && is_2xx(#[trigger] o.responses[k]) && (forall|j: int|
                0 <= j < k ==> !is_2xx(o.responses[j])) ==> expected_status_spec(o) == o.responses[k].status_code,
        (forall|k: int| 0 <= k < o.responses.len() ==> !is_2xx(#[trigger] o.responses[k]))
            ==> expected_status_spec(o) == default_status(o.method),
        default_status(o.method) == if lower_text(o.method) == "post"@ {
            "201"@
        } else if lower_text(o.method) == "delete"@ {
            "204"@
        } else {
            "200"@
        },
{
    lemma_first_2xx(o.responses);
}

} // verus!
