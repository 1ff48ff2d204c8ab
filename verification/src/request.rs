//! Transport-agnostic request descriptions and raw responses.
//!
//! A [`RequestPlan`] says exactly which HTTP request would satisfy an
//! intent; whoever owns a connection turns it into a real request. A
//! [`Response`] is what the transport hands back.
use vstd::prelude::*;

use vstd::string::StringExecFns;

verus! {

/// The request methods this protocol uses.
#[derive(Debug, Clone, Copy, PartialEq, Eq, Structural)]
pub enum HttpMethod {
    Get,
    Patch,
    Post,
}

/// One HTTP request, described but not sent: method, path under the hub's
/// base URL, the three headers the protocol uses, and the body text.
#[derive(Debug, Clone, PartialEq)]
pub struct RequestPlan {
    pub method: HttpMethod,
    pub path: String,
    pub authorization: String,
    pub user_agent: String,
    pub content_type: Option<String>,
    pub body: String,
}

/// A raw response: the status line's code and the body text.
#[derive(Debug, Clone, PartialEq)]
pub struct Response {
    pub status: u16,
    pub body: String,
}

/// The fixed user agent every request carries.
pub open spec fn spec_user_agent() -> Seq<char> {
    "dirigera-rs/0.1.0"@
}

/// The authorization header for a bearer token.
pub open spec fn spec_bearer(token: Seq<char>) -> Seq<char> {
    "Bearer "@ + token
}

/// The content type announced when a body is present.
pub open spec fn spec_json_content_type() -> Seq<char> {
    "application/json"@
}

/// The path of a single device's resource.
pub open spec fn device_path(id: Seq<char>) -> Seq<char> {
    "/v1/devices/"@ + id
}

/// The path of a single scene's resource.
pub open spec fn scene_path(id: Seq<char>) -> Seq<char> {
    "/v1/scenes/"@ + id
}

/// The path that triggers a scene.
pub open spec fn scene_trigger_path(id: Seq<char>) -> Seq<char> {
    "/v1/scenes/"@ + id + "/trigger"@
}

/// The path that undoes a scene.
pub open spec fn scene_undo_path(id: Seq<char>) -> Seq<char> {
    "/v1/scenes/"@ + id + "/undo"@
}

/// A read: GET, the given path, the standard headers, no body and no
/// content type.
pub open spec fn read_plan(p: RequestPlan, path: Seq<char>, token: Seq<char>) -> bool {
    &&& p.method == HttpMethod::Get
    &&& p.path@ == path
    &&& p.authorization@ == spec_bearer(token)
    &&& p.user_agent@ == spec_user_agent()
    &&& p.content_type is None
    &&& p.body@.len() == 0
}

/// A mutation: PATCH, the given path, the standard headers, a JSON content
/// type, and exactly the given body.
pub open spec fn patch_plan(p: RequestPlan, path: Seq<char>, token: Seq<char>, body: Seq<char>) -> bool {
    &&& p.method == HttpMethod::Patch
    &&& p.path@ == path
    &&& p.authorization@ == spec_bearer(token)
    &&& p.user_agent@ == spec_user_agent()
    &&& (p.content_type matches Some(ct) && ct@ == spec_json_content_type())
    &&& p.body@ == body
}

/// A scene invocation: POST, the given path, the standard headers, no body
/// and no content type.
pub open spec fn post_plan(p: RequestPlan, path: Seq<char>, token: Seq<char>) -> bool {
    &&& p.method == HttpMethod::Post
    &&& p.path@ == path
    &&& p.authorization@ == spec_bearer(token)
    &&& p.user_agent@ == spec_user_agent()
    &&& p.content_type is None
    &&& p.body@.len() == 0
}

/// Success on the wire: a 2xx status.
pub open spec fn status_ok(s: u16) -> bool {
    200 <= s < 300
}

/// Build the authorization header value.
pub fn bearer_of(token: &str) -> (r: String)
    ensures
        r@ == spec_bearer(token@),
{
    let mut s = String::from_str("Bearer ");
    s.append(token);
    s
}

/// Build the fixed user agent header value.
pub fn user_agent_value() -> (r: String)
    ensures
        r@ == spec_user_agent(),
{
    String::from_str("dirigera-rs/0.1.0")
}

/// Assemble a read plan.
pub fn make_read_plan(path: String, token: &str) -> (r: RequestPlan)
    ensures
        read_plan(r, path@, token@),
{
    RequestPlan {
        method: HttpMethod::Get,
        path,
        authorization: bearer_of(token),
        user_agent: user_agent_value(),
        content_type: None,
        body: String::new(),
    }
}

/// Assemble a mutation plan.
pub fn make_patch_plan(path: String, token: &str, body: String) -> (r: RequestPlan)
    ensures
        patch_plan(r, path@, token@, body@),
{
    RequestPlan {
        method: HttpMethod::Patch,
        path,
        authorization: bearer_of(token),
        user_agent: user_agent_value(),
        content_type: Some(String::from_str("application/json")),
        body,
    }
}

/// Assemble a scene-invocation plan.
pub fn make_post_plan(path: String, token: &str) -> (r: RequestPlan)
    ensures
        post_plan(r, path@, token@),
{
    RequestPlan {
        method: HttpMethod::Post,
        path,
        authorization: bearer_of(token),
        user_agent: user_agent_value(),
        content_type: None,
        body: String::new(),
    }
}

} // verus!
