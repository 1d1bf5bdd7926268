//! The HTTP interface.

use crate::api::error::ApiError;
use crate::json::{
    json_bool, json_object, json_rendering, json_text, json_to_string, json_view, with_member,
    JsonView,
};
use crate::text::concat3;
use serde_json::Value;
use vstd::prelude::*;

pub mod error;

verus! {

/// The tag of the interface in its description.
pub const PLATFORM_BOT_TAG: &'static str = "platform_bot";

/// The origin that may use the interface from a browser.
pub const ALLOWED_ORIGIN: &'static str = "http://localhost:3000";

/// The result of a request.
pub type ApiResult<T> = Result<T, ApiError>;

/// What the health check reports: a code, and whether the database answers.
pub open spec fn health_report(alive: bool) -> JsonView {
    JsonView::Object(
        map![
            "code"@ => JsonView::Text(if alive { "200"@ } else { "500"@ }),
            "success"@ => JsonView::Bool(alive),
        ],
    )
}

/// The report of the health check.
pub fn health_value(alive: bool) -> (report: Value)
    ensures
        json_view(report) == health_report(alive),
{
    let code: &str = if alive {
        "200"
    } else {
        "500"
    };
    proof {
        reveal_strlit("code");
        reveal_strlit("success");
        assert("code"@.len() != "success"@.len());
    }
    let members: Vec<(String, Value)> = with_member(
        Vec::new(),
        "code",
        json_text(code.to_owned()),
    );
    let members: Vec<(String, Value)> = with_member(members, "success", json_bool(alive));
    json_object(members)
}

/// The body of the response to a health check.
pub fn health_body(alive: bool) -> (body: String)
    ensures
        body@ == json_rendering(health_report(alive)),
{
    json_to_string(&health_value(alive))
}

/// The address that the interface listens on.
pub fn server_url(host: &str, port: &str) -> (url: String)
    ensures
        url@ == host@ + ":"@ + port@,
{
    concat3(host, ":", port)
}

} // verus!
