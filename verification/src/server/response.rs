//! The response written back over a connection, and its wire form:
//! `VERSION SP STATUS CRLF CRLF BODY` — no response headers.

use crate::server::http::{version_token, Version};
use vstd::prelude::*;

verus! {

/// The body of a response, tagged with how it is meant to be read.
pub enum ResponseContent {
    Json(String),
    Html(String),
}

/// The characters of a response body.
pub open spec fn spec_body(c: ResponseContent) -> Seq<char> {
    match c {
        ResponseContent::Json(s) => s@,
        ResponseContent::Html(s) => s@,
    }
}

impl ResponseContent {
    /// The body text, whichever variant carries it.
    pub fn get_body(&self) -> (r: String)
        ensures
            r@ == spec_body(*self),
    {
        match self {
            ResponseContent::Json(json) => json.clone(),
            ResponseContent::Html(html) => html.clone(),
        }
    }
}

/// A response: a version, a fixed status line, and a body.
pub struct Response {
    pub version: Version,
    pub status: &'static str,
    pub content: ResponseContent,
}

/// The full wire form of a response.
pub open spec fn spec_build_response(r: Response) -> Seq<char> {
    version_token(r.version) + " "@ + r.status@ + "\r\n\r\n"@ + spec_body(r.content)
}

impl Response {
    /// Serializes the response to its wire form: the status line, a
    /// blank line, then the body.
    pub fn build_response(&self) -> (r: String)
        ensures
            r@ == spec_build_response(*self),
    {
        let mut out = String::from_str(self.version.as_str());
        out.append(" ");
        out.append(self.status);
        out.append("\r\n\r\n");
        let body = self.content.get_body();
        out.append(body.as_str());
        out
    }
}

} // verus!
