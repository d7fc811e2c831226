//! Protocol value types: HTTP versions and methods, with their
//! wire-token parse and serialization rules.
//!
//! A wire token is matched case-insensitively (it is ASCII upper-cased
//! first, then compared against the known table); an unknown token is a
//! parse failure, never a default. Serialization is the inverse mapping
//! onto one canonical token per value.

use crate::errors::{Error, OxidarError};
use crate::text::{lemma_seq_neq_at, upper_eq, upper_seq};
use vstd::prelude::*;

verus! {

/// The protocol versions the parser recognizes.
#[derive(Clone, Copy, Debug, PartialEq, Eq, Structural)]
pub enum Version {
    Http0_9,
    Http1_0,
    Http1_1,
    Http2_0,
    Http3_0,
}

/// The nine standard HTTP request methods.
#[derive(Clone, Copy, Debug, PartialEq, Eq, Structural)]
pub enum Method {
    GET,
    POST,
    PUT,
    DELETE,
    PATCH,
    HEAD,
    OPTIONS,
    TRACE,
    CONNECT,
}

/// The canonical wire token of a version.
pub open spec fn version_token(v: Version) -> Seq<char> {
    match v {
        Version::Http0_9 => "HTTP/0.9"@,
        Version::Http1_0 => "HTTP/1.0"@,
        Version::Http1_1 => "HTTP/1.1"@,
        Version::Http2_0 => "HTTP/2"@,
        Version::Http3_0 => "HTTP/3"@,
    }
}

/// The version a wire token parses to, if any. `HTTP/1` and `HTTP/1.0`
/// name the same version, as do `HTTP/2` and `HTTP/2.0`, and `HTTP/3`
/// and `HTTP/3.0`; matching is on the upper-cased token.
pub open spec fn spec_parse_version(s: Seq<char>) -> Option<Version> {
    let u = upper_seq(s);
    if u == "HTTP/0.9"@ {
        Some(Version::Http0_9)
    } else if u == "HTTP/1"@ || u == "HTTP/1.0"@ {
        Some(Version::Http1_0)
    } else if u == "HTTP/1.1"@ {
        Some(Version::Http1_1)
    } else if u == "HTTP/2"@ || u == "HTTP/2.0"@ {
        Some(Version::Http2_0)
    } else if u == "HTTP/3"@ || u == "HTTP/3.0"@ {
        Some(Version::Http3_0)
    } else {
        None
    }
}

/// The message carried by a failed version parse.
pub open spec fn version_err_msg(s: Seq<char>) -> Seq<char> {
    "Could not parse request version string \""@ + s + "\"."@
}

/// The canonical wire token of a method.
pub open spec fn method_token(m: Method) -> Seq<char> {
    match m {
        Method::GET => "GET"@,
        Method::POST => "POST"@,
        Method::PUT => "PUT"@,
        Method::DELETE => "DELETE"@,
        Method::PATCH => "PATCH"@,
        Method::HEAD => "HEAD"@,
        Method::OPTIONS => "OPTIONS"@,
        Method::TRACE => "TRACE"@,
        Method::CONNECT => "CONNECT"@,
    }
}

/// The method a wire token parses to, if any; matching is on the
/// upper-cased token.
pub open spec fn spec_parse_method(s: Seq<char>) -> Option<Method> {
    let u = upper_seq(s);
    if u == "GET"@ {
        Some(Method::GET)
    } else if u == "POST"@ {
        Some(Method::POST)
    } else if u == "PUT"@ {
        Some(Method::PUT)
    } else if u == "DELETE"@ {
        Some(Method::DELETE)
    } else if u == "PATCH"@ {
        Some(Method::PATCH)
    } else if u == "HEAD"@ {
        Some(Method::HEAD)
    } else if u == "OPTIONS"@ {
        Some(Method::OPTIONS)
    } else if u == "TRACE"@ {
        Some(Method::TRACE)
    } else if u == "CONNECT"@ {
        Some(Method::CONNECT)
    } else {
        None
    }
}

/// The message carried by a failed method parse.
pub open spec fn method_err_msg(s: Seq<char>) -> Seq<char> {
    "Could not parse request method string \""@ + s + "\"."@
}

impl Version {
    /// Parses a wire token; an unknown token yields a fatally classified
    /// parse error naming the offending literal.
    pub fn try_from(value: &str) -> (r: Result<Version, OxidarError>)
        ensures
            r matches Ok(v) ==> spec_parse_version(value@) == Some(v),
            r is Err ==> spec_parse_version(value@) is None,
            r matches Err(e) ==> (e matches OxidarError::Fatal(inner) && inner matches
                Error::Untyped(m) && m@ == version_err_msg(value@)),
    {
        if upper_eq(value, "HTTP/0.9") {
            Ok(Version::Http0_9)
        } else if upper_eq(value, "HTTP/1") || upper_eq(value, "HTTP/1.0") {
            Ok(Version::Http1_0)
        } else if upper_eq(value, "HTTP/1.1") {
            Ok(Version::Http1_1)
        } else if upper_eq(value, "HTTP/2") || upper_eq(value, "HTTP/2.0") {
            Ok(Version::Http2_0)
        } else if upper_eq(value, "HTTP/3") || upper_eq(value, "HTTP/3.0") {
            Ok(Version::Http3_0)
        } else {
            let mut m = String::from_str("Could not parse request version string \"");
            m.append(value);
            m.append("\".");
            Err(OxidarError::Fatal(Error::Untyped(m)))
        }
    }

    /// The canonical wire token this version serializes to.
    pub fn as_str(&self) -> (r: &'static str)
        ensures
            r@ == version_token(*self),
    {
        match self {
            Version::Http0_9 => "HTTP/0.9",
            Version::Http1_0 => "HTTP/1.0",
            Version::Http1_1 => "HTTP/1.1",
            Version::Http2_0 => "HTTP/2",
            Version::Http3_0 => "HTTP/3",
        }
    }
}

impl Method {
    /// Parses a wire token; an unknown token yields a fatally classified
    /// parse error naming the offending literal.
    pub fn try_from(value: &str) -> (r: Result<Method, OxidarError>)
        ensures
            r matches Ok(m) ==> spec_parse_method(value@) == Some(m),
            r is Err ==> spec_parse_method(value@) is None,
            r matches Err(e) ==> (e matches OxidarError::Fatal(inner) && inner matches
                Error::Untyped(m) && m@ == method_err_msg(value@)),
    {
        if upper_eq(value, "GET") {
            Ok(Method::GET)
        } else if upper_eq(value, "POST") {
            Ok(Method::POST)
        } else if upper_eq(value, "PUT") {
            Ok(Method::PUT)
        } else if upper_eq(value, "DELETE") {
            Ok(Method::DELETE)
        } else if upper_eq(value, "PATCH") {
            Ok(Method::PATCH)
        } else if upper_eq(value, "HEAD") {
            Ok(Method::HEAD)
        } else if upper_eq(value, "OPTIONS") {
            Ok(Method::OPTIONS)
        } else if upper_eq(value, "TRACE") {
            Ok(Method::TRACE)
        } else if upper_eq(value, "CONNECT") {
            Ok(Method::CONNECT)
        } else {
            let mut m = String::from_str("Could not parse request method string \"");
            m.append(value);
            m.append("\".");
            Err(OxidarError::Fatal(Error::Untyped(m)))
        }
    }

    /// The canonical wire token this method serializes to.
    pub fn as_str(&self) -> (r: &'static str)
        ensures
            r@ == method_token(*self),
    {
        match self {
            Method::GET => "GET",
            Method::POST => "POST",
            Method::PUT => "PUT",
            Method::DELETE => "DELETE",
            Method::PATCH => "PATCH",
            Method::HEAD => "HEAD",
            Method::OPTIONS => "OPTIONS",
            Method::TRACE => "TRACE",
            Method::CONNECT => "CONNECT",
        }
    }
}

/// The canonical token of every version re-parses to the version it was
/// serialized from: parsing is left-inverse to serialization, so a
/// parse-then-serialize round trip is idempotent.
pub proof fn lemma_version_token_round_trip(v: Version)
    ensures
        spec_parse_version(version_token(v)) == Some(v),
{
    reveal_strlit("HTTP/0.9");
    reveal_strlit("HTTP/1");
    reveal_strlit("HTTP/1.0");
    reveal_strlit("HTTP/1.1");
    reveal_strlit("HTTP/2");
    reveal_strlit("HTTP/2.0");
    reveal_strlit("HTTP/3");
    reveal_strlit("HTTP/3.0");
    assert(upper_seq(version_token(v)) =~= version_token(v));
    match v {
        Version::Http0_9 => {
        },
        Version::Http1_0 => {
            lemma_seq_neq_at("HTTP/1.0"@, "HTTP/0.9"@, 5);
        },
        Version::Http1_1 => {
            lemma_seq_neq_at("HTTP/1.1"@, "HTTP/0.9"@, 5);
            lemma_seq_neq_at("HTTP/1.1"@, "HTTP/1.0"@, 7);
        },
        Version::Http2_0 => {
            lemma_seq_neq_at("HTTP/2"@, "HTTP/1"@, 5);
        },
        Version::Http3_0 => {
            lemma_seq_neq_at("HTTP/3"@, "HTTP/1"@, 5);
            lemma_seq_neq_at("HTTP/3"@, "HTTP/2"@, 5);
        },
    }
}

/// The canonical token of every method re-parses to the method it was
/// serialized from.
pub proof fn lemma_method_token_round_trip(m: Method)
    ensures
        spec_parse_method(method_token(m)) == Some(m),
{
    reveal_strlit("GET");
    reveal_strlit("POST");
    reveal_strlit("PUT");
    reveal_strlit("DELETE");
    reveal_strlit("PATCH");
    reveal_strlit("HEAD");
    reveal_strlit("OPTIONS");
    reveal_strlit("TRACE");
    reveal_strlit("CONNECT");
    assert(upper_seq(method_token(m)) =~= method_token(m));
    match m {
        Method::PUT => {
            lemma_seq_neq_at("PUT"@, "GET"@, 0);
        },
        Method::HEAD => {
            lemma_seq_neq_at("HEAD"@, "POST"@, 0);
        },
        Method::TRACE => {
            lemma_seq_neq_at("TRACE"@, "PATCH"@, 0);
        },
        Method::CONNECT => {
            lemma_seq_neq_at("CONNECT"@, "OPTIONS"@, 0);
        },
        _ => {
        },
    }
}

} // verus!
