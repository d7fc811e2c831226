//! Error taxonomy: what went wrong (kind) and how far it propagates
//! (severity).
//!
//! The kind — [`Error`] — says what failed; the severity wrapper —
//! [`OxidarError`] — says how far the failure propagates: `Fatal`
//! should stop the server, `Abortion` drops the connection silently,
//! and `Normal` is the only severity that is ever translated into a
//! response for the client.

use crate::server::http::Version;
use crate::server::response::{Response, ResponseContent};
use vstd::prelude::*;

verus! {

/// Specific cause of a failure, independent of severity.
#[derive(Debug)]
pub enum Error {
    Untyped(String),
    Io(std::io::Error),
    Http404(Option<String>),
}

/// Severity wrapper: how far an [`Error`] propagates.
#[derive(Debug)]
pub enum OxidarError {
    Fatal(Error),
    Abortion(Error),
    Normal(Error),
}

/// The operating system's I/O error type; its contents are opaque here.
#[verifier::external_type_specification]
#[verifier::external_body]
pub struct ExIoError(std::io::Error);

/// Status line owed to each error kind.
pub open spec fn spec_status_str(e: Error) -> Seq<char> {
    match e {
        Error::Untyped(_) => "500 Server Error"@,
        Error::Io(_) => "500 Server Error"@,
        Error::Http404(_) => "404 Resource Not Found"@,
    }
}

/// The text [`Error::message`] yields for every kind but `Io`, whose
/// text is the platform's and is not modeled here (the `Io` arm yields
/// the empty sequence, and no contract relies on it).
pub open spec fn spec_err_text(e: Error) -> Seq<char> {
    match e {
        Error::Untyped(m) => "(Untyped) "@ + m@,
        Error::Io(_) => Seq::<char>::empty(),
        Error::Http404(Some(m)) => "(404) "@ + m@,
        Error::Http404(None) => "(404) Resource Not Found"@,
    }
}

impl Error {
    /// The fixed status line for this error kind.
    pub fn status_str(&self) -> (r: &'static str)
        ensures
            r@ == spec_status_str(*self),
    {
        match self {
            Error::Untyped(_) => "500 Server Error",
            Error::Io(_) => "500 Server Error",
            Error::Http404(_) => "404 Resource Not Found",
        }
    }

    /// A human-readable description: the kind in parentheses, then the
    /// carried text. For an `Io` error only the `"(IO) "` prefix is
    /// promised; the rest of the text is the platform's.
    pub fn message(&self) -> (r: String)
        ensures
            !(self matches Error::Io(_)) ==> r@ == spec_err_text(*self),
            self matches Error::Io(_) ==> r@.len() >= 5 && r@.subrange(0, 5) == "(IO) "@,
    {
        match self {
            Error::Untyped(err) => {
                let mut s = String::from_str("(Untyped) ");
                s.append(err.as_str());
                s
            },
            Error::Io(err) => {
                let t = io_error_text(err);
                let mut s = String::from_str("(IO) ");
                s.append(t.as_str());
                proof {
                    reveal_strlit("(IO) ");
                    assert(s@.subrange(0, 5) =~= "(IO) "@);
                }
                s
            },
            Error::Http404(err) => {
                match err {
                    Some(msg) => {
                        let mut s = String::from_str("(404) ");
                        s.append(msg.as_str());
                        s
                    },
                    None => String::from_str("(404) Resource Not Found"),
                }
            },
        }
    }
}

/// Relies on the `Display` implementation of `std::io::Error`, through
/// `ToString::to_string`, to render the platform's description of an
/// I/O failure; nothing is assumed about the text.
#[verifier::external_body]
fn io_error_text(e: &std::io::Error) -> String {
    e.to_string()
}

/// The HTML snippet a message is embedded in when a normal-severity
/// error is turned into a response body.
pub open spec fn spec_html_wrap(m: Seq<char>) -> Seq<char> {
    "<h1 style='text-align: center'>"@ + m + "</h1>"@
}

/// What the body of an error response holds: the wrapped message text
/// exactly, except for an `Io` error, whose platform text is opaque.
pub open spec fn spec_error_body_ok(e: Error, b: Seq<char>) -> bool {
    match e {
        Error::Io(_) => exists|t: Seq<char>| b == spec_html_wrap("(IO) "@ + t),
        _ => b == spec_html_wrap(spec_err_text(e)),
    }
}

/// The label a severity prepends to its description.
pub open spec fn spec_severity_label(e: OxidarError) -> Seq<char> {
    match e {
        OxidarError::Fatal(_) => "Fatal Error "@,
        OxidarError::Abortion(_) => "Abortion Error "@,
        OxidarError::Normal(_) => "Normal Error "@,
    }
}

/// The kind an error carries, whatever its severity.
pub open spec fn spec_inner(e: OxidarError) -> Error {
    match e {
        OxidarError::Fatal(i) => i,
        OxidarError::Abortion(i) => i,
        OxidarError::Normal(i) => i,
    }
}

impl OxidarError {
    /// A human-readable description: the severity label, then the
    /// carried error's own message.
    pub fn message(&self) -> (r: String)
        ensures
            !(spec_inner(*self) matches Error::Io(_)) ==> r@ == spec_severity_label(*self)
                + spec_err_text(spec_inner(*self)),
            r@.len() >= spec_severity_label(*self).len(),
            r@.subrange(0, spec_severity_label(*self).len() as int) == spec_severity_label(*self),
    {
        let label = match self {
            OxidarError::Fatal(_) => "Fatal Error ",
            OxidarError::Abortion(_) => "Abortion Error ",
            OxidarError::Normal(_) => "Normal Error ",
        };
        let inner = match self {
            OxidarError::Fatal(i) => i,
            OxidarError::Abortion(i) => i,
            OxidarError::Normal(i) => i,
        };
        let mut s = String::from_str(label);
        let m = inner.message();
        s.append(m.as_str());
        proof {
            assert(s@.subrange(0, label@.len() as int) =~= label@);
        }
        s
    }

    /// Classifies a failed I/O step before any response is owed —
    /// binding the listener, accepting a connection, reading request
    /// lines — as fatal.
    pub fn fio<T>(r: Result<T, std::io::Error>) -> (res: Result<T, OxidarError>)
        ensures
            r matches Ok(v) ==> (res matches Ok(w) && w == v),
            r matches Err(e) ==> (res matches Err(oe) && oe matches OxidarError::Fatal(ie)
                && ie matches Error::Io(e2) && e2 == e),
    {
        match r {
            Ok(r) => Ok(r),
            Err(err) => Err(OxidarError::Fatal(Error::Io(err))),
        }
    }

    /// Classifies a failed I/O step during response delivery as an
    /// abortion: the connection is dropped and owed nothing more, and
    /// the server keeps running — a client lost mid-delivery is a
    /// per-connection condition, never a server-fatal one.
    pub fn aio<T>(r: Result<T, std::io::Error>) -> (res: Result<T, OxidarError>)
        ensures
            r matches Ok(v) ==> (res matches Ok(w) && w == v),
            r matches Err(e) ==> (res matches Err(oe) && oe matches OxidarError::Abortion(ie)
                && ie matches Error::Io(e2) && e2 == e),
    {
        match r {
            Ok(r) => Ok(r),
            Err(err) => Err(OxidarError::Abortion(Error::Io(err))),
        }
    }

    /// A fatally classified error carrying a plain message; used for
    /// every malformed-request condition found during parsing.
    pub fn abort_std(msg: String) -> (r: Self)
        ensures
            r == OxidarError::Fatal(Error::Untyped(msg)),
    {
        OxidarError::Fatal(Error::Untyped(msg))
    }

    /// Translates the error into a client-facing response. Only a
    /// `Normal` error produces one: its status line comes from the kind
    /// and its body is an HTML snippet embedding the message. `Fatal`
    /// and `Abortion` errors owe the client nothing.
    pub fn to_response(&self) -> (r: Option<Response>)
        ensures
            self matches OxidarError::Fatal(_) ==> r is None,
            self matches OxidarError::Abortion(_) ==> r is None,
            self matches OxidarError::Normal(e) ==> (r matches Some(resp) && (
            resp.version == Version::Http1_1 && resp.status@ == spec_status_str(*e) && (
            resp.content matches ResponseContent::Html(b) && spec_error_body_ok(*e, b@)))),
    {
        let err = match self {
            OxidarError::Fatal(_) => {
                return None;
            },
            OxidarError::Abortion(_) => {
                return None;
            },
            OxidarError::Normal(ref err) => err,
        };

        let status = err.status_str();
        let msg = err.message();

        let mut body = String::from_str("<h1 style='text-align: center'>");
        body.append(msg.as_str());
        body.append("</h1>");

        proof {
            if err matches Error::Io(_) {
                reveal_strlit("(IO) ");
                assert(msg@ =~= "(IO) "@ + msg@.skip(5));
                assert(body@ =~= spec_html_wrap("(IO) "@ + msg@.skip(5)));
            }
        }

        Some(
            Response {
                version: Version::Http1_1,
                status,
                content: ResponseContent::Html(body),
            },
        )
    }

    /// A normal-severity not-found error, optionally carrying a message.
    pub fn http_404(msg: Option<String>) -> (r: OxidarError)
        ensures
            r == OxidarError::Normal(Error::Http404(msg)),
    {
        OxidarError::Normal(Error::Http404(msg))
    }
}

} // verus!
