//! The server core: configuration, per-connection pipeline, routing
//! and logging.
//!
//! One parsed request is produced per accepted connection (or the
//! connection is abandoned with an error that owes no response), and
//! exactly one response or one normal-severity error response is
//! computed for it. The byte-writing edge itself lives with the caller
//! that owns the socket; everything the core decides about those bytes
//! is here.

pub mod app;
pub mod http;
pub mod parser;
pub mod request;
pub mod response;

use crate::errors::{spec_error_body_ok, spec_status_str, Error, OxidarError};
use crate::server::app::{AppReg, Respond};
use crate::server::http::{version_token, Version};
use crate::server::parser::{parse_request, req_matches, spec_parse_request};
use crate::server::request::Request;
use crate::server::response::{spec_build_response, Response};
use crate::text::{is_prefix, starts_with, strs_view};
use std::io::Write;
use vstd::prelude::*;

verus! {

/// The level of a log line.
pub enum LogMethod {
    Info,
    Warning,
    Error,
}

/// Where log lines go: the terminal, a file, or both. Only the
/// terminal sink is written by the core.
pub enum LogStyle {
    Terminal,
    File(String),
    TerminalFile(String),
}

/// The server: the registered sub-applications in priority order, the
/// address to listen on, the worker-pool size, and the logging
/// configuration. Immutable once constructed.
pub struct Oxidar<A> {
    pub apps: Vec<AppReg<A>>,
    pub socket_addr: &'static str,
    pub threads: usize,
    pub log_method: LogStyle,
    pub debug: bool,
}

/// The registered prefixes, in registration order.
pub open spec fn prefixes_view<A>(apps: Seq<AppReg<A>>) -> Seq<Seq<char>> {
    Seq::new(apps.len(), |i: int| apps[i].0@)
}

/// The first registered prefix that the padded URI starts with:
/// registration order decides, not prefix length.
pub open spec fn first_match(prefixes: Seq<Seq<char>>, padded: Seq<char>) -> Option<int>
    decreases prefixes.len(),
{
    if prefixes.len() == 0 {
        None
    } else if is_prefix(prefixes[0], padded) {
        Some(0int)
    } else {
        match first_match(prefixes.drop_first(), padded) {
            None => None,
            Some(j) => Some(j + 1),
        }
    }
}

/// Routing picks exactly the first matching registration, never a
/// longer or later one: a match at `i` means the prefix at `i` claims
/// the padded URI and no earlier prefix does; no match means no
/// registered prefix claims it at all, and the 404 answer is owed.
pub proof fn lemma_first_match_is_first(prefixes: Seq<Seq<char>>, padded: Seq<char>)
    ensures
        first_match(prefixes, padded) matches Some(i) ==> (0 <= i < prefixes.len() && is_prefix(
            prefixes[i],
            padded,
        ) && forall|j: int| 0 <= j < i ==> !is_prefix(#[trigger] prefixes[j], padded)),
        first_match(prefixes, padded) is None ==> forall|j: int|
            0 <= j < prefixes.len() ==> !is_prefix(#[trigger] prefixes[j], padded),
    decreases prefixes.len(),
{
    if prefixes.len() == 0 {
    } else if is_prefix(prefixes[0], padded) {
    } else {
        lemma_first_match_is_first(prefixes.drop_first(), padded);
        assert(forall|j: int| 1 <= j < prefixes.len() ==> prefixes.drop_first()[j - 1]
            == #[trigger] prefixes[j]);
    }
}

/// The exact bytes of the response sent for a request no registered
/// prefix claims.
pub open spec fn spec_404_bytes() -> Seq<char> {
    version_token(Version::Http1_1) + " "@ + "404 Resource Not Found"@ + "\r\n\r\n"@
        + crate::errors::spec_html_wrap("(404) "@ + "Could not tie to an app."@)
}

/// What delivery yields for one sub-application outcome: a success is
/// serialized and reported as handled; a normal-severity error is
/// serialized as its error response and still reported; a fatal or
/// abortion error produces no bytes at all.
pub open spec fn spec_deliver_post(
    outcome: Result<Response, OxidarError>,
    r: (Option<String>, Result<(), OxidarError>),
) -> bool {
    match outcome {
        Ok(resp) => {
            &&& r.1 is Ok
            &&& r.0 matches Some(b) && b@ == spec_build_response(resp)
        },
        Err(e) => {
            &&& r.1 matches Err(e2) && e2 == e
            &&& match e {
                OxidarError::Normal(inner) => r.0 matches Some(b) && (exists|body: Seq<char>|
                    b@ == version_token(Version::Http1_1) + " "@ + spec_status_str(inner)
                        + "\r\n\r\n"@ + body && spec_error_body_ok(inner, body)),
                _ => r.0 is None,
            }
        },
    }
}

/// Turns one sub-application outcome into the bytes owed to the client
/// and the verdict reported to the caller.
pub fn deliver(outcome: Result<Response, OxidarError>) -> (r: (
    Option<String>,
    Result<(), OxidarError>,
))
    ensures
        spec_deliver_post(outcome, r),
{
    match outcome {
        Ok(response) => (Some(response.build_response()), Ok(())),
        Err(err) => {
            match err.to_response() {
                Some(response) => {
                    let bytes = response.build_response();
                    proof {
                        match &err {
                            OxidarError::Normal(inner) => {
                                assert(bytes@ == version_token(Version::Http1_1) + " "@
                                    + spec_status_str(*inner) + "\r\n\r\n"@
                                    + crate::server::response::spec_body(response.content));
                            },
                            _ => {
                            },
                        }
                    }
                    (Some(bytes), Err(err))
                },
                None => (None, Err(err)),
            }
        },
    }
}

/// Relies on `std::io::Stdout::write_fmt`, through the `writeln`
/// macro, to print one line to the terminal sink; failures to print
/// are ignored.
#[verifier::external_body]
fn emit_line(line: &str) {
    let _ = writeln!(std::io::stdout(), "{}", line);
}

/// The level token a log line begins with.
pub open spec fn spec_level_token(level: LogMethod) -> Seq<char> {
    match level {
        LogMethod::Info => "\x1b[34mINFO:"@,
        LogMethod::Warning => "\x1b[33mWARNING:"@,
        LogMethod::Error => "\x1b[31mERROR:"@,
    }
}

/// The full text of a log line: the colored level token, a space, and
/// the message.
pub open spec fn spec_log_line(level: LogMethod, m: Seq<char>) -> Seq<char> {
    spec_level_token(level) + "\x1b[0m"@ + " "@ + m
}

/// Formats one log line from its level and message.
pub fn log_line(level: LogMethod, message: &str) -> (r: String)
    ensures
        r@ == spec_log_line(level, message@),
{
    let token = match level {
        LogMethod::Info => "\x1b[34mINFO:",
        LogMethod::Warning => "\x1b[33mWARNING:",
        LogMethod::Error => "\x1b[31mERROR:",
    };
    let mut line = String::from_str(token);
    line.append("\x1b[0m");
    line.append(" ");
    line.append(message);
    line
}

impl<A> Oxidar<A> {
    /// A server over the given registrations and configuration; the
    /// registration order is kept, and it decides routing priority.
    pub fn new(
        apps: Vec<AppReg<A>>,
        socket_addr: &'static str,
        threads: usize,
        log_method: LogStyle,
        debug: bool,
    ) -> (r: Self)
        ensures
            r.apps == apps,
            r.socket_addr == socket_addr,
            r.threads == threads,
            r.log_method == log_method,
            r.debug == debug,
    {
        let oxidar = Self { apps, threads, socket_addr, log_method, debug };
        oxidar.log("Oxidar app created.");
        oxidar
    }

    /// Logs at the Info level.
    pub fn log(&self, m: &str) {
        let level = LogMethod::Info;
        self.create_log(m, level)
    }

    /// Logs at the Warning level.
    pub fn logw(&self, m: &str) {
        let level = LogMethod::Warning;
        self.create_log(m, level)
    }

    /// Logs at the Error level.
    pub fn loge(&self, m: &str) {
        let level = LogMethod::Error;
        self.create_log(m, level)
    }

    /// Formats a log line and prints it whenever the configured sink
    /// includes the terminal. Logging never affects control flow.
    pub fn create_log(&self, message: &str, level: LogMethod) {
        let line = log_line(level, message);
        match self.log_method {
            LogStyle::Terminal | LogStyle::TerminalFile(..) => emit_line(line.as_str()),
            LogStyle::File(..) => (),
        }
    }

    /// The index of the sub-application serving the padded URI: the
    /// first registered prefix the URI starts with, if any.
    pub fn match_app(&self, padded_uri: &str) -> (r: Option<usize>)
        ensures
            r matches Some(i) ==> i < self.apps@.len() && first_match(
                prefixes_view(self.apps@),
                padded_uri@,
            ) == Some(i as int),
            r is None ==> first_match(prefixes_view(self.apps@), padded_uri@) is None,
    {
        let ghost prefixes = prefixes_view(self.apps@);
        let mut i: usize = 0;
        proof {
            assert(prefixes.skip(0) =~= prefixes);
        }
        while i < self.apps.len()
            invariant
                i <= self.apps@.len(),
                prefixes == prefixes_view(self.apps@),
                forall|j: int| #![auto] 0 <= j < prefixes.len() ==> prefixes[j] == self.apps@[j].0@,
                first_match(prefixes.skip(i as int), padded_uri@) matches Some(j) ==> first_match(
                    prefixes,
                    padded_uri@,
                ) == Some(j + i),
                first_match(prefixes.skip(i as int), padded_uri@) is None ==> first_match(
                    prefixes,
                    padded_uri@,
                ) is None,
            decreases self.apps@.len() - i,
        {
            proof {
                assert(prefixes.skip(i as int)[0] == prefixes[i as int]);
                assert(prefixes.skip(i as int).drop_first() =~= prefixes.skip(i as int + 1));
            }
            if starts_with(padded_uri, self.apps[i].0.as_str()) {
                return Some(i);
            }
            i += 1;
        }
        proof {
            assert(prefixes.skip(i as int).len() == 0);
        }
        None
    }

    /// Routes one parsed request and computes the delivery. The URI is
    /// padded with a trailing slash and matched against the registered
    /// prefixes in registration order; with no match, the 404 response
    /// is owed — its exact bytes are fixed and no sub-application is
    /// consulted. With a match, the first-matching registration's
    /// sub-application decides the outcome — the delivered outcome is
    /// one its `respond` permits for this very request — and whatever
    /// it decides is delivered as [`spec_deliver_post`] says.
    pub fn route_to_app(&self, request: Request) -> (r: (Option<String>, Result<(), OxidarError>))
        where A: Respond
        ensures
            first_match(prefixes_view(self.apps@), request.uri@ + "/"@) is None ==> (r.1 is Ok
                && (r.0 matches Some(b) && b@ == spec_404_bytes())),
            first_match(prefixes_view(self.apps@), request.uri@ + "/"@) matches Some(i)
                ==> exists|o: Result<Response, OxidarError>|
                call_ensures(A::respond, (&self.apps@[i].1, self, request), o)
                    && spec_deliver_post(o, r),
    {
        let mut processing = String::from_str("Processing: ");
        processing.append(request.method.as_str());
        processing.append(" ");
        processing.append(request.uri.as_str());
        self.log(processing.as_str());

        let mut padded = request.uri.clone();
        padded.append("/");

        match self.match_app(padded.as_str()) {
            Some(i) => {
                let ghost req0 = request;
                let outcome = self.apps[i].1.respond(self, request);
                let ghost o = outcome;
                let r = deliver(outcome);
                proof {
                    assert(call_ensures(A::respond, (&self.apps@[i as int].1, self, req0), o));
                    assert(spec_deliver_post(o, r));
                }
                r
            },
            None => {
                let e404 = OxidarError::http_404(
                    Some(String::from_str("Could not tie to an app.")),
                );
                match e404.to_response() {
                    Some(response) => {
                        let bytes = response.build_response();
                        proof {
                            assert(bytes@ =~= spec_404_bytes());
                        }
                        (Some(bytes), Ok(()))
                    },
                    None => unreached(),
                }
            },
        }
    }

    /// The per-connection pipeline on the lines read from one
    /// connection: parse them into a request, then route and deliver.
    /// A parse failure owes the client nothing and is handed back as
    /// the exact fatally classified error the input earns.
    pub fn handle_connection(&self, lines: &Vec<String>) -> (r: (
        Option<String>,
        Result<(), OxidarError>,
    ))
        where A: Respond
        ensures
            spec_parse_request(strs_view(lines@)) matches Err(msg) ==> (r.0 is None && (r.1
                matches Err(e) && (e matches OxidarError::Fatal(i) && i matches Error::Untyped(s)
                && s@ == msg))),
            spec_parse_request(strs_view(lines@)) matches Ok(m) ==> (first_match(
                prefixes_view(self.apps@),
                m.uri + "/"@,
            ) is None ==> (r.1 is Ok && (r.0 matches Some(b) && b@ == spec_404_bytes()))),
            spec_parse_request(strs_view(lines@)) matches Ok(m) ==> (first_match(
                prefixes_view(self.apps@),
                m.uri + "/"@,
            ) matches Some(i) ==> exists|req: Request, o: Result<Response, OxidarError>|
                req_matches(req, m) && call_ensures(A::respond, (&self.apps@[i].1, self, req), o)
                    && spec_deliver_post(o, r)),
    {
        match parse_request(lines) {
            Err(e) => (None, Err(e)),
            Ok(request) => {
                let ghost req0 = request;
                let r = self.route_to_app(request);
                proof {
                    match spec_parse_request(strs_view(lines@)) {
                        Ok(m) => {
                            assert(req0.uri@ == m.uri);
                            match first_match(prefixes_view(self.apps@), m.uri + "/"@) {
                                Some(i) => {
                                    let o = choose|o: Result<Response, OxidarError>|
                                        call_ensures(
                                            A::respond,
                                            (&self.apps@[i].1, self, req0),
                                            o,
                                        ) && spec_deliver_post(o, r);
                                    assert(req_matches(req0, m) && call_ensures(
                                        A::respond,
                                        (&self.apps@[i].1, self, req0),
                                        o,
                                    ) && spec_deliver_post(o, r));
                                },
                                None => {
                                },
                            }
                        },
                        Err(_) => {
                        },
                    }
                }
                r
            },
        }
    }
}

} // verus!
