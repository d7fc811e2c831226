//! Sub-applications and their registration under a path prefix.
//!
//! The server core never looks inside a sub-application: it only calls
//! the [`Respond`] contract of whatever was registered and takes back a
//! response or an error.

use crate::errors::OxidarError;
use crate::server::http::Version;
use crate::server::request::Request;
use crate::server::response::{Response, ResponseContent};
use crate::server::Oxidar;
use vstd::prelude::*;

verus! {

/// The sub-application contract: given the server and one parsed
/// request, produce a response or an error. It must be total — a
/// handler never leaves a connection without either — which the result
/// type enforces; nothing else is promised about what a handler does.
pub trait Respond: Sized {
    fn respond(&self, oxidar: &Oxidar<Self>, request: Request) -> Result<Response, OxidarError>;
}

/// A registered prefix: the normalized path (leading and trailing
/// slash enforced) and the sub-application that owns everything under
/// it.
pub struct AppReg<A>(pub String, pub A);

/// A path with a leading and a trailing slash enforced.
pub open spec fn spec_normalize_prefix(p: Seq<char>) -> Seq<char> {
    let lead = if p.len() == 0 || p[0] != '/' {
        seq!['/'] + p
    } else {
        p
    };
    if lead.last() != '/' {
        lead + seq!['/']
    } else {
        lead
    }
}

impl<A> AppReg<A> {
    /// Registers `app` under `path`, normalizing the prefix to begin
    /// and end with `/`.
    pub fn p(path: &str, app: A) -> (r: AppReg<A>)
        ensures
            r.0@ == spec_normalize_prefix(path@),
            r.1 == app,
    {
        let n: usize = path.unicode_len();
        let mut p = String::new();
        if n == 0 || path.get_char(0) != '/' {
            p.append("/");
        }
        p.append(path);
        proof {
            reveal_strlit("/");
            if path@.len() == 0 || path@[0] != '/' {
                assert(p@ =~= seq!['/'] + path@);
            } else {
                assert(p@ =~= path@);
            }
        }
        let m: usize = p.unicode_len();
        if p.get_char(m - 1) != '/' {
            p.append("/");
            proof {
                reveal_strlit("/");
            }
        }
        AppReg(p, app)
    }
}

/// One view route inside the default sub-application: a path and the
/// view serving it. The core never calls a view — view dispatch is a
/// sub-application's own business — so the view's type is left to the
/// caller.
pub struct ViewReg<V>(pub String, pub V);

impl<V> ViewReg<V> {
    /// Registers a view under a path.
    pub fn p(path: &str, view: V) -> (r: ViewReg<V>)
        ensures
            r.0@ == path@,
            r.1 == view,
    {
        ViewReg(String::from_str(path), view)
    }
}

/// The default sub-application: it records its view routes, and its
/// `respond` currently acknowledges every request with the same
/// success page (view dispatch is not part of the server core).
pub struct App<V> {
    pub urls: Vec<ViewReg<V>>,
}

impl<V> App<V> {
    /// A sub-application over the given view routes.
    pub fn new(urls: Vec<ViewReg<V>>) -> (r: App<V>)
        ensures
            r.urls == urls,
    {
        App { urls }
    }

    /// The fixed success answer the default sub-application gives.
    pub fn ok_response(&self) -> (r: Result<Response, OxidarError>)
        ensures
            r matches Ok(resp) && (resp.version == Version::Http1_1 && resp.status@
                == "200 OK"@ && (resp.content matches ResponseContent::Html(b) && b@
                == "WE HAVE SOME SUCCESS"@)),
    {
        Ok(
            Response {
                version: Version::Http1_1,
                status: "200 OK",
                content: ResponseContent::Html(String::from_str("WE HAVE SOME SUCCESS")),
            },
        )
    }
}

impl<V> Respond for App<V> {
    /// Answers every request with the fixed success page.
    fn respond(&self, _oxidar: &Oxidar<App<V>>, _request: Request) -> Result<
        Response,
        OxidarError,
    > {
        self.ok_response()
    }
}

} // verus!
