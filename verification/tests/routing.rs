use oxidar::errors::OxidarError;
use oxidar::server::app::{App, AppReg, Respond, ViewReg};
use oxidar::server::http::Version;
use oxidar::server::request::Request;
use oxidar::server::response::{Response, ResponseContent};
use oxidar::server::{LogStyle, Oxidar};

/// A sub-application answering every request with a fixed HTML body.
struct TagApp(&'static str);

impl Respond for TagApp {
    fn respond(&self, _oxidar: &Oxidar<TagApp>, _request: Request) -> Result<Response, OxidarError> {
        Ok(Response {
            version: Version::Http1_1,
            status: "200 OK",
            content: ResponseContent::Html(self.0.to_string()),
        })
    }
}

/// A sub-application that must never be reached.
struct PanicApp;

impl Respond for PanicApp {
    fn respond(
        &self,
        _oxidar: &Oxidar<PanicApp>,
        _request: Request,
    ) -> Result<Response, OxidarError> {
        panic!("the handler must not be invoked for an unmatched path");
    }
}

fn server_with<A>(regs: Vec<AppReg<A>>) -> Oxidar<A> {
    Oxidar::new(regs, "127.0.0.1:0", 1, LogStyle::File("unused.log".to_string()), false)
}

fn lines(raw: &[&str]) -> Vec<String> {
    raw.iter().map(|s| s.to_string()).collect()
}

#[test]
fn prefix_registration_normalizes_slashes() {
    let reg = AppReg::p("app1", TagApp("a"));
    assert_eq!(reg.0, "/app1/");
    let reg = AppReg::p("/app2", TagApp("a"));
    assert_eq!(reg.0, "/app2/");
    let reg = AppReg::p("app3/", TagApp("a"));
    assert_eq!(reg.0, "/app3/");
    let reg = AppReg::p("/app4/", TagApp("a"));
    assert_eq!(reg.0, "/app4/");
    let reg = AppReg::p("", TagApp("a"));
    assert_eq!(reg.0, "/");
}

#[test]
fn first_registered_prefix_wins_over_longer_one() {
    let server = server_with(vec![
        AppReg::p("/a/", TagApp("first")),
        AppReg::p("/a/b/", TagApp("second")),
    ]);
    assert_eq!(server.match_app("/a/b/x/"), Some(0));
    let (bytes, verdict) = server.handle_connection(&lines(&["GET /a/b/x HTTP/1.1", ""]));
    assert!(verdict.is_ok());
    assert_eq!(bytes.unwrap(), "HTTP/1.1 200 OK\r\n\r\nfirst");
}

#[test]
fn longer_prefix_is_reached_when_registered_first() {
    let server = server_with(vec![
        AppReg::p("/a/b/", TagApp("second")),
        AppReg::p("/a/", TagApp("first")),
    ]);
    assert_eq!(server.match_app("/a/b/x/"), Some(0));
    let (bytes, verdict) = server.handle_connection(&lines(&["GET /a/b/x HTTP/1.1", ""]));
    assert!(verdict.is_ok());
    assert_eq!(bytes.unwrap(), "HTTP/1.1 200 OK\r\n\r\nsecond");
}

#[test]
fn matching_pads_the_uri_with_a_trailing_slash() {
    let server = server_with(vec![AppReg::p("/app1/", TagApp("ok"))]);
    // The padded URI "/app1/" matches the prefix exactly.
    let (bytes, verdict) = server.handle_connection(&lines(&["GET /app1 HTTP/1.1", ""]));
    assert!(verdict.is_ok());
    assert_eq!(bytes.unwrap(), "HTTP/1.1 200 OK\r\n\r\nok");
}

#[test]
fn end_to_end_success_yields_exact_wire_bytes() {
    let server = server_with(vec![AppReg::p("/app1/", TagApp("ok"))]);
    let (bytes, verdict) =
        server.handle_connection(&lines(&["GET /app1/resource HTTP/1.1", "Host: x", ""]));
    assert!(verdict.is_ok());
    assert_eq!(bytes.unwrap(), "HTTP/1.1 200 OK\r\n\r\nok");
}

#[test]
fn unregistered_path_yields_404_and_never_invokes_a_handler() {
    let server = server_with(vec![AppReg::p("/app1/", PanicApp)]);
    let (bytes, verdict) = server.handle_connection(&lines(&["GET /elsewhere HTTP/1.1", ""]));
    assert!(verdict.is_ok());
    assert_eq!(
        bytes.unwrap(),
        "HTTP/1.1 404 Resource Not Found\r\n\r\n<h1 style='text-align: center'>(404) Could not tie to an app.</h1>"
    );
}

#[test]
fn no_registrations_always_404() {
    let server = server_with(Vec::<AppReg<TagApp>>::new());
    let (bytes, verdict) = server.handle_connection(&lines(&["GET / HTTP/1.1", ""]));
    assert!(verdict.is_ok());
    assert!(bytes
        .unwrap()
        .starts_with("HTTP/1.1 404 Resource Not Found\r\n\r\n"));
}

#[test]
fn parse_failure_writes_nothing() {
    let server = server_with(vec![AppReg::p("/app1/", PanicApp)]);
    let (bytes, verdict) = server.handle_connection(&lines(&["GET /app1", ""]));
    assert!(bytes.is_none());
    assert!(verdict.is_err());
}

#[test]
fn handler_error_is_delivered_as_error_response() {
    struct FailApp;
    impl Respond for FailApp {
        fn respond(
            &self,
            _oxidar: &Oxidar<FailApp>,
            _request: Request,
        ) -> Result<Response, OxidarError> {
            Err(OxidarError::http_404(Some("gone".to_string())))
        }
    }
    let server = server_with(vec![AppReg::p("/app1/", FailApp)]);
    let (bytes, verdict) = server.handle_connection(&lines(&["GET /app1/x HTTP/1.1", ""]));
    assert!(verdict.is_err());
    assert_eq!(
        bytes.unwrap(),
        "HTTP/1.1 404 Resource Not Found\r\n\r\n<h1 style='text-align: center'>(404) gone</h1>"
    );
}

#[test]
fn abortion_error_is_delivered_without_bytes() {
    struct AbortApp;
    impl Respond for AbortApp {
        fn respond(
            &self,
            _oxidar: &Oxidar<AbortApp>,
            _request: Request,
        ) -> Result<Response, OxidarError> {
            Err(OxidarError::Abortion(oxidar::errors::Error::Untyped("dropped".to_string())))
        }
    }
    let server = server_with(vec![AppReg::p("/app1/", AbortApp)]);
    let (bytes, verdict) = server.handle_connection(&lines(&["GET /app1/x HTTP/1.1", ""]));
    assert!(bytes.is_none());
    assert!(verdict.is_err());
}

#[test]
fn default_app_answers_with_its_fixed_page() {
    let views: Vec<ViewReg<fn() -> ()>> = vec![ViewReg::p("/", noop_view)];
    let app = App::new(views);
    let server = server_with(vec![AppReg::p("/app1/", app)]);
    let (bytes, verdict) = server.handle_connection(&lines(&["GET /app1/x HTTP/1.1", ""]));
    assert!(verdict.is_ok());
    assert_eq!(bytes.unwrap(), "HTTP/1.1 200 OK\r\n\r\nWE HAVE SOME SUCCESS");
}

fn noop_view() {}

#[test]
fn server_construction_keeps_its_configuration() {
    let server = server_with(vec![AppReg::p("/app1/", TagApp("x"))]);
    assert_eq!(server.socket_addr, "127.0.0.1:0");
    assert_eq!(server.threads, 1);
    assert_eq!(server.apps.len(), 1);
    assert!(!server.debug);
}
