use oxidar::errors::{Error, OxidarError};
use oxidar::server::http::Version;
use oxidar::server::response::{Response, ResponseContent};
use oxidar::server::{log_line, LogMethod};

#[test]
fn status_lines_per_kind() {
    assert_eq!(Error::Untyped("x".to_string()).status_str(), "500 Server Error");
    let io = std::io::Error::new(std::io::ErrorKind::Other, "boom");
    assert_eq!(Error::Io(io).status_str(), "500 Server Error");
    assert_eq!(Error::Http404(None).status_str(), "404 Resource Not Found");
}

#[test]
fn messages_per_kind() {
    assert_eq!(Error::Untyped("boom".to_string()).message(), "(Untyped) boom");
    assert_eq!(Error::Http404(Some("gone".to_string())).message(), "(404) gone");
    assert_eq!(Error::Http404(None).message(), "(404) Resource Not Found");
    let io = std::io::Error::new(std::io::ErrorKind::Other, "disk");
    assert!(Error::Io(io).message().starts_with("(IO) "));
}

#[test]
fn severity_labels_in_messages() {
    assert_eq!(
        OxidarError::Fatal(Error::Untyped("x".to_string())).message(),
        "Fatal Error (Untyped) x"
    );
    assert_eq!(
        OxidarError::Abortion(Error::Http404(None)).message(),
        "Abortion Error (404) Resource Not Found"
    );
    assert_eq!(
        OxidarError::Normal(Error::Untyped("y".to_string())).message(),
        "Normal Error (Untyped) y"
    );
}

#[test]
fn fatal_produces_no_response() {
    let err = OxidarError::Fatal(Error::Untyped("x".to_string()));
    assert!(err.to_response().is_none());
}

#[test]
fn abortion_produces_no_response() {
    let err = OxidarError::Abortion(Error::Untyped("x".to_string()));
    assert!(err.to_response().is_none());
}

#[test]
fn normal_produces_a_response() {
    let err = OxidarError::Normal(Error::Untyped("boom".to_string()));
    let resp = err.to_response().expect("a normal error owes a response");
    assert!(matches!(resp.version, Version::Http1_1));
    assert_eq!(resp.status, "500 Server Error");
    match resp.content {
        ResponseContent::Html(body) => {
            assert_eq!(body, "<h1 style='text-align: center'>(Untyped) boom</h1>");
        }
        ResponseContent::Json(_) => panic!("an error response body is HTML"),
    }
}

#[test]
fn normal_404_response_bytes() {
    let err = OxidarError::http_404(Some("Could not tie to an app.".to_string()));
    let resp = err.to_response().unwrap();
    assert_eq!(
        resp.build_response(),
        "HTTP/1.1 404 Resource Not Found\r\n\r\n<h1 style='text-align: center'>(404) Could not tie to an app.</h1>"
    );
}

#[test]
fn fio_passes_success_through() {
    let r: Result<u32, std::io::Error> = Ok(7);
    assert_eq!(OxidarError::fio(r).unwrap(), 7);
}

#[test]
fn fio_wraps_io_failures_fatally() {
    let r: Result<u32, std::io::Error> =
        Err(std::io::Error::new(std::io::ErrorKind::Other, "bind failed"));
    match OxidarError::fio(r).unwrap_err() {
        OxidarError::Fatal(Error::Io(_)) => {}
        other => panic!("wrong classification: {:?}", other),
    }
}

#[test]
fn aio_wraps_io_failures_as_abortion() {
    let r: Result<u32, std::io::Error> =
        Err(std::io::Error::new(std::io::ErrorKind::Other, "write failed"));
    match OxidarError::aio(r).unwrap_err() {
        OxidarError::Abortion(Error::Io(_)) => {}
        other => panic!("wrong classification: {:?}", other),
    }

    let ok: Result<u32, std::io::Error> = Ok(3);
    assert_eq!(OxidarError::aio(ok).unwrap(), 3);
}

#[test]
fn abort_std_is_fatal_untyped() {
    match OxidarError::abort_std("oops".to_string()) {
        OxidarError::Fatal(Error::Untyped(msg)) => assert_eq!(msg, "oops"),
        other => panic!("wrong shape: {:?}", other),
    }
}

#[test]
fn http_404_is_normal() {
    match OxidarError::http_404(Some("m".to_string())) {
        OxidarError::Normal(Error::Http404(Some(msg))) => assert_eq!(msg, "m"),
        other => panic!("wrong shape: {:?}", other),
    }
}

#[test]
fn response_serialization_shape() {
    let resp = Response {
        version: Version::Http2_0,
        status: "200 OK",
        content: ResponseContent::Json("{\"a\":1}".to_string()),
    };
    assert_eq!(resp.build_response(), "HTTP/2 200 OK\r\n\r\n{\"a\":1}");
}

#[test]
fn content_body_extraction() {
    assert_eq!(ResponseContent::Json("j".to_string()).get_body(), "j");
    assert_eq!(ResponseContent::Html("h".to_string()).get_body(), "h");
}

#[test]
fn log_lines_carry_level_tokens() {
    assert_eq!(log_line(LogMethod::Info, "hello"), "\x1b[34mINFO:\x1b[0m hello");
    assert_eq!(log_line(LogMethod::Warning, "careful"), "\x1b[33mWARNING:\x1b[0m careful");
    assert_eq!(log_line(LogMethod::Error, "bad"), "\x1b[31mERROR:\x1b[0m bad");
}
