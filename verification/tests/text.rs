use oxidar::server::{LogMethod, LogStyle, Oxidar};
use oxidar::server::app::AppReg;
use oxidar::text::{starts_with, to_upper, upper_eq};

#[test]
fn upper_cases_ascii_letters_only() {
    assert_eq!(to_upper('a'), 'A');
    assert_eq!(to_upper('z'), 'Z');
    assert_eq!(to_upper('G'), 'G');
    assert_eq!(to_upper('/'), '/');
    assert_eq!(to_upper('é'), 'é');
}

#[test]
fn upper_eq_compares_case_insensitively_against_the_table_form() {
    assert!(upper_eq("get", "GET"));
    assert!(upper_eq("GeT", "GET"));
    assert!(!upper_eq("got", "GET"));
    assert!(!upper_eq("GETX", "GET"));
    assert!(!upper_eq("GET", "get"));
}

#[test]
fn starts_with_checks_character_prefixes() {
    assert!(starts_with("/a/b/x/", "/a/"));
    assert!(starts_with("/a/", "/a/"));
    assert!(!starts_with("/a", "/a/"));
    assert!(!starts_with("/b/x/", "/a/"));
    assert!(starts_with("anything", ""));
}

#[test]
fn terminal_logging_does_not_disturb_the_server() {
    let server: Oxidar<()> = Oxidar::new(
        Vec::<AppReg<()>>::new(),
        "127.0.0.1:0",
        2,
        LogStyle::Terminal,
        true,
    );
    server.log("info line");
    server.logw("warning line");
    server.loge("error line");
    server.create_log("explicit line", LogMethod::Warning);
    assert_eq!(server.threads, 2);
}
