use dumpsys_rs::error::Error;
use dumpsys_rs::resolve_dump_status;
use dumpsys_rs::to_dump_args;

#[test]
fn success_status_returns_the_exact_text() {
    let text = "Visible recent tasks: ...".to_owned();
    let r = resolve_dump_status(text, 0);
    assert_eq!(r.unwrap(), "Visible recent tasks: ...");
}

#[test]
fn success_status_keeps_empty_output_empty() {
    let r = resolve_dump_status(String::new(), 0);
    assert_eq!(r.unwrap(), "");
}

#[test]
fn non_ok_status_is_authoritative_over_partial_bytes() {
    match resolve_dump_status("partial bytes were written".to_owned(), -32) {
        Err(Error::DumpStatus(code)) => assert_eq!(code, -32),
        _ => panic!("a non-success status must fail the dump with that status"),
    }
}

#[test]
fn each_non_ok_code_is_propagated_verbatim() {
    for code in [-1, 1, 7, i32::MIN, i32::MAX] {
        match resolve_dump_status("ignored".to_owned(), code) {
            Err(Error::DumpStatus(c)) => assert_eq!(c, code),
            _ => panic!("expected the status code to come back verbatim"),
        }
    }
}

#[test]
fn error_messages_name_the_condition() {
    assert_eq!(Error::NoEntryFound.message(), "no such entry found in the cache");
    assert_eq!(Error::ServiceNotExist.message(), "service not exist");
    assert!(!Error::InvalidMethod.message().is_empty());
    assert!(!Error::DumpStatus(-32).message().is_empty());
    let gone = Error::IO(std::io::Error::new(std::io::ErrorKind::BrokenPipe, "worker gone"));
    assert_eq!(gone.message(), "i/o failure on the dump pipe or the worker");
}

#[test]
fn dump_args_keep_every_element_in_order() {
    let args = ["recents", "", "--verbose", "recents"];
    let owned = to_dump_args(&args);
    assert_eq!(owned, vec!["recents", "", "--verbose", "recents"]);
}

#[test]
fn no_arguments_stay_no_arguments() {
    let owned = to_dump_args(&[]);
    assert!(owned.is_empty());
}
