use rusty::outcome::{classify, outcome_from_text, Error};

const NOT_TEXT: &str = "captured output is not valid UTF-8";

#[test]
fn success_returns_stdout() {
    let r = classify(true, &b"\"Hi world\"".to_vec(), &b"warning".to_vec());
    assert_eq!(r, Ok("\"Hi world\"".to_string()));
}

#[test]
fn success_with_empty_output() {
    assert_eq!(classify(true, &Vec::new(), &Vec::new()), Ok(String::new()));
}

#[test]
fn failure_returns_stderr() {
    let r = classify(false, &b"ignored".to_vec(), &b"error[E0425]: cannot find value".to_vec());
    assert_eq!(r, Err(Error::Compile("error[E0425]: cannot find value".to_string())));
}

#[test]
fn non_utf8_stdout_is_internal() {
    let r = classify(true, &vec![0xff, 0xfe], &Vec::new());
    assert_eq!(r, Err(Error::Internal(NOT_TEXT.to_string())));
    assert_eq!(r.unwrap_err().status(), 500);
}

#[test]
fn non_utf8_stderr_is_internal() {
    let r = classify(false, &Vec::new(), &vec![0xc3, 0x28]);
    assert_eq!(r, Err(Error::Internal(NOT_TEXT.to_string())));
}

#[test]
fn multibyte_text_is_decoded() {
    let r = classify(true, &"\"héllo ✓\"".as_bytes().to_vec(), &Vec::new());
    assert_eq!(r, Ok("\"héllo ✓\"".to_string()));
}

#[test]
fn outcome_from_text_cases() {
    assert_eq!(outcome_from_text(true, Some("1".to_string()), None), Ok("1".to_string()));
    assert_eq!(outcome_from_text(true, None, Some("e".to_string())), Err(Error::Internal(NOT_TEXT.to_string())));
    assert_eq!(outcome_from_text(false, Some("1".to_string()), Some("e".to_string())), Err(Error::Compile("e".to_string())));
    assert_eq!(outcome_from_text(false, Some("1".to_string()), None), Err(Error::Internal(NOT_TEXT.to_string())));
}

#[test]
fn statuses() {
    assert_eq!(Error::Compile(String::new()).status(), 422);
    assert_eq!(Error::Internal(String::new()).status(), 500);
}
