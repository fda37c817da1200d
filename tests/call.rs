use rusty::broadcast::Broadcaster;
use rusty::call::{complete_call, harness_source, null_data, Call};
use rusty::outcome::Error;
use tokio::sync::broadcast::error::TryRecvError;

const HELLO: &str = "fn main(hello: &str) -> String { format!(\"{hello} world\") }";

#[test]
fn harness_wraps_code_and_argument() {
    let src = harness_source(HELLO, "\"Hi\"");
    assert_eq!(
        src,
        "fn main() -> Result<(), Box<dyn std::error::Error>> { let args = serde_json::from_str(r#\"\"Hi\"\"#)?; fn main(hello: &str) -> String { format!(\"{hello} world\") } println!(\"{}\", serde_json::to_string(&main(args))?); Ok(()) }"
    );
}

#[test]
fn missing_argument_is_null() {
    assert_eq!(null_data(), "null");
    let call = Call::without_data("fn main(():()) {}".to_string());
    assert_eq!(call.data, "null");
    assert_eq!(call.head, "");
    assert!(call.source().contains("from_str(r#\"null\"#)"));
}

#[test]
fn call_source_matches_harness() {
    let call = Call::new(HELLO.to_string(), "\"Hi\"".to_string());
    assert_eq!(call.source(), harness_source(HELLO, "\"Hi\""));
}

#[test]
fn hello_world_result() {
    let b = Broadcaster::new(1024);
    let r = complete_call(&b, true, b"\"Hi world\"\n".to_vec(), &Vec::new());
    assert_eq!(r, Ok("\"Hi world\"\n".to_string()));
}

#[test]
fn printing_is_rejected() {
    let b = Broadcaster::new(1024);
    let stderr = b"error: print to `stdout` doesn't make sense\n".to_vec();
    let r = complete_call(&b, false, Vec::new(), &stderr);
    match r {
        Err(e @ Error::Compile(_)) => {
            assert_eq!(e.status(), 422);
            if let Error::Compile(text) = e {
                assert!(text.contains("print to `stdout` doesn't make sense"));
            }
        }
        other => panic!("expected a compile error, got {:?}", other),
    }
}

#[test]
fn output_published_even_on_failure() {
    let b = Broadcaster::new(1024);
    let mut rx = b.subscribe();
    let r = complete_call(&b, false, b"partial".to_vec(), &b"boom".to_vec());
    assert_eq!(r, Err(Error::Compile("boom".to_string())));
    assert_eq!(rx.try_recv().unwrap(), b"partial".to_vec());
    assert!(matches!(rx.try_recv(), Err(TryRecvError::Empty)));
}

#[test]
fn output_published_on_success() {
    let b = Broadcaster::new(1024);
    let mut rx = b.subscribe();
    let r = complete_call(&b, true, b"Hi world".to_vec(), &Vec::new());
    assert_eq!(r, Ok("Hi world".to_string()));
    assert_eq!(rx.try_recv().unwrap(), b"Hi world".to_vec());
}
