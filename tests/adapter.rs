use json_adapter::{reply, respond, Fault, Handler, Outcome, Reply, RUNTIME_ERROR, STATUS_OK};
use serde_json::Value;

struct Input {
    n: i64,
}

fn decode(bytes: Vec<u8>) -> Option<Input> {
    let v: Value = serde_json::from_slice(&bytes).ok()?;
    let n = v.get("n")?.as_i64()?;
    Some(Input { n })
}

fn encode(v: Value) -> Option<Vec<u8>> {
    serde_json::to_vec(&v).ok()
}

fn render(e: &'static str) -> String {
    e.to_string()
}

fn double(req: Input) -> Result<Value, &'static str> {
    if req.n >= 0 {
        let mut m = serde_json::Map::new();
        m.insert("double".to_string(), Value::from(req.n * 2));
        Ok(Value::Object(m))
    } else {
        Err("negative")
    }
}

fn submit(body: &str) -> Reply {
    respond(double, Some(body.as_bytes().to_vec()), decode, encode, render).unwrap()
}

#[test]
fn doubles_non_negative_input() {
    let r = submit("{\"n\": 5}");
    assert_eq!(r.status, 200);
    assert_eq!(r.body, b"{\"double\":10}".to_vec());
}

#[test]
fn handler_error_is_rendered_as_text() {
    let r = submit("{\"n\": -3}");
    assert_eq!(r.status, 200);
    assert_eq!(r.body, b"negative".to_vec());
}

#[test]
fn malformed_json_is_runtime_error() {
    let r = submit("not json");
    assert_eq!(r.status, 200);
    assert_eq!(r.body, b"Runtime error".to_vec());
}

#[test]
fn missing_field_is_runtime_error() {
    let r = submit("{}");
    assert_eq!(r.status, 200);
    assert_eq!(r.body, b"Runtime error".to_vec());
}

#[test]
fn wrong_shape_is_runtime_error() {
    let r = submit("{\"n\": \"five\"}");
    assert_eq!(r.status, 200);
    assert_eq!(r.body, b"Runtime error".to_vec());
}

#[test]
fn zero_is_a_success() {
    let r = submit("{\"n\": 0}");
    assert_eq!(r.status, 200);
    assert_eq!(r.body, b"{\"double\":0}".to_vec());
}

#[test]
fn unreadable_body_aborts() {
    let r = respond(double, None, decode, encode, render);
    assert!(matches!(r, Err(Fault::BodyUnreadable)));
}

#[test]
fn unencodable_value_is_runtime_error() {
    let r = respond(double, Some(b"{\"n\": 1}".to_vec()), decode, |_v: Value| None, render).unwrap();
    assert_eq!(r.status, 200);
    assert_eq!(r.body, b"Runtime error".to_vec());
}

#[test]
fn handler_sees_the_decoded_value() {
    let seen = std::cell::Cell::new(0i64);
    let calls = std::cell::Cell::new(0u32);
    let h = |req: Input| -> Result<Value, &'static str> {
        seen.set(req.n);
        calls.set(calls.get() + 1);
        Ok(Value::Null)
    };
    let r = respond(h, Some(b"{\"n\": 42}".to_vec()), decode, encode, render).unwrap();
    assert_eq!(seen.get(), 42);
    assert_eq!(calls.get(), 1);
    assert_eq!(r.body, b"null".to_vec());
}

#[test]
fn handler_not_called_on_malformed_input() {
    let calls = std::cell::Cell::new(0u32);
    let h = |_req: Input| -> Result<Value, &'static str> {
        calls.set(calls.get() + 1);
        Ok(Value::Null)
    };
    let r = respond(h, Some(b"{".to_vec()), decode, encode, render).unwrap();
    assert_eq!(calls.get(), 0);
    assert_eq!(r.body, b"Runtime error".to_vec());
}

#[test]
fn requests_get_their_own_replies() {
    let a = submit("{\"n\": 7}");
    let b = submit("{\"n\": -1}");
    let c = submit("{\"n\": 8}");
    assert_eq!(a.body, b"{\"double\":14}".to_vec());
    assert_eq!(b.body, b"negative".to_vec());
    assert_eq!(c.body, b"{\"double\":16}".to_vec());
}

#[test]
fn closure_is_a_handler() {
    let add_one = |x: i64| -> Result<i64, String> { Ok(x + 1) };
    assert_eq!(Handler::call(add_one, 4), Ok(5));
    let fail = |_x: i64| -> Result<i64, String> { Err("no".to_string()) };
    assert_eq!(Handler::call(fail, 4), Err("no".to_string()));
}

#[test]
fn reply_for_each_outcome() {
    let r = reply(Outcome::Undecodable);
    assert_eq!((r.status, r.body), (STATUS_OK, RUNTIME_ERROR.as_bytes().to_vec()));
    let r = reply(Outcome::Unencodable);
    assert_eq!((r.status, r.body), (200, b"Runtime error".to_vec()));
    let r = reply(Outcome::Encoded(b"[1,2]".to_vec()));
    assert_eq!((r.status, r.body), (200, b"[1,2]".to_vec()));
    let r = reply(Outcome::Failed("bad: \u{e9}".to_string()));
    assert_eq!((r.status, r.body), (200, "bad: \u{e9}".as_bytes().to_vec()));
    let r = reply(Outcome::Encoded(Vec::new()));
    assert_eq!((r.status, r.body), (200, Vec::new()));
}
