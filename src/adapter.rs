use vstd::prelude::*;
use vstd::string::StrSliceExecFns;
use vstd::utf8::encode_utf8;

use crate::handler::Handler;

verus! {

/// The body sent for every fault that is not the handler's own.
pub const RUNTIME_ERROR: &'static str = "Runtime error";

/// The status of every response: only the body tells outcomes apart.
pub const STATUS_OK: u16 = 200;

/// A response: a status code and the bytes of its body.
pub struct Reply {
    pub status: u16,
    pub body: Vec<u8>,
}

/// A fault of the transport: the request is aborted and gets no reply.
#[derive(PartialEq, Eq, Structural, Debug, Clone, Copy)]
pub enum Fault {
    /// The request body could not be read.
    BodyUnreadable,
}

/// How the processing of a readable request body ended.
pub enum Outcome {
    /// The body was not JSON, or not JSON of the request's shape.
    Undecodable,
    /// The handler succeeded and its value was encoded to these bytes.
    Encoded(Vec<u8>),
    /// The handler succeeded but its value could not be encoded.
    Unencodable,
    /// The handler failed, and its error reads as this text.
    Failed(String),
}

/// The body sent for a fault of decoding or encoding.
pub open spec fn runtime_error_body() -> Seq<u8> {
    encode_utf8(RUNTIME_ERROR@)
}

/// The body that answers an outcome.
pub open spec fn body_of(o: Outcome) -> Seq<u8> {
    match o {
        Outcome::Undecodable => runtime_error_body(),
        Outcome::Encoded(bytes) => bytes@,
        Outcome::Unencodable => runtime_error_body(),
        Outcome::Failed(text) => encode_utf8(text@),
    }
}

/// Builds the response that answers an outcome: status 200 in every case,
/// and a body that alone tells the outcomes apart.
pub fn reply(o: Outcome) -> (r: Reply)
    ensures
        r.status == STATUS_OK,
        r.body@ == body_of(o),
{
    let body = match o {
        Outcome::Undecodable => RUNTIME_ERROR.as_bytes_vec(),
        Outcome::Encoded(bytes) => bytes,
        Outcome::Unencodable => RUNTIME_ERROR.as_bytes_vec(),
        Outcome::Failed(text) => text.as_str().as_bytes_vec(),
    };
    Reply { status: STATUS_OK, body }
}


/// `o` is how processing can end on the readable body `bytes`: the body is
/// decoded once, the handler is called once on the decoded value, and its
/// success value is encoded once or its error is rendered once.
pub open spec fn reaches<Req, Resp, H, D, E, R>(
    handler: H,
    decode: D,
    encode: E,
    render: R,
    bytes: Vec<u8>,
    o: Outcome,
) -> bool where
    H: Handler<Req, Resp>,
    D: FnOnce(Vec<u8>) -> Option<Req>,
    E: FnOnce(Resp) -> Option<Vec<u8>>,
    R: FnOnce(H::Error) -> String,
 {
    exists|decoded: Option<Req>|
        #![trigger call_ensures(decode, (bytes,), decoded)]
        call_ensures(decode, (bytes,), decoded) && match decoded {
            None => o == Outcome::Undecodable,
            Some(req) => handled(handler, encode, render, req, o),
        }
}

/// `o` is how processing can end once the handler is called on `req`.
pub open spec fn handled<Req, Resp, H, E, R>(
    handler: H,
    encode: E,
    render: R,
    req: Req,
    o: Outcome,
) -> bool where
    H: Handler<Req, Resp>,
    E: FnOnce(Resp) -> Option<Vec<u8>>,
    R: FnOnce(H::Error) -> String,
 {
    exists|res: Result<Resp, H::Error>|
        #![trigger handler.answers(req, res)]
        handler.answers(req, res) && match res {
            Ok(value) => exists|encoded: Option<Vec<u8>>|
                #![trigger call_ensures(encode, (value,), encoded)]
                call_ensures(encode, (value,), encoded) && match encoded {
                    None => o == Outcome::Unencodable,
                    Some(out) => o == Outcome::Encoded(out),
                },
            Err(err) => exists|text: String|
                #![trigger call_ensures(render, (err,), text)]
                call_ensures(render, (err,), text) && o == Outcome::Failed(text),
        }
}

/// Answers one request.
///
/// An unreadable body aborts the request. A readable one is decoded; a body
/// that does not decode is answered with the runtime error text. A decoded
/// value is handed to the handler, once; its success value is encoded as the
/// response body (the runtime error text where encoding fails) and its error
/// is rendered as the body, as plain text.
pub fn respond<Req, Resp, H, D, E, R>(
    handler: H,
    body: Option<Vec<u8>>,
    decode: D,
    encode: E,
    render: R,
) -> (res: Result<Reply, Fault>) where
    H: Handler<Req, Resp>,
    D: FnOnce(Vec<u8>) -> Option<Req>,
    E: FnOnce(Resp) -> Option<Vec<u8>>,
    R: FnOnce(H::Error) -> String,

    requires
        forall|bytes: Vec<u8>| call_requires(decode, (bytes,)),
        forall|bytes: Vec<u8>, req: Req|
            call_ensures(decode, (bytes,), Some(req)) ==> handler.accepts(req),
        forall|value: Resp| call_requires(encode, (value,)),
        forall|err: H::Error| call_requires(render, (err,)),
    ensures
        body is None <==> res == Err::<Reply, Fault>(Fault::BodyUnreadable),
        body is Some ==> res is Ok,
        match (body, res) {
            (Some(bytes), Ok(r)) => r.status == STATUS_OK && exists|o: Outcome|
                #![trigger body_of(o)]
                reaches(handler, decode, encode, render, bytes, o) && r.body@ == body_of(o),
            _ => true,
        },
{
    let bytes = match body {
        None => {
            return Err(Fault::BodyUnreadable);
        },
        Some(bytes) => bytes,
    };
    let decoded = decode(bytes);
    let o = match decoded {
        None => Outcome::Undecodable,
        Some(req) => {
            match handler.call(req) {
                Ok(value) => {
                    match encode(value) {
                        None => Outcome::Unencodable,
                        Some(out) => Outcome::Encoded(out),
                    }
                },
                Err(err) => Outcome::Failed(render(err)),
            }
        },
    };
    Ok(reply(o))
}

} // verus!
