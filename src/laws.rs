use vstd::prelude::*;
use vstd::utf8::encode_utf8;

use crate::adapter::{body_of, handled, reaches, runtime_error_body, Outcome};
use crate::handler::Handler;

verus! {

/// A request value decoded from a body reaches the handler unchanged: where
/// decoding `bytes` yields `req`, every way processing can end goes through
/// a call of the handler on `req` itself.
pub proof fn decoded_value_reaches_handler<Req, Resp, H, D, E, R>(
    handler: H,
    decode: D,
    encode: E,
    render: R,
    bytes: Vec<u8>,
    req: Req,
    o: Outcome,
) where
    H: Handler<Req, Resp>,
    D: FnOnce(Vec<u8>) -> Option<Req>,
    E: FnOnce(Resp) -> Option<Vec<u8>>,
    R: FnOnce(H::Error) -> String,

    requires
        reaches(handler, decode, encode, render, bytes, o),
        forall|d: Option<Req>| call_ensures(decode, (bytes,), d) ==> d == Some(req),
    ensures
        handled(handler, encode, render, req, o),
{
}

/// A well-formed request calls the handler: where decoding `bytes` yields a
/// value, no way processing can end skips the handler.
pub proof fn handler_is_called<Req, Resp, H, D, E, R>(
    handler: H,
    decode: D,
    encode: E,
    render: R,
    bytes: Vec<u8>,
    req: Req,
    o: Outcome,
) where
    H: Handler<Req, Resp>,
    D: FnOnce(Vec<u8>) -> Option<Req>,
    E: FnOnce(Resp) -> Option<Vec<u8>>,
    R: FnOnce(H::Error) -> String,

    requires
        reaches(handler, decode, encode, render, bytes, o),
        forall|d: Option<Req>| call_ensures(decode, (bytes,), d) ==> d == Some(req),
    ensures
        exists|res: Result<Resp, H::Error>| handler.answers(req, res),
{
}

/// A body that does not decode, as JSON or as the request's shape, is
/// answered with the runtime error text.
pub proof fn malformed_input<Req, Resp, H, D, E, R>(
    handler: H,
    decode: D,
    encode: E,
    render: R,
    bytes: Vec<u8>,
    o: Outcome,
) where
    H: Handler<Req, Resp>,
    D: FnOnce(Vec<u8>) -> Option<Req>,
    E: FnOnce(Resp) -> Option<Vec<u8>>,
    R: FnOnce(H::Error) -> String,

    requires
        reaches(handler, decode, encode, render, bytes, o),
        forall|d: Option<Req>| call_ensures(decode, (bytes,), d) ==> d is None,
    ensures
        o == Outcome::Undecodable,
        body_of(o) == runtime_error_body(),
{
}

/// A handler's success value that encodes is answered with exactly its
/// encoding.
pub proof fn success_encoding<Req, Resp, H, E, R>(
    handler: H,
    encode: E,
    render: R,
    req: Req,
    value: Resp,
    json: Vec<u8>,
    o: Outcome,
) where
    H: Handler<Req, Resp>,
    E: FnOnce(Resp) -> Option<Vec<u8>>,
    R: FnOnce(H::Error) -> String,

    requires
        handled(handler, encode, render, req, o),
        forall|res: Result<Resp, H::Error>| handler.answers(req, res) ==> res == Ok::<Resp, H::Error>(value),
        forall|enc: Option<Vec<u8>>| call_ensures(encode, (value,), enc) ==> enc == Some(json),
    ensures
        body_of(o) == json@,
{
}

/// A handler's success value that cannot be encoded is answered with the
/// runtime error text.
pub proof fn unencodable_response<Req, Resp, H, E, R>(
    handler: H,
    encode: E,
    render: R,
    req: Req,
    value: Resp,
    o: Outcome,
) where
    H: Handler<Req, Resp>,
    E: FnOnce(Resp) -> Option<Vec<u8>>,
    R: FnOnce(H::Error) -> String,

    requires
        handled(handler, encode, render, req, o),
        forall|res: Result<Resp, H::Error>| handler.answers(req, res) ==> res == Ok::<Resp, H::Error>(value),
        forall|enc: Option<Vec<u8>>| call_ensures(encode, (value,), enc) ==> enc is None,
    ensures
        body_of(o) == runtime_error_body(),
{
}

/// A handler's failure is answered with exactly the text of its error, with
/// no JSON around it.
pub proof fn error_rendering<Req, Resp, H, E, R>(
    handler: H,
    encode: E,
    render: R,
    req: Req,
    err: H::Error,
    text: String,
    o: Outcome,
) where
    H: Handler<Req, Resp>,
    E: FnOnce(Resp) -> Option<Vec<u8>>,
    R: FnOnce(H::Error) -> String,

    requires
        handled(handler, encode, render, req, o),
        forall|res: Result<Resp, H::Error>| handler.answers(req, res) ==> res == Err::<Resp, H::Error>(err),
        forall|t: String| call_ensures(render, (err,), t) ==> t == text,
    ensures
        body_of(o) == encode_utf8(text@),
{
}

} // verus!
