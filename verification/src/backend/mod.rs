//! The backend service: what it answers, and the stand-ins for the
//! components that it reports on.

use vstd::prelude::*;

pub mod api;
pub mod status;

verus! {

/// The text that the backend greets with.
pub open spec fn greeting() -> Seq<char> {
    "Hello from Icare Backend!"@
}

/// What the backend answers on its root path.
pub fn index() -> (r: &'static str)
    ensures
        r@ == greeting(),
{
    "Hello from Icare Backend!"
}

/// The HTTP response with which the backend answers a request: status 200
/// and the greeting as plain text.
pub open spec fn response_text() -> Seq<char> {
    "HTTP/1.1 200 OK\r\nContent-Type: text/plain\r\n\r\n"@ + greeting() + "\r\n"@
}

/// Writes the HTTP response with which the backend answers a request.
pub fn http_response() -> (r: String)
    ensures
        r@ == response_text(),
{
    "HTTP/1.1 200 OK\r\nContent-Type: text/plain\r\n\r\n".to_owned().concat(index()).concat("\r\n")
}

/// The answer to what was read from a connection: a response where
/// something was read, nothing otherwise.
pub fn answer(bytes_read: usize) -> (r: Option<String>)
    ensures
        bytes_read == 0 ==> r is None,
        bytes_read > 0 ==> r is Some && r->Some_0@ == response_text(),
{
    if bytes_read > 0 {
        Some(http_response())
    } else {
        None
    }
}

/// The stand-in for the cryptographic component.
#[derive(Debug)]
pub struct Crypto {
    pub algorithm: String,
}

impl Crypto {
    pub fn new() -> (r: Self)
        ensures
            r.algorithm@ == "AES-256-GCM"@,
    {
        Crypto { algorithm: "AES-256-GCM".to_owned() }
    }
}

/// The stand-in for the learning component.
#[derive(Debug)]
pub struct NeuralNet {
    pub model_type: String,
}

impl NeuralNet {
    pub fn new() -> (r: Self)
        ensures
            r.model_type@ == "deep_learning"@,
    {
        NeuralNet { model_type: "deep_learning".to_owned() }
    }
}

} // verus!
