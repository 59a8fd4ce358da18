//! Pure request handlers: each takes the outcome of exactly one registry
//! operation and maps it to an HTTP status code and body.
//!
//! The mapping follows one policy: a successful value answers 200 with the
//! value serialized as JSON; a value-level absence (`get` finding nothing,
//! `delete` removing nothing) answers 404 with the requested name echoed for
//! diagnostics; every registry error answers 500 with the error text as a
//! JSON string.

use vstd::prelude::*;
use vstd::string::StringExecFns;
use crate::error::{spec_error_message, RegistryError};
use crate::iface::Interface;
use crate::json::{
    json_interface, json_interface_list, json_string, spec_json_interface,
    spec_json_interface_list, spec_json_string,
};

verus! {

/// An HTTP outcome: the status code and the response body.
pub struct HttpResponse {
    pub status: u16,
    pub body: String,
}

/// The health probe's reply: 200 with an empty body.
pub fn health() -> (r: HttpResponse)
    ensures
        r.status == 200,
        r.body@ == Seq::<char>::empty(),
{
    HttpResponse { status: 200, body: String::new() }
}

/// Outcome of listing every interface.
pub fn list(result: Result<Vec<Interface>, RegistryError>) -> (r: HttpResponse)
    ensures
        (match result {
            Ok(v) => r.status == 200 && r.body@ == spec_json_interface_list(v.deep_view()),
            Err(e) => r.status == 500 && r.body@ == spec_json_string(spec_error_message(e)),
        }),
{
    match result {
        Ok(v) => HttpResponse { status: 200, body: json_interface_list(&v) },
        Err(e) => HttpResponse { status: 500, body: json_string(e.message().as_str()) },
    }
}

/// Outcome of looking one name up.
pub fn get(name: &str, result: Result<Option<Interface>, RegistryError>) -> (r: HttpResponse)
    ensures
        (match result {
            Ok(Some(i)) => r.status == 200 && r.body@ == spec_json_interface(i@),
            Ok(None) => r.status == 404 && r.body@ == spec_json_string(name@),
            Err(e) => r.status == 500 && r.body@ == spec_json_string(spec_error_message(e)),
        }),
{
    match result {
        Ok(Some(iface)) => HttpResponse { status: 200, body: json_interface(&iface) },
        Ok(None) => HttpResponse { status: 404, body: json_string(name) },
        Err(e) => HttpResponse { status: 500, body: json_string(e.message().as_str()) },
    }
}

/// Outcome of creating one interface.
pub fn create(result: Result<Interface, RegistryError>) -> (r: HttpResponse)
    ensures
        (match result {
            Ok(i) => r.status == 200 && r.body@ == spec_json_interface(i@),
            Err(e) => r.status == 500 && r.body@ == spec_json_string(spec_error_message(e)),
        }),
{
    match result {
        Ok(iface) => HttpResponse { status: 200, body: json_interface(&iface) },
        Err(e) => HttpResponse { status: 500, body: json_string(e.message().as_str()) },
    }
}

/// Outcome of deleting one name: removal answers 200, absence 404.
pub fn delete(name: &str, result: Result<bool, RegistryError>) -> (r: HttpResponse)
    ensures
        (match result {
            Ok(true) => r.status == 200 && r.body@ == "true"@,
            Ok(false) => r.status == 404 && r.body@ == spec_json_string(name@),
            Err(e) => r.status == 500 && r.body@ == spec_json_string(spec_error_message(e)),
        }),
{
    match result {
        Ok(true) => HttpResponse { status: 200, body: String::from_str("true") },
        Ok(false) => HttpResponse { status: 404, body: json_string(name) },
        Err(e) => HttpResponse { status: 500, body: json_string(e.message().as_str()) },
    }
}

/// Outcome of modifying one record — on every current backend the registry
/// reports the capability gap, so this answers 500 with that error text.
pub fn modify(result: Result<bool, RegistryError>) -> (r: HttpResponse)
    ensures
        (match result {
            Ok(true) => r.status == 200 && r.body@ == "true"@,
            Ok(false) => r.status == 404 && r.body@ == Seq::<char>::empty(),
            Err(e) => r.status == 500 && r.body@ == spec_json_string(spec_error_message(e)),
        }),
{
    match result {
        Ok(true) => HttpResponse { status: 200, body: String::from_str("true") },
        Ok(false) => HttpResponse { status: 404, body: String::new() },
        Err(e) => HttpResponse { status: 500, body: json_string(e.message().as_str()) },
    }
}

} // verus!
