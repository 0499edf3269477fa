//! Trusted boundary to the TCP command protocol client.
//!
//! Each function wraps exactly one call into `minecraft_client_rs`; the
//! replies travel the network, so nothing is promised about their content:
//! callers state what holds whatever comes back. The crate reads replies
//! with no timeout and trusts their length field, so a silent or hostile
//! peer can stall or abort the call; no precondition here can exclude
//! that, since it depends on the peer, not the arguments.

use vstd::prelude::*;

verus! {

/// The connected command-protocol client of the outside crate, opaque here.
#[verifier::external_type_specification]
#[verifier::external_body]
pub struct ExClient(minecraft_client_rs::Client);

/// Relies on minecraft_client_rs::Client::new, which opens one TCP
/// connection to the given address; on failure the error's text is
/// returned.
#[verifier::external_body]
pub(crate) fn connect(addr: &str) -> (r: Result<minecraft_client_rs::Client, String>) {
    match minecraft_client_rs::Client::new(addr.to_string()) {
        Ok(c) => Ok(c),
        Err(e) => Err(format!("{}", e)),
    }
}

/// Relies on minecraft_client_rs::Client::authenticate: one authentication
/// round-trip; on success the reply's body is returned, on failure the
/// error's text.
#[verifier::external_body]
pub(crate) fn authenticate(client: &mut minecraft_client_rs::Client, password: &str) -> (r: Result<
    String,
    String,
>) {
    match client.authenticate(password.to_string()) {
        Ok(m) => Ok(m.body),
        Err(e) => Err(format!("{}", e)),
    }
}

/// Relies on minecraft_client_rs::Client::send_command: sends one command
/// and returns the reply's body, or the error's text.
#[verifier::external_body]
pub(crate) fn send_command(client: &mut minecraft_client_rs::Client, command: &str) -> (r: Result<
    String,
    String,
>) {
    match client.send_command(command.to_string()) {
        Ok(m) => Ok(m.body),
        Err(e) => Err(format!("{}", e)),
    }
}

} // verus!
