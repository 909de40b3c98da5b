//! The environment injected into the child process: the negotiated ports,
//! the shared secret, and the static feature flags of a supervised run.

use vstd::prelude::*;
use crate::text::{ascii_to_string, chars_of_bytes, dec_digits, lemma_dec_digits_ascii, u64_dec};

verus! {

/// The decimal rendering of a port number, as characters.
pub open spec fn port_chars(p: u16) -> Seq<char> {
    chars_of_bytes(dec_digits(p as int))
}

/// Renders a port number in decimal for the child's environment.
pub fn port_value(p: u16) -> (r: String)
    ensures
        r@ == port_chars(p),
{
    let d = u64_dec(p as u64);
    proof {
        lemma_dec_digits_ascii(p as int);
    }
    ascii_to_string(&d)
}

/// Builds the six environment entries handed to the child: its server
/// port, its SSH port, the allowed CORS origins, the shared secret, and
/// the static flags marking a supervised run with suggestions enabled.
pub fn build_env(port: u16, ssh_port: u16, secret: &String) -> (r: Vec<(String, String)>)
    ensures
        r@.len() == 6,
        r@[0].0@ == "PORT"@ && r@[0].1@ == port_chars(port),
        r@[1].0@ == "SSH_PORT"@ && r@[1].1@ == port_chars(ssh_port),
        r@[2].0@ == "CORS_ORIGINS"@ && r@[2].1@ == "http://tauri.localhost,tauri://localhost"@,
        r@[3].0@ == "DISCOBOT_SECRET"@ && r@[3].1@ == secret@,
        r@[4].0@ == "TAURI"@ && r@[4].1@ == "true"@,
        r@[5].0@ == "SUGGESTIONS_ENABLED"@ && r@[5].1@ == "true"@,
{
    let mut r: Vec<(String, String)> = Vec::new();
    r.push(("PORT".to_owned(), port_value(port)));
    r.push(("SSH_PORT".to_owned(), port_value(ssh_port)));
    r.push(("CORS_ORIGINS".to_owned(), "http://tauri.localhost,tauri://localhost".to_owned()));
    r.push(("DISCOBOT_SECRET".to_owned(), secret.clone()));
    r.push(("TAURI".to_owned(), "true".to_owned()));
    r.push(("SUGGESTIONS_ENABLED".to_owned(), "true".to_owned()));
    r
}

} // verus!
