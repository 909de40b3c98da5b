//! The shared supervisor state: the negotiated port and shared secret,
//! immutable for the run, and ownership of the live child handle.

use vstd::prelude::*;

verus! {

/// Fixed server port used instead of negotiation in a development build.
pub const DEV_PORT: u16 = 3001;

/// Preferred port for the child's SSH listener; an ephemeral port takes its
/// place when this one is already bound.
pub const PREFERRED_SSH_PORT: u16 = 3333;

/// The auxiliary SSH port the child is told to use: the preferred fixed
/// port when it was free, else the ephemeral fallback the system handed out.
pub fn choose_ssh_port(preferred_free: bool, fallback: u16) -> (r: u16)
    ensures
        r == if preferred_free {
            PREFERRED_SSH_PORT
        } else {
            fallback
        },
{
    if preferred_free {
        PREFERRED_SSH_PORT
    } else {
        fallback
    }
}

/// The single shared record of the supervisor: the negotiated port, the
/// shared secret, and the live child handle when one is running. At most
/// one child handle exists per run: it is set at most once, while none is
/// held, and cleared exactly once by shutdown.
pub struct ServerState<H> {
    port: u16,
    secret: String,
    process: Option<H>,
}

impl<H> ServerState<H> {
    /// The negotiated port.
    pub closed spec fn spec_port(&self) -> u16 {
        self.port
    }

    /// The shared secret.
    pub closed spec fn spec_secret(&self) -> Seq<char> {
        self.secret@
    }

    /// The live child handle, if any.
    pub closed spec fn spec_process(&self) -> Option<H> {
        self.process
    }

    /// This state with no live child; port and secret unchanged.
    pub closed spec fn after_shutdown(self) -> Self {
        ServerState { process: None, ..self }
    }

    /// Creates the state as it stands before any child is spawned.
    pub fn new(port: u16, secret: String) -> (s: Self)
        ensures
            s.spec_port() == port,
            s.spec_secret() == secret@,
            s.spec_process() is None,
    {
        ServerState { port, secret, process: None }
    }

    /// Returns the negotiated port.
    pub fn get_server_port(&self) -> (r: u16)
        ensures
            r == self.spec_port(),
    {
        self.port
    }

    /// Returns a copy of the shared secret.
    pub fn get_server_secret(&self) -> (r: String)
        ensures
            r@ == self.spec_secret(),
    {
        self.secret.clone()
    }

    /// Hands the freshly spawned child to the state. Only legal while no
    /// child is live, so at most one handle ever exists per run.
    pub fn attach_process(&mut self, child: H)
        requires
            old(self).spec_process() is None,
        ensures
            final(self).spec_port() == old(self).spec_port(),
            final(self).spec_secret() == old(self).spec_secret(),
            final(self).spec_process() == Some(child),
    {
        self.process = Some(child);
    }

    /// Takes the child handle out of the state, leaving none behind; the
    /// caller terminates the returned child. Safe to call with no child
    /// live: it then returns nothing and changes nothing.
    pub fn shutdown(&mut self) -> (r: Option<H>)
        ensures
            *final(self) == (*old(self)).after_shutdown(),
            final(self).spec_port() == old(self).spec_port(),
            final(self).spec_secret() == old(self).spec_secret(),
            final(self).spec_process() is None,
            r == old(self).spec_process(),
    {
        self.process.take()
    }
}

/// Shutting down twice has the same observable effect as shutting down
/// once: the second shutdown finds no child, so it returns nothing and
/// leaves the state exactly as the first left it.
pub proof fn lemma_shutdown_idempotent<H>(s: ServerState<H>)
    ensures
        s.after_shutdown().after_shutdown() == s.after_shutdown(),
        s.after_shutdown().spec_process() is None,
        s.after_shutdown().spec_port() == s.spec_port(),
        s.after_shutdown().spec_secret() == s.spec_secret(),
{
}

} // verus!
