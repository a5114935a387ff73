use crate::console::Console;
use crate::error::{spec_u64_decimal, Error};
use crate::registry::Registry;
use crate::spec_ensure_newline;
use crate::ensure_newline;
use vstd::prelude::*;

verus! {

/// A builder for [`Console`]: collects the subscriptions, the bind port, the
/// welcome text and the peer policy before the console starts.
#[derive(Debug)]
pub struct Builder<H> {
    pub subscriptions: Registry<H>,
    pub port: Option<u16>,
    pub welcome: Option<String>,
    pub accept_only_localhost: bool,
}

impl<H> Builder<H> {
    pub fn new() -> (r: Self)
        ensures
            r.subscriptions.spec_len() == 0,
            r.subscriptions.wf(),
            r.port is None,
            r.welcome is None,
            !r.accept_only_localhost,
    {
        Builder {
            subscriptions: Registry::new(),
            port: None,
            welcome: None,
            accept_only_localhost: false,
        }
    }

    /// Registers `subscription` under `service_id`. Registration fails, and
    /// the error names the identifier, exactly when the identifier is already
    /// in use; otherwise the entry is appended and every other setting is
    /// kept.
    pub fn subscribe(self, service_id: u64, subscription: H) -> (r: Result<Self, Error>)
        requires
            self.subscriptions.wf(),
        ensures
            self.subscriptions.contains_id(service_id) ==> (r matches Err(e) && e matches
                Error::ServiceIdUsed(s) && s@ == spec_u64_decimal(service_id as nat)),
            !self.subscriptions.contains_id(service_id) ==> (r matches Ok(b) && {
                &&& b.subscriptions.entries@ == self.subscriptions.entries@.push(
                    (service_id, subscription),
                )
                &&& b.subscriptions.wf()
                &&& b.port == self.port
                &&& b.welcome == self.welcome
                &&& b.accept_only_localhost == self.accept_only_localhost
            }),
    {
        let mut subscriptions = self.subscriptions;
        match subscriptions.register(service_id, subscription) {
            Err(e) => Err(e),
            Ok(_) => Ok(
                Builder {
                    subscriptions,
                    port: self.port,
                    welcome: self.welcome,
                    accept_only_localhost: self.accept_only_localhost,
                },
            ),
        }
    }

    /// Sets the TCP port the console will bind.
    pub fn port(self, port: u16) -> (r: Self)
        ensures
            r.port == Some(port),
            r.subscriptions == self.subscriptions,
            r.welcome == self.welcome,
            r.accept_only_localhost == self.accept_only_localhost,
    {
        Builder { port: Some(port), ..self }
    }

    /// Sets the welcome text sent to every new session.
    pub fn welcome(self, message: &str) -> (r: Self)
        ensures
            r.welcome matches Some(w) && w@ == message@,
            r.subscriptions == self.subscriptions,
            r.port == self.port,
            r.accept_only_localhost == self.accept_only_localhost,
    {
        Builder { welcome: Some(message.to_owned()), ..self }
    }

    /// Restricts the console to connections from loopback peers.
    pub fn accept_only_localhost(self) -> (r: Self)
        ensures
            r.accept_only_localhost,
            r.subscriptions == self.subscriptions,
            r.port == self.port,
            r.welcome == self.welcome,
    {
        Builder { accept_only_localhost: true, ..self }
    }

    /// Assembles the console. Fails exactly when no port was configured —
    /// before any socket is touched; otherwise the console starts out
    /// unstarted and unstopped, with the welcome text newline-terminated
    /// (empty text when none was configured).
    pub fn build(self) -> (r: Result<Console<H>, Error>)
        requires
            self.subscriptions.wf(),
        ensures
            self.port is None ==> (r matches Err(e) && e == Error::NoBindAddress),
            self.port matches Some(p) ==> (r matches Ok(c) && {
                &&& c.registry == self.subscriptions
                &&& c.port == p
                &&& c.welcome@ == spec_ensure_newline(
                    match self.welcome {
                        Some(w) => w@,
                        None => Seq::<char>::empty(),
                    },
                )
                &&& c.accept_only_localhost == self.accept_only_localhost
                &&& !c.started
                &&& !c.stop.stopped
            }),
    {
        match self.port {
            None => Err(Error::NoBindAddress),
            Some(port) => {
                let welcome = match self.welcome {
                    Some(w) => w,
                    None => String::new(),
                };
                Ok(
                    Console::new(
                        self.subscriptions,
                        port,
                        ensure_newline(welcome),
                        self.accept_only_localhost,
                    ),
                )
            },
        }
    }
}

impl<H> Default for Builder<H> {
    fn default() -> (r: Self)
        ensures
            r.subscriptions.spec_len() == 0,
            r.subscriptions.wf(),
            r.port is None,
            r.welcome is None,
            !r.accept_only_localhost,
    {
        Builder::new()
    }
}

} // verus!
