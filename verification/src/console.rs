use crate::error::Error;
use crate::registry::Registry;
use vstd::prelude::*;

verus! {

/// The state a shutdown flag reaches once shutdown is signaled; signaling is
/// level-triggered, so the flag never returns to the unstopped state.
pub open spec fn spec_signal_stop(f: ShutdownFlag) -> ShutdownFlag {
    ShutdownFlag { stopped: true }
}

/// The shutdown coordinator's state: a level-triggered flag that every
/// in-flight operation observes. Once set it stays set; there is no reset.
#[derive(Debug)]
pub struct ShutdownFlag {
    pub stopped: bool,
}

impl ShutdownFlag {
    pub fn new() -> (r: Self)
        ensures
            !r.stopped,
    {
        ShutdownFlag { stopped: false }
    }

    /// Signals shutdown: every current and future observer sees the flag set.
    pub fn signal_stop(&mut self)
        ensures
            *final(self) == spec_signal_stop(*old(self)),
    {
        self.stopped = true;
    }

    pub fn is_stopped(&self) -> (r: bool)
        ensures
            r == self.stopped,
    {
        self.stopped
    }
}

/// Signaling shutdown is idempotent: a second signal leaves the flag in
/// exactly the state the first one produced.
pub proof fn lemma_signal_stop_idempotent(f: ShutdownFlag)
    ensures
        spec_signal_stop(spec_signal_stop(f)) == spec_signal_stop(f),
{
}

/// What the acceptor does with one outcome of its wait: stop accepting, spawn
/// a session for an admitted peer, or drop the connection.
#[derive(Debug, PartialEq, Eq, Structural)]
pub enum AcceptDecision {
    /// Shutdown was signaled: accept no further connections.
    StopAccepting,
    /// The peer satisfies the policy: spawn a session handler for it.
    Spawn,
    /// The peer's address is unknown or violates the policy: drop the
    /// connection without creating a session handler.
    Reject,
}

/// A TCP console that dispatches strongly typed envelopes to one registered
/// subscription each and tries every subscription, until the first success,
/// on free-form text. This type holds the verified state and decisions; the
/// sockets and tasks around it live with the embedding application.
#[derive(Debug)]
pub struct Console<H> {
    pub registry: Registry<H>,
    pub port: u16,
    pub welcome: String,
    pub accept_only_localhost: bool,
    pub started: bool,
    pub stop: ShutdownFlag,
}

impl<H> Console<H> {
    pub(crate) fn new(
        registry: Registry<H>,
        port: u16,
        welcome: String,
        accept_only_localhost: bool,
    ) -> (r: Self)
        ensures
            r.registry == registry,
            r.port == port,
            r.welcome == welcome,
            r.accept_only_localhost == accept_only_localhost,
            !r.started,
            !r.stop.stopped,
    {
        Console {
            registry,
            port,
            welcome,
            accept_only_localhost,
            started: false,
            stop: ShutdownFlag::new(),
        }
    }

    /// Claims the right to bind: succeeds with the configured port exactly
    /// once. A second call fails with `AlreadyStarted` and changes nothing,
    /// so the first listener is never rebound or disturbed.
    pub fn spawn(&mut self) -> (r: Result<u16, Error>)
        ensures
            old(self).started ==> (r matches Err(e) && e == Error::AlreadyStarted && *final(self)
                == *old(self)),
            !old(self).started ==> (r matches Ok(p) && p == old(self).port && {
                &&& final(self).started
                &&& final(self).registry == old(self).registry
                &&& final(self).port == old(self).port
                &&& final(self).welcome == old(self).welcome
                &&& final(self).accept_only_localhost == old(self).accept_only_localhost
                &&& final(self).stop == old(self).stop
            }),
    {
        if self.started {
            Err(Error::AlreadyStarted)
        } else {
            self.started = true;
            Ok(self.port)
        }
    }

    /// Signals shutdown to the acceptor and every live session. Returns
    /// immediately; calling it again has no further effect.
    pub fn stop(&mut self)
        ensures
            final(self).stop == spec_signal_stop(old(self).stop),
            final(self).registry == old(self).registry,
            final(self).port == old(self).port,
            final(self).welcome == old(self).welcome,
            final(self).accept_only_localhost == old(self).accept_only_localhost,
            final(self).started == old(self).started,
    {
        self.stop.signal_stop();
    }

    /// The accept loop's decision for one wait outcome. Once shutdown is
    /// signaled no connection is accepted; a peer whose address cannot be
    /// resolved, or that is not loopback while the loopback-only restriction
    /// is on, is dropped before any session handler exists.
    pub fn accept_decision(
        &self,
        stop_signaled: bool,
        peer_known: bool,
        peer_is_loopback: bool,
    ) -> (r: AcceptDecision)
        ensures
            stop_signaled ==> r == AcceptDecision::StopAccepting,
            !stop_signaled && peer_known && (!self.accept_only_localhost || peer_is_loopback)
                ==> r == AcceptDecision::Spawn,
            !stop_signaled && !(peer_known && (!self.accept_only_localhost || peer_is_loopback))
                ==> r == AcceptDecision::Reject,
    {
        if stop_signaled {
            AcceptDecision::StopAccepting
        } else if peer_known && (!self.accept_only_localhost || peer_is_loopback) {
            AcceptDecision::Spawn
        } else {
            AcceptDecision::Reject
        }
    }
}

} // verus!
