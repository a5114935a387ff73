use crate::codec::{decode_envelope, spec_decode_envelope};
use crate::ensure_newline;
use crate::registry::Registry;
use crate::spec_ensure_newline;
use crate::text::{chunk_text, spec_chunk_text};
use vstd::prelude::*;

verus! {

/// What a session observes while waiting: the next inbound chunk, a transport
/// error on a read, the peer closing the connection, or the shutdown signal.
#[derive(Debug, PartialEq, Eq)]
pub enum SessionEvent {
    Chunk(Vec<u8>),
    ReadError,
    PeerClosed,
    Stopped,
}

/// What the session asks its driver to do next: nothing but wait again, write
/// bytes or text back to the peer, invoke a subscription and report the
/// result, or release the connection.
#[derive(Debug, PartialEq, Eq)]
pub enum SessionCommand {
    /// Wait for the next event.
    Idle,
    /// Write these bytes to the peer verbatim.
    Write(Vec<u8>),
    /// Write this newline-terminated text to the peer.
    WriteText(String),
    /// Call `handle` on the subscription at `index` with `payload`, then
    /// report the outcome through [`Session::on_handler_result`].
    InvokeHandler { index: usize, payload: Vec<u8> },
    /// Call `weak_handle` on the subscription at `index` with `text`, then
    /// report the outcome through [`Session::on_weak_result`].
    InvokeWeak { index: usize, text: String },
    /// Release the connection; the session is over.
    Close,
}

/// Where a session stands: waiting for a chunk, waiting for one subscription's
/// typed result, walking the subscriptions with free-form text, or done.
#[derive(Debug, PartialEq, Eq)]
pub enum SessionPhase {
    Receiving,
    AwaitingTyped { index: usize },
    AwaitingFallback { index: usize, text: String },
    Closed,
}

/// The per-connection state machine: welcome, receive, dispatch, reply,
/// repeat until the peer closes or shutdown is signaled. The machine only
/// decides; its driver performs the reads, writes and subscription calls.
pub struct Session {
    pub phase: SessionPhase,
}

impl Session {
    pub fn new() -> (r: Self)
        ensures
            r.phase is Receiving,
    {
        Session { phase: SessionPhase::Receiving }
    }

    /// One step of the receive loop. A chunk that decodes as a typed envelope
    /// is dispatched to exactly the subscription registered under its
    /// identifier, and dropped silently when none is; a chunk that does not
    /// decode is read as trimmed text and offered to the first subscription.
    /// A read error is tolerated, the peer closing or the shutdown signal
    /// ends the session.
    pub fn on_event<H>(&mut self, registry: &Registry<H>, event: SessionEvent) -> (cmd:
        SessionCommand)
        requires
            old(self).phase is Receiving,
            registry.wf(),
        ensures
            event is Stopped ==> final(self).phase is Closed && cmd is Close,
            event is PeerClosed ==> final(self).phase is Closed && cmd is Close,
            event is ReadError ==> final(self).phase is Receiving && cmd is Idle,
            event matches SessionEvent::Chunk(b) ==> match spec_decode_envelope(b@) {
                Some(m) => {
                    if registry.contains_id(m.0) {
                        &&& cmd matches SessionCommand::InvokeHandler { index, payload } && {
                            &&& index < registry.spec_len()
                            &&& registry.id_at(index as int) == m.0
                            &&& payload@ == m.1
                        }
                        &&& final(self).phase matches SessionPhase::AwaitingTyped { index }
                            && index < registry.spec_len() && registry.id_at(index as int) == m.0
                    } else {
                        &&& cmd is Idle
                        &&& final(self).phase is Receiving
                    }
                },
                None => {
                    if registry.spec_len() == 0 {
                        &&& cmd is Idle
                        &&& final(self).phase is Receiving
                    } else {
                        &&& cmd matches SessionCommand::InvokeWeak { index, text } && index == 0
                            && text@ == spec_chunk_text(b@)
                        &&& final(self).phase matches SessionPhase::AwaitingFallback {
                            index,
                            text,
                        } && index == 0 && text@ == spec_chunk_text(b@)
                    }
                },
            },
    {
        match event {
            SessionEvent::Stopped => {
                self.phase = SessionPhase::Closed;
                SessionCommand::Close
            },
            SessionEvent::PeerClosed => {
                self.phase = SessionPhase::Closed;
                SessionCommand::Close
            },
            SessionEvent::ReadError => SessionCommand::Idle,
            SessionEvent::Chunk(b) => {
                match decode_envelope(b.as_slice()) {
                    Some((service_id, payload)) => {
                        match registry.find(service_id) {
                            Some(index) => {
                                self.phase = SessionPhase::AwaitingTyped { index };
                                SessionCommand::InvokeHandler { index, payload }
                            },
                            None => SessionCommand::Idle,
                        }
                    },
                    None => {
                        if registry.len() == 0 {
                            SessionCommand::Idle
                        } else {
                            let text = chunk_text(b.as_slice());
                            let command_text = text.clone();
                            self.phase = SessionPhase::AwaitingFallback { index: 0, text };
                            SessionCommand::InvokeWeak { index: 0, text: command_text }
                        }
                    },
                }
            },
        }
    }

    /// The reply step of the typed path: the bytes a subscription returned are
    /// written back verbatim; no reply, or a subscription error, writes
    /// nothing and never ends the session.
    pub fn on_handler_result<E>(&mut self, result: Result<Option<Vec<u8>>, E>) -> (cmd:
        SessionCommand)
        requires
            old(self).phase is AwaitingTyped,
        ensures
            final(self).phase is Receiving,
            result matches Ok(Some(bytes)) ==> cmd matches SessionCommand::Write(w) && w@
                == bytes@,
            result matches Ok(o) && o is None ==> cmd is Idle,
            result is Err ==> cmd is Idle,
    {
        self.phase = SessionPhase::Receiving;
        match result {
            Ok(Some(bytes)) => SessionCommand::Write(bytes),
            Ok(None) => SessionCommand::Idle,
            Err(_) => SessionCommand::Idle,
        }
    }

    /// One step of the fallback protocol. The first subscription that returns
    /// a reply wins: its text is written back newline-terminated and no
    /// further subscription is invoked for this chunk. A subscription that
    /// declines or fails is passed over, and when every one has been tried
    /// without success nothing is written.
    pub fn on_weak_result<H, E>(
        &mut self,
        registry: &Registry<H>,
        result: Result<Option<String>, E>,
    ) -> (cmd: SessionCommand)
        requires
            old(self).phase matches SessionPhase::AwaitingFallback { index, text } && index
                < registry.spec_len(),
        ensures
            result matches Ok(Some(t)) ==> {
                &&& final(self).phase is Receiving
                &&& cmd matches SessionCommand::WriteText(s) && s@ == spec_ensure_newline(t@)
                    && s@.len() > 0 && s@[s@.len() - 1] == '\n'
            },
            !(result matches Ok(Some(t))) ==> (old(self).phase matches
                SessionPhase::AwaitingFallback { index, text } ==> {
                if index + 1 < registry.spec_len() {
                    &&& final(self).phase matches SessionPhase::AwaitingFallback {
                        index: ni,
                        text: nt,
                    } && ni == index + 1 && nt@ == text@
                    &&& cmd matches SessionCommand::InvokeWeak { index: ci, text: ct } && ci
                        == index + 1 && ct@ == text@
                } else {
                    &&& final(self).phase is Receiving
                    &&& cmd is Idle
                }
            }),
    {
        match result {
            Ok(Some(t)) => {
                self.phase = SessionPhase::Receiving;
                SessionCommand::WriteText(ensure_newline(t))
            },
            _ => {
                let (index, text) = match &self.phase {
                    SessionPhase::AwaitingFallback { index, text } => (*index, text.clone()),
                    _ => {
                        proof {
                            assert(false);
                        }
                        (0, String::new())
                    },
                };
                let n = registry.len();
                if index + 1 < n {
                    let command_text = text.clone();
                    self.phase = SessionPhase::AwaitingFallback { index: index + 1, text };
                    SessionCommand::InvokeWeak { index: index + 1, text: command_text }
                } else {
                    self.phase = SessionPhase::Receiving;
                    SessionCommand::Idle
                }
            },
        }
    }
}

} // verus!
