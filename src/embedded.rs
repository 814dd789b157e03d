//! Supervision of a server that runs on a thread of a client process.
//!
//! The server and its client share two flags: the server sets "ready" once
//! its endpoint is bound, and the client sets "left" once it has
//! disconnected. An [`EmbeddedServer`] decides what the server thread does
//! on each event; the thread itself, the flags and the transport belong to
//! the caller.
use vstd::prelude::*;
use crate::protocol::{ClientId, ClientMessage};
use crate::registry::{
    broadcasts_stopping, closes_exactly, departure_actions, departure_view, is_shutdown,
    message_actions, message_view, shut_down_view, RegistryView, ServerAction, SessionRegistry,
};

verus! {

/// Where an embedded server is in its life.
#[derive(Debug, Clone, Copy, PartialEq, Eq, Structural)]
pub enum EmbeddedPhase {
    /// Binding its endpoint.
    Launching,
    /// Serving; the ready flag has been set.
    Running,
    /// Done; its thread ends.
    Stopped,
}

/// The abstract state of an [`EmbeddedServer`].
pub struct EmbeddedView {
    pub phase: EmbeddedPhase,
    pub registry: RegistryView,
}

impl EmbeddedView {
    /// A server that has not stopped has a session that has not ended.
    pub open spec fn wf(self) -> bool {
        &&& self.registry.wf()
        &&& (self.phase != EmbeddedPhase::Stopped ==> !self.registry.terminated)
    }
}

/// The state after the endpoint is bound.
pub open spec fn bound_view(v: EmbeddedView) -> EmbeddedView {
    if v.phase == EmbeddedPhase::Launching {
        EmbeddedView { phase: EmbeddedPhase::Running, ..v }
    } else {
        v
    }
}

/// The state after one tick of the server's loop, with the client's left
/// flag read as `client_left`.
pub open spec fn tick_view(v: EmbeddedView, client_left: bool) -> EmbeddedView {
    if v.phase == EmbeddedPhase::Running && client_left {
        EmbeddedView {
            phase: EmbeddedPhase::Stopped,
            registry: if v.registry.terminated { v.registry } else { shut_down_view(v.registry) },
        }
    } else {
        v
    }
}

/// The work of one tick.
pub open spec fn tick_actions(v: EmbeddedView, client_left: bool, acts: Seq<ServerAction>) -> bool {
    if v.phase == EmbeddedPhase::Running && client_left && !v.registry.terminated {
        is_shutdown(acts, v.registry.names.dom())
    } else {
        acts.len() == 0
    }
}

/// The phase that follows a registry update while running.
pub open spec fn phase_after(r: RegistryView) -> EmbeddedPhase {
    if r.terminated {
        EmbeddedPhase::Stopped
    } else {
        EmbeddedPhase::Running
    }
}

/// The state after `id` sends `m`; only a running server serves.
pub open spec fn serve_view(v: EmbeddedView, id: ClientId, m: ClientMessage) -> EmbeddedView {
    if v.phase == EmbeddedPhase::Running {
        let r = message_view(v.registry, id, m);
        EmbeddedView { phase: phase_after(r), registry: r }
    } else {
        v
    }
}

/// The work that `id` sending `m` calls for.
pub open spec fn serve_actions(v: EmbeddedView, id: ClientId, m: ClientMessage, acts: Seq<ServerAction>) -> bool {
    if v.phase == EmbeddedPhase::Running {
        message_actions(v.registry, id, m, acts)
    } else {
        acts.len() == 0
    }
}

/// The state after the connection `id` is lost.
pub open spec fn lost_view(v: EmbeddedView, id: ClientId) -> EmbeddedView {
    if v.phase == EmbeddedPhase::Running {
        let r = departure_view(v.registry, id);
        EmbeddedView { phase: phase_after(r), registry: r }
    } else {
        v
    }
}

/// The work that losing `id` calls for.
pub open spec fn lost_actions(v: EmbeddedView, id: ClientId, acts: Seq<ServerAction>) -> bool {
    if v.phase == EmbeddedPhase::Running {
        departure_actions(v.registry, id, acts)
    } else {
        acts.len() == 0
    }
}

/// Once the client has left, the next tick of a running embedded server
/// tells every joined connection that the server stops, closes them all,
/// stops the endpoint and ends the server's loop; while the flag is unset
/// a tick does nothing.
pub proof fn client_left_stops_server(v: EmbeddedView, acts: Seq<ServerAction>, idle: Seq<ServerAction>)
    requires
        v.wf(),
        v.phase == EmbeddedPhase::Running,
        tick_actions(v, true, acts),
        tick_actions(v, false, idle),
    ensures
        tick_view(v, true).phase == EmbeddedPhase::Stopped,
        tick_view(v, true).registry.names.is_empty(),
        tick_view(v, true).registry.terminated,
        acts.len() == v.registry.names.len() + 2,
        broadcasts_stopping(acts[0], v.registry.names.dom()),
        closes_exactly(acts.subrange(1, acts.len() - 1), v.registry.names.dom()),
        acts.last() is StopEndpoint,
        tick_view(v, false) == v,
        idle.len() == 0,
{
}

/// A server embedded in a client process.
pub struct EmbeddedServer {
    phase: EmbeddedPhase,
    registry: SessionRegistry,
}

impl View for EmbeddedServer {
    type V = EmbeddedView;

    closed spec fn view(&self) -> EmbeddedView {
        EmbeddedView { phase: self.phase, registry: self.registry@ }
    }
}

impl EmbeddedServer {
    /// A server about to bind its endpoint; the first connection to join
    /// will be its host.
    pub fn new() -> (s: Self)
        ensures
            s@.phase == EmbeddedPhase::Launching,
            s@.registry == (RegistryView { names: Map::empty(), host: None, awaiting_host: true, terminated: false }),
            s@.wf(),
    {
        EmbeddedServer { phase: EmbeddedPhase::Launching, registry: SessionRegistry::new_embedded() }
    }

    /// The current phase.
    pub fn phase(&self) -> (p: EmbeddedPhase)
        ensures
            p == self@.phase,
    {
        self.phase
    }

    /// The session registry.
    pub fn registry(&self) -> (r: &SessionRegistry)
        ensures
            r@ == self@.registry,
    {
        &self.registry
    }

    /// The endpoint is bound. Returns whether to set the ready flag now:
    /// only the first time, while launching.
    pub fn on_endpoint_bound(&mut self) -> (set_ready: bool)
        ensures
            set_ready == (old(self)@.phase == EmbeddedPhase::Launching),
            final(self)@ == bound_view(old(self)@),
            old(self)@.wf() ==> final(self)@.wf(),
    {
        if self.phase == EmbeddedPhase::Launching {
            self.phase = EmbeddedPhase::Running;
            true
        } else {
            false
        }
    }

    /// The endpoint could not be bound: the server stops without ever
    /// becoming ready.
    pub fn on_bind_failed(&mut self)
        ensures
            old(self)@.phase == EmbeddedPhase::Launching ==> final(self)@ == (EmbeddedView { phase: EmbeddedPhase::Stopped, ..old(self)@ }),
            old(self)@.phase != EmbeddedPhase::Launching ==> final(self)@ == old(self)@,
            old(self)@.wf() ==> final(self)@.wf(),
    {
        if self.phase == EmbeddedPhase::Launching {
            self.phase = EmbeddedPhase::Stopped;
        }
    }

    /// One tick of the server's loop, with the client's left flag read as
    /// `client_left`.
    pub fn on_tick(&mut self, client_left: bool) -> (acts: Vec<ServerAction>)
        ensures
            final(self)@ == tick_view(old(self)@, client_left),
            tick_actions(old(self)@, client_left, acts@),
            old(self)@.wf() ==> final(self)@.wf(),
    {
        if self.phase == EmbeddedPhase::Running && client_left {
            let acts = self.registry.shutdown();
            self.phase = EmbeddedPhase::Stopped;
            acts
        } else {
            Vec::new()
        }
    }

    /// Serves one message from `id`.
    pub fn handle_client_message(&mut self, id: ClientId, m: ClientMessage) -> (acts: Vec<ServerAction>)
        ensures
            final(self)@ == serve_view(old(self)@, id, m),
            serve_actions(old(self)@, id, m, acts@),
            old(self)@.wf() ==> final(self)@.wf(),
    {
        if self.phase == EmbeddedPhase::Running {
            let acts = self.registry.handle_client_message(id, m);
            if self.registry.is_terminated() {
                self.phase = EmbeddedPhase::Stopped;
            }
            acts
        } else {
            Vec::new()
        }
    }

    /// The transport lost the connection `id`.
    pub fn on_transport_lost(&mut self, id: ClientId) -> (acts: Vec<ServerAction>)
        ensures
            final(self)@ == lost_view(old(self)@, id),
            lost_actions(old(self)@, id, acts@),
            old(self)@.wf() ==> final(self)@.wf(),
    {
        if self.phase == EmbeddedPhase::Running {
            let acts = self.registry.on_transport_lost(id);
            if self.registry.is_terminated() {
                self.phase = EmbeddedPhase::Stopped;
            }
            acts
        } else {
            Vec::new()
        }
    }
}

} // verus!
