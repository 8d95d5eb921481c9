//! The Server Supervisor's state and decisions.  The supervisor owns the
//! server options, the Client Registry, the Subscription Set, and the
//! fresh-id generator; the surrounding application owns the listening
//! socket and the tasks, and calls in here for every decision: what
//! starting, stopping, a failed bind, an accepted connection, and an
//! outbound send do to the state, and where a send is delivered.

use vstd::prelude::*;
use crate::codec::CommandWithClientId;
use crate::codec::encode_command;
use crate::codec::encode_envelope;
use crate::codec::encode_paths_payload;
use crate::codec::envelope;
use crate::codec::paths_payload;
use crate::events::Event;
use crate::idgen::IdGen;
use crate::registry::ClientConnection;
use crate::registry::Registry;
use crate::registry::has_key;
use crate::registry::key_idx;
use crate::subscriptions::Subscriptions;
use crate::subscriptions::add_spec;
use crate::subscriptions::mapped_path;
use crate::subscriptions::remove_spec;

verus! {

/// The server's configuration.
#[derive(Clone, Copy)]
pub struct ServerOptions {
    pub port: u16,
}

impl Default for ServerOptions {
    /// The default relay port.
    fn default() -> (r: ServerOptions)
        ensures
            r.port == 9090,
    {
        ServerOptions { port: 9090 }
    }
}

/// Whether the server is running, and with which options.
#[derive(Clone, Copy)]
pub struct ServerState {
    pub started: bool,
    pub options: ServerOptions,
}

impl Default for ServerState {
    fn default() -> (r: ServerState)
        ensures
            !r.started,
            r.options.port == 9090,
    {
        ServerState { started: false, options: ServerOptions { port: 9090 } }
    }
}

/// A mathematical snapshot of the whole supervisor state.
pub struct ServerModel {
    pub started: bool,
    pub port: u16,
    pub registry: Seq<ClientConnection>,
    pub subscriptions: Seq<Seq<char>>,
    pub issued: Seq<Seq<char>>,
    pub next_connection_id: u32,
}

/// What stopping does to the state: not started, registry and
/// subscription set emptied; options and issued ids kept.
pub open spec fn stop_model(m: ServerModel) -> ServerModel {
    ServerModel {
        started: false,
        registry: Seq::empty(),
        subscriptions: Seq::empty(),
        ..m
    }
}

/// What starting does to the state: started, and connection ids begin
/// again from the initial value.
pub open spec fn start_model(m: ServerModel) -> ServerModel {
    ServerModel { started: true, next_connection_id: 0, ..m }
}

/// The server supervisor.
pub struct Server {
    pub state: ServerState,
    pub registry: Registry,
    pub subscriptions: Subscriptions,
    pub idgen: IdGen,
    pub next_connection_id: u32,
}

impl View for Server {
    type V = ServerModel;

    open spec fn view(&self) -> ServerModel {
        ServerModel {
            started: self.state.started,
            port: self.state.options.port,
            registry: self.registry@,
            subscriptions: self.subscriptions@,
            issued: self.idgen@,
            next_connection_id: self.next_connection_id,
        }
    }
}

impl Server {
    pub open spec fn wf(&self) -> bool {
        &&& self.registry.wf()
        &&& self.subscriptions.wf()
        &&& self.idgen.wf()
    }

    /// A fresh supervisor: not started, default options, everything
    /// empty.
    pub fn new() -> (r: Server)
        ensures
            r.wf(),
            !r@.started,
            r@.port == 9090,
            r@.registry == Seq::<ClientConnection>::empty(),
            r@.subscriptions == Seq::<Seq<char>>::empty(),
            r@.issued == Seq::<Seq<char>>::empty(),
            r@.next_connection_id == 0,
    {
        Server {
            state: ServerState { started: false, options: ServerOptions { port: 9090 } },
            registry: Registry::new(),
            subscriptions: Subscriptions::new(),
            idgen: IdGen::new(),
            next_connection_id: 0,
        }
    }

    /// Replace the stored options.  Takes effect at the next start; a
    /// listener that is already running is not touched.
    pub fn configure(&mut self, options: ServerOptions)
        ensures
            final(self).state.options == options,
            final(self).state.started == old(self).state.started,
            final(self)@ == (ServerModel { port: options.port, ..old(self)@ }),
            final(self).wf() == old(self).wf(),
    {
        self.state.options = options;
    }

    /// Mark the server started.  Any previous run has already been
    /// cancelled by the caller.  Connection ids begin again from the
    /// initial value; the emitted event announces the start.
    pub fn begin_start(&mut self) -> (ev: Event)
        ensures
            final(self)@ == start_model(old(self)@),
            final(self).wf() == old(self).wf(),
            ev == Event::Start,
    {
        self.state.started = true;
        self.next_connection_id = 0;
        Event::Start
    }

    /// Record the outcome of a failed bind on `port`, the port the
    /// caller actually attempted (the stored options may have changed
    /// since the start began).  A port conflict is actionable by the
    /// user: the state returns to not-started and a `PortUnavailable`
    /// event carries the attempted port.  Any other bind failure changes
    /// nothing here; the start attempt simply ends.
    pub fn bind_failed(&mut self, port: u16, addr_in_use: bool) -> (ev: Option<Event>)
        ensures
            addr_in_use ==> final(self)@ == (ServerModel { started: false, ..old(self)@ }) && ev
                == Some(Event::PortUnavailable(port)),
            !addr_in_use ==> final(self)@ == old(self)@ && ev is None,
            final(self).wf() == old(self).wf(),
    {
        if addr_in_use {
            self.state.started = false;
            Some(Event::PortUnavailable(port))
        } else {
            None
        }
    }

    /// Assign the id for a newly accepted connection: strictly
    /// increasing, never reused within a run.
    pub fn accept_connection(&mut self) -> (id: u32)
        requires
            old(self)@.next_connection_id < u32::MAX,
        ensures
            id == old(self)@.next_connection_id + 1,
            final(self)@ == (ServerModel { next_connection_id: id, ..old(self)@ }),
            final(self).wf() == old(self).wf(),
    {
        self.next_connection_id = self.next_connection_id + 1;
        self.next_connection_id
    }

    /// Complete a stop, after the caller has cancelled the listener and
    /// the actors: not started, registry and subscription set emptied,
    /// and the emitted event announces the stop.
    pub fn complete_stop(&mut self) -> (ev: Event)
        requires
            old(self).wf(),
        ensures
            final(self)@ == stop_model(old(self)@),
            final(self).wf(),
            ev == Event::Stop,
    {
        self.state.started = false;
        self.registry.clear();
        self.subscriptions.clear();
        Event::Stop
    }

    /// Route an outbound command: the wire text to write, and the
    /// registry positions to deliver it to.  An empty target id is a
    /// broadcast to every registered client; an unknown target receives
    /// nothing and reports no failure.
    pub fn route_send(&self, cmd: &CommandWithClientId) -> (r: (Vec<usize>, String))
        requires
            self.wf(),
        ensures
            cmd.client_id@.len() == 0 ==> r.0@.len() == self@.registry.len() && (forall|k: int|
                0 <= k < r.0@.len() ==> r.0@[k] == k),
            cmd.client_id@.len() > 0 && has_key(self@.registry, cmd.client_id@) ==> r.0@.len() == 1
                && r.0@[0] == key_idx(self@.registry, cmd.client_id@),
            cmd.client_id@.len() > 0 && !has_key(self@.registry, cmd.client_id@) ==> r.0@.len()
                == 0,
            exists|pt: Seq<char>| r.1@ == envelope(cmd.kind@, pt),
    {
        let idx = self.registry.targets(cmd.client_id.as_str());
        let text = encode_command(cmd);
        (idx, text)
    }

    /// Observer-side subscribe: add the path to the set (the wildcard is
    /// stored as the sentinel) and, when the set changed, hand back the
    /// subscription snapshot message to broadcast.
    pub fn subscribe_path(&mut self, path: String) -> (r: Option<String>)
        requires
            old(self).wf(),
        ensures
            final(self).wf(),
            final(self)@ == (ServerModel {
                subscriptions: add_spec(old(self)@.subscriptions, path@),
                ..old(self)@
            }),
            r is Some <==> !old(self)@.subscriptions.contains(mapped_path(path@)),
            r matches Some(t) ==> t@ == envelope(
                "state.values.subscribe"@,
                paths_payload(final(self)@.subscriptions),
            ),
    {
        let before = self.subscriptions.len();
        self.subscriptions.add(path);
        let after = self.subscriptions.len();
        if after != before {
            let paths = self.subscriptions.snapshot();
            let payload = encode_paths_payload(&paths);
            let msg = encode_envelope("state.values.subscribe", payload.as_str());
            Some(msg)
        } else {
            None
        }
    }

    /// Observer-side unsubscribe: remove the stored path and, when it
    /// was present, hand back the snapshot message to broadcast.
    pub fn unsubscribe_path(&mut self, path: &str) -> (r: Option<String>)
        requires
            old(self).wf(),
        ensures
            final(self).wf(),
            final(self)@ == (ServerModel {
                subscriptions: remove_spec(old(self)@.subscriptions, path@),
                ..old(self)@
            }),
            r is Some <==> old(self)@.subscriptions.contains(path@),
            r matches Some(t) ==> t@ == envelope(
                "state.values.subscribe"@,
                paths_payload(final(self)@.subscriptions),
            ),
    {
        let before = self.subscriptions.len();
        self.subscriptions.remove(path);
        let after = self.subscriptions.len();
        if after != before {
            let paths = self.subscriptions.snapshot();
            let payload = encode_paths_payload(&paths);
            let msg = encode_envelope("state.values.subscribe", payload.as_str());
            Some(msg)
        } else {
            None
        }
    }

    /// Observer-side clear: empty the set and hand back the (empty)
    /// snapshot message to broadcast.
    pub fn clear_subscriptions(&mut self) -> (r: String)
        requires
            old(self).wf(),
        ensures
            final(self).wf(),
            final(self)@ == (ServerModel { subscriptions: Seq::empty(), ..old(self)@ }),
            r@ == envelope("state.values.subscribe"@, paths_payload(Seq::empty())),
    {
        self.subscriptions.clear();
        let paths = self.subscriptions.snapshot();
        let payload = encode_paths_payload(&paths);
        proof {
            assert(paths.deep_view() =~= Seq::<Seq<char>>::empty());
        }
        encode_envelope("state.values.subscribe", payload.as_str())
    }
}

/// Stopping empties the registry and the subscription set, and a start
/// that follows begins with connection ids back at their initial value,
/// with both collections still empty.
pub proof fn lemma_stop_then_start_resets(m: ServerModel)
    ensures
        stop_model(m).registry.len() == 0,
        stop_model(m).subscriptions.len() == 0,
        !stop_model(m).started,
        start_model(stop_model(m)).registry.len() == 0,
        start_model(stop_model(m)).subscriptions.len() == 0,
        start_model(stop_model(m)).next_connection_id == 0,
        start_model(stop_model(m)).started,
{
}

} // verus!
