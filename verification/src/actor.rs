//! The Connection Actor's protocol state machine.  One actor exists per
//! accepted connection; it owns that connection's message-id counter and
//! its bound client identity.  The surrounding application runs the
//! select loop (socket read, outbound queue, keep-alive timer) and calls
//! in here with each frame; every decision — enrichment, introduction,
//! subscription updates, what to enqueue and what to surface — is made
//! and specified here.

use vstd::prelude::*;
use vstd::string::StringExecFns;
use crate::codec::Command;
use crate::codec::DecodedText;
use crate::codec::decode_command;
use crate::codec::envelope;
use crate::codec::quoted;
use crate::codec::set_client_id_message;
use crate::events::Event;
use crate::events::InboundFrame;
use crate::events::Outbound;
use crate::events::Output;
use crate::json::envelope_intro_id;
use crate::json::envelope_ok;
use crate::json::envelope_paths;
use crate::json::envelope_type;
use crate::registry::ClientConnection;
use crate::registry::has_key;
use crate::registry::key_idx;
use crate::registry::upsert_spec;
use crate::server::Server;
use crate::strutil::str_eq;
use crate::subscriptions::add_all_spec;

verus! {

/// The lifecycle of one connection: the transport upgrade, the open
/// protocol loop, teardown, and the end.
pub enum Phase {
    Handshaking,
    Open,
    Closing,
    Terminated,
}

/// The per-connection state: the connection id assigned at accept time,
/// the normalized peer address, the client identity bound by a
/// `client.intro`, the per-connection message counter, and the phase.
pub struct ConnectionActor {
    pub id: u32,
    pub address: String,
    pub client_id: Option<String>,
    pub message_id: u32,
    pub phase: Phase,
}

/// The client-id string that means "no id yet": an intro carrying it is
/// treated as carrying none.
pub open spec fn null_id_sentinel() -> Seq<char> {
    "~~~ null ~~~"@
}

/// Whether an intro's offered client id is usable: present and not the
/// sentinel.
pub open spec fn offered_id_ok(intro_id: Option<String>) -> bool {
    intro_id matches Some(s) && s@ != null_id_sentinel()
}

/// The command as surfaced upstream: message id and connection id are
/// stamped by the actor, and the client id is taken from the
/// connection's bound identity when there is one.
pub open spec fn stamped(cmd: Command, mid: u32, connid: u32, bound: Option<String>) -> Command {
    Command {
        kind: cmd.kind,
        payload: cmd.payload,
        important: cmd.important,
        connection_id: Some(connid),
        message_id: Some(mid),
        date: cmd.date,
        delta_time: cmd.delta_time,
        client_id: if bound is Some {
            bound
        } else {
            cmd.client_id
        },
    }
}

/// Everything one successfully decoded command does: how the actor and
/// the supervisor state change, and which outputs come back, in order.
pub open spec fn apply_rel(
    s0: Server,
    s1: Server,
    a0: ConnectionActor,
    a1: ConnectionActor,
    cmd: Command,
    intro_id: Option<String>,
    paths: Seq<Seq<char>>,
    sender: tokio::sync::mpsc::Sender<Outbound>,
    out: Seq<Output>,
) -> bool {
    let is_intro = cmd.kind@ == "client.intro"@;
    let is_sub = cmd.kind@ == "state.values.subscribe"@;
    let mid = a1.message_id;
    &&& a1.id == a0.id
    &&& a1.address == a0.address
    &&& a1.phase == a0.phase
    &&& a1.message_id == a0.message_id + 1
    &&& s1.state == s0.state
    &&& s1.next_connection_id == s0.next_connection_id
    &&& (if is_sub {
        s1.subscriptions@ == add_all_spec(s0.subscriptions@, paths)
    } else {
        s1.subscriptions@ == s0.subscriptions@
    })
    &&& (!is_intro ==> {
        &&& a1.client_id == a0.client_id
        &&& s1.registry@ == s0.registry@
        &&& s1.idgen@ == s0.idgen@
        &&& out =~= seq![
            Output::Emit(Event::CommandArrived(stamped(cmd, mid, a0.id, a0.client_id))),
        ]
    })
    &&& (is_intro ==> {
        &&& a1.client_id is Some
        &&& {
            let rid = a1.client_id->0;
            let conn = ClientConnection {
                id: a0.id,
                address: a0.address,
                client_id: rid,
                sender,
            };
            let c2 = stamped(cmd, mid, a0.id, Some(rid));
            &&& s1.registry@ == upsert_spec(s0.registry@, conn)
            &&& (offered_id_ok(intro_id) ==> {
                &&& rid == intro_id->0
                &&& s1.idgen@ == s0.idgen@
                &&& out =~= seq![
                    Output::Emit(Event::ConnectionEstablished(c2)),
                    Output::Emit(Event::CommandArrived(c2)),
                ]
            })
            &&& (!offered_id_ok(intro_id) ==> {
                &&& !s0.idgen@.contains(rid@)
                &&& s1.idgen@ == s0.idgen@.push(rid@)
                &&& out.len() == 3
                &&& (out[0] matches Output::Enqueue(Outbound::Text(t)) && t@ == envelope(
                    "setClientId"@,
                    quoted(rid@),
                ))
                &&& out[1] == Output::Emit(Event::ConnectionEstablished(c2))
                &&& out[2] == Output::Emit(Event::CommandArrived(c2))
            })
        }
    })
}

/// Normalize a peer address for events and the registry: an IPv4
/// address is rendered in its IPv4-mapped-IPv6 form; anything else keeps
/// the transport layer's own rendering.
pub fn format_address(is_ipv4: bool, ip: &str, full: &str) -> (r: String)
    ensures
        is_ipv4 ==> r@ == "::ffff:"@ + ip@,
        !is_ipv4 ==> r@ == full@,
{
    if is_ipv4 {
        let mut out = String::new();
        out.append("::ffff:");
        out.append(ip);
        out
    } else {
        let mut out = String::new();
        out.append(full);
        out
    }
}

impl ConnectionActor {
    /// A new actor for an accepted connection, before the protocol
    /// upgrade: no client bound, message ids starting over.
    pub fn new(id: u32, address: String) -> (r: ConnectionActor)
        ensures
            r.id == id,
            r.address == address,
            r.client_id is None,
            r.message_id == 0,
            r.phase == Phase::Handshaking,
    {
        ConnectionActor { id, address, client_id: None, message_id: 0, phase: Phase::Handshaking }
    }

    /// The protocol upgrade completed: the connection is open, and a
    /// `connect` event carries its id and address upstream.
    pub fn open(&mut self) -> (ev: Event)
        requires
            old(self).phase == Phase::Handshaking,
        ensures
            final(self).phase == Phase::Open,
            final(self).id == old(self).id,
            final(self).address == old(self).address,
            final(self).client_id == old(self).client_id,
            final(self).message_id == old(self).message_id,
            ev == (Event::Connect { id: old(self).id, address: old(self).address }),
    {
        self.phase = Phase::Open;
        Event::Connect { id: self.id, address: self.address.clone() }
    }

    /// The protocol upgrade failed: the actor ends immediately, without
    /// any lifecycle event.
    pub fn fail_handshake(&mut self)
        requires
            old(self).phase == Phase::Handshaking,
        ensures
            final(self).phase == Phase::Terminated,
            final(self).id == old(self).id,
            final(self).address == old(self).address,
            final(self).client_id == old(self).client_id,
            final(self).message_id == old(self).message_id,
    {
        self.phase = Phase::Terminated;
    }

    /// The keep-alive timer fired: a ping goes out on this connection.
    pub fn keepalive(&self) -> (r: Outbound)
        requires
            self.phase == Phase::Open,
        ensures
            r == Outbound::Ping,
    {
        Outbound::Ping
    }

    /// A write failure, read error, or failed keep-alive: the connection
    /// is being torn down.
    pub fn transport_error(&mut self)
        requires
            old(self).phase == Phase::Open,
        ensures
            final(self).phase == Phase::Closing,
            final(self).id == old(self).id,
            final(self).address == old(self).address,
            final(self).client_id == old(self).client_id,
            final(self).message_id == old(self).message_id,
    {
        self.phase = Phase::Closing;
    }
}

/// Apply one successfully decoded command to the actor and the
/// supervisor state: stamp the message id and connection id, process a
/// `client.intro` (resolve or generate the client id, bind it, register
/// the connection, reply with `setClientId` when the id was generated),
/// add the paths of a `state.values.subscribe` to the subscription set,
/// and surface a command event upstream — unconditionally, for every
/// decoded command.
pub fn apply_command(
    server: &mut Server,
    actor: &mut ConnectionActor,
    cmd: Command,
    intro_id: Option<String>,
    paths: Vec<String>,
    sender: tokio::sync::mpsc::Sender<Outbound>,
) -> (out: Vec<Output>)
    requires
        old(server).wf(),
        old(actor).message_id < u32::MAX,
    ensures
        final(server).wf(),
        apply_rel(
            *old(server),
            *final(server),
            *old(actor),
            *final(actor),
            cmd,
            intro_id,
            paths.deep_view(),
            sender,
            out@,
        ),
{
    let ghost s0 = *server;
    let ghost a0 = *actor;
    let ghost cmd0 = cmd;

    let mid = actor.message_id + 1;
    actor.message_id = mid;
    let is_intro = str_eq(cmd.kind.as_str(), "client.intro");
    let is_sub = str_eq(cmd.kind.as_str(), "state.values.subscribe");

    let mut out: Vec<Output> = Vec::new();
    let bound: Option<String>;

    if is_intro {
        let offered_ok = match &intro_id {
            Some(s) => !str_eq(s.as_str(), "~~~ null ~~~"),
            None => false,
        };
        let rid: String;
        if offered_ok {
            rid = match intro_id {
                Some(s) => s,
                None => String::new(),
            };
        } else {
            rid = server.idgen.fresh();
            let msg = set_client_id_message(rid.as_str());
            out.push(Output::Enqueue(Outbound::Text(msg)));
        }
        actor.client_id = Some(rid.clone());
        let conn = ClientConnection {
            id: actor.id,
            address: actor.address.clone(),
            client_id: rid.clone(),
            sender,
        };
        let _replaced = server.registry.upsert(conn);
        bound = Some(rid);
    } else {
        bound = match &actor.client_id {
            Some(c) => Some(c.clone()),
            None => None,
        };
    }

    let enriched = Command {
        kind: cmd.kind,
        payload: cmd.payload,
        important: cmd.important,
        connection_id: Some(actor.id),
        message_id: Some(mid),
        date: cmd.date,
        delta_time: cmd.delta_time,
        client_id: match bound {
            Some(b) => Some(b),
            None => cmd.client_id,
        },
    };
    proof {
        assert(enriched == stamped(cmd0, mid, a0.id, final(actor).client_id)) by {
            if is_intro {
            } else {
                assert(final(actor).client_id == a0.client_id);
            }
        }
    }

    if is_intro {
        out.push(Output::Emit(Event::ConnectionEstablished(enriched.duplicate())));
    }

    if is_sub {
        let ghost reg_mid = server.registry@;
        let ghost idg_mid = server.idgen@;
        let ghost subs0 = server.subscriptions@;
        let n = paths.len();
        let mut i: usize = 0;
        while i < n
            invariant
                i <= n,
                n == paths@.len(),
                server.registry@ == reg_mid,
                server.idgen@ == idg_mid,
                server.state == s0.state,
                server.next_connection_id == s0.next_connection_id,
                server.registry.wf(),
                server.idgen.wf(),
                server.subscriptions.wf(),
                server.subscriptions@ == add_all_spec(subs0, paths.deep_view().subrange(0, i as int)),
            decreases n - i,
        {
            server.subscriptions.add(paths[i].clone());
            proof {
                let dv = paths.deep_view();
                let pre = dv.subrange(0, i as int);
                let ext = dv.subrange(0, i + 1 as int);
                assert(ext.drop_last() =~= pre);
                assert(ext.last() == dv[i as int]);
                assert(dv[i as int] == paths@[i as int]@);
            }
            i = i + 1;
        }
        proof {
            assert(paths.deep_view().subrange(0, n as int) =~= paths.deep_view());
        }
    }

    out.push(Output::Emit(Event::CommandArrived(enriched)));

    proof {
        if is_intro {
            if offered_id_ok(intro_id) {
                assert(out@ =~= seq![
                    Output::Emit(Event::ConnectionEstablished(enriched)),
                    Output::Emit(Event::CommandArrived(enriched)),
                ]);
            } else {
                assert(out@.len() == 3);
            }
        } else {
            assert(out@ =~= seq![Output::Emit(Event::CommandArrived(enriched))]);
        }
    }
    out
}

/// React to one inbound frame while the connection is open.  A text
/// frame that decodes is applied as a command; one that does not decode
/// is dropped and the connection stays open.  A close frame moves the
/// actor into teardown.  A ping is answered with a pong on the outbound
/// queue; pongs, binary data and raw control frames do nothing.
pub fn handle_frame(
    server: &mut Server,
    actor: &mut ConnectionActor,
    frame: InboundFrame,
    sender: tokio::sync::mpsc::Sender<Outbound>,
) -> (out: Vec<Output>)
    requires
        old(server).wf(),
        old(actor).phase == Phase::Open,
        old(actor).message_id < u32::MAX,
    ensures
        final(server).wf(),
        final(actor).id == old(actor).id,
        final(actor).address == old(actor).address,
        (frame matches InboundFrame::Text(t) && !envelope_ok(t@) ==> *final(server) == *old(server)
            && *final(actor) == *old(actor) && out@ =~= Seq::<Output>::empty()),
        (frame matches InboundFrame::Text(t) ==> (envelope_ok(t@) ==> final(actor).phase
            == Phase::Open && (exists|d: DecodedText|
            d.cmd.kind@ == envelope_type(t@) && d.intro_id.deep_view() == envelope_intro_id(t@)
                && d.paths.deep_view() == envelope_paths(t@) && apply_rel(
                *old(server),
                *final(server),
                *old(actor),
                *final(actor),
                d.cmd,
                d.intro_id,
                d.paths.deep_view(),
                sender,
                out@,
            )))),
        (frame matches InboundFrame::Close ==> final(actor).phase == Phase::Closing
            && final(actor).client_id == old(actor).client_id
            && final(actor).message_id == old(actor).message_id
            && *final(server) == *old(server) && out@ =~= Seq::<Output>::empty()),
        (frame matches InboundFrame::Ping ==> *final(actor) == *old(actor) && *final(server)
            == *old(server) && out@ =~= seq![Output::Enqueue(Outbound::Pong)]),
        (frame matches InboundFrame::Pong ==> *final(actor) == *old(actor) && *final(server)
            == *old(server) && out@ =~= Seq::<Output>::empty()),
        (frame matches InboundFrame::Binary ==> *final(actor) == *old(actor) && *final(server)
            == *old(server) && out@ =~= Seq::<Output>::empty()),
        (frame matches InboundFrame::Raw ==> *final(actor) == *old(actor) && *final(server)
            == *old(server) && out@ =~= Seq::<Output>::empty()),
{
    match frame {
        InboundFrame::Text(t) => {
            match decode_command(t.as_str()) {
                Some(d) => {
                    let ghost gd = d;
                    let DecodedText { cmd, intro_id, paths } = d;
                    let out = apply_command(server, actor, cmd, intro_id, paths, sender);
                    proof {
                        assert(apply_rel(
                            *old(server),
                            *final(server),
                            *old(actor),
                            *final(actor),
                            gd.cmd,
                            gd.intro_id,
                            gd.paths.deep_view(),
                            sender,
                            out@,
                        ));
                    }
                    out
                },
                None => Vec::new(),
            }
        },
        InboundFrame::Close => {
            actor.phase = Phase::Closing;
            Vec::new()
        },
        InboundFrame::Ping => {
            let mut out: Vec<Output> = Vec::new();
            out.push(Output::Enqueue(Outbound::Pong));
            out
        },
        InboundFrame::Pong => Vec::new(),
        InboundFrame::Binary => Vec::new(),
        InboundFrame::Raw => Vec::new(),
    }
}

/// Tear the connection down.  If a client id was bound, its registry
/// entry is removed; a `disconnect` event is surfaced only when the
/// removed entry still belonged to this actor — a connection that was
/// already replaced by a reconnect goes silently.  An actor that never
/// bound a client id terminates silently.
pub fn finish(server: &mut Server, actor: &mut ConnectionActor) -> (ev: Option<Event>)
    requires
        old(server).wf(),
        old(actor).phase == Phase::Closing,
    ensures
        final(server).wf(),
        final(actor).phase == Phase::Terminated,
        final(actor).id == old(actor).id,
        final(actor).address == old(actor).address,
        final(actor).client_id == old(actor).client_id,
        final(actor).message_id == old(actor).message_id,
        final(server).state == old(server).state,
        final(server).next_connection_id == old(server).next_connection_id,
        final(server).subscriptions@ == old(server).subscriptions@,
        final(server).idgen@ == old(server).idgen@,
        old(actor).client_id is None ==> final(server).registry@ == old(server).registry@ && ev
            is None,
        (old(actor).client_id matches Some(cid) ==> {
            let reg = old(server).registry@;
            if has_key(reg, cid@) {
                let i = key_idx(reg, cid@);
                &&& final(server).registry@ == reg.remove(i)
                &&& (reg[i].id == old(actor).id ==> ev == Some(
                    Event::Disconnect {
                        id: reg[i].id,
                        address: reg[i].address,
                        client_id: reg[i].client_id,
                    },
                ))
                &&& (reg[i].id != old(actor).id ==> ev is None)
            } else {
                final(server).registry@ == reg && ev is None
            }
        }),
{
    actor.phase = Phase::Terminated;
    let cid = match &actor.client_id {
        Some(c) => c.clone(),
        None => {
            return None;
        },
    };
    match server.registry.remove(cid.as_str()) {
        Some(conn) => {
            if conn.id == actor.id {
                Some(
                    Event::Disconnect {
                        id: conn.id,
                        address: conn.address,
                        client_id: conn.client_id,
                    },
                )
            } else {
                None
            }
        },
        None => None,
    }
}

} // verus!
