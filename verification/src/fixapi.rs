//! The FIX session engine: connection lifecycle, outbound sequencing, the
//! logon handshake, heartbeat emission and response dispatch.
//!
//! The engine is a state machine over plain values. Each operation decides a
//! transition and, where one is owed, hands back the outbound message to
//! write; the transport, timers and detached notification tasks that act on
//! those decisions run outside this crate and feed every transport event
//! back in as a method call.

use vstd::prelude::*;

use crate::response::{spec_field_value, spec_is_logon_ack, spec_is_test_request, Field,
    ResponseMessage, ResponseModel};
use crate::types::{Config, ConfigModel, Error, Phase, SubID};

verus! {

/// An outbound session-layer request.
#[derive(Debug)]
pub enum Request {
    /// A keepalive; carries the identifier of the Test-Request it answers,
    /// if it answers one.
    Heartbeat { test_req_id: Option<String> },
    Logon,
    Logout,
}

/// Model of an outbound request.
#[verifier::ext_equal]
pub ghost enum RequestModel {
    Heartbeat { test_req_id: Option<Seq<char>> },
    Logon,
    Logout,
}

impl View for Request {
    type V = RequestModel;

    closed spec fn view(&self) -> RequestModel {
        match self {
            Request::Heartbeat { test_req_id: None } => RequestModel::Heartbeat {
                test_req_id: None,
            },
            Request::Heartbeat { test_req_id: Some(id) } => RequestModel::Heartbeat {
                test_req_id: Some(id@),
            },
            Request::Logon => RequestModel::Logon,
            Request::Logout => RequestModel::Logout,
        }
    }
}

/// A request the engine has sequenced for the wire: the serializer builds
/// the payload from the request, the sequence number, the sub-identity and
/// the session configuration.
#[derive(Debug)]
pub struct Outbound {
    pub req: Request,
    pub seq: u32,
    pub sub_id: SubID,
}

/// Model of a sequenced outbound request.
#[verifier::ext_equal]
pub ghost struct OutboundModel {
    pub req: RequestModel,
    pub seq: int,
    pub sub_id: SubID,
}

impl View for Outbound {
    type V = OutboundModel;

    closed spec fn view(&self) -> OutboundModel {
        OutboundModel { req: self.req@, seq: self.seq as int, sub_id: self.sub_id }
    }
}

/// What one step of the logon handshake decided.
pub enum LogonStep {
    /// The response was not a Logon-Ack: it is discarded and the handshake
    /// keeps waiting.
    Discard,
    /// The response was the Logon-Ack: the session is now active; the caller
    /// must now start the heartbeat and dispatch duties, exactly once, and
    /// notify the logon handler when one is registered.
    Activated { notify_logon: bool },
}

/// Model of a logon-handshake step.
#[verifier::ext_equal]
pub ghost enum LogonStepModel {
    Discard,
    Activated { notify_logon: bool },
}

impl View for LogonStep {
    type V = LogonStepModel;

    closed spec fn view(&self) -> LogonStepModel {
        match self {
            LogonStep::Discard => LogonStepModel::Discard,
            LogonStep::Activated { notify_logon } => LogonStepModel::Activated {
                notify_logon: *notify_logon,
            },
        }
    }
}

/// What dispatching one inbound response decided.
pub enum DispatchOutcome {
    /// The response was a Test-Request: write this Heartbeat back, carrying
    /// the received identifier.
    Reply(Outbound),
    /// The response was a Test-Request without an identifier: nothing to do.
    Ignored,
    /// Any other response: it was appended to the container; the caller
    /// signals any waiting consumer.
    Stored,
}

/// Mathematical model of the session engine.
#[verifier::ext_equal]
pub ghost struct SessionModel {
    pub sub_id: SubID,
    pub config: ConfigModel,
    /// Next outbound sequence number; starts at 1, advances once per send
    /// attempt, never resets for the life of the engine.
    pub seq: int,
    pub connected: bool,
    pub phase: Phase,
    /// Archived non-control responses, in arrival order.
    pub container: Seq<ResponseModel>,
    pub handler_registered: bool,
}

// ---------------------------------------------------------------------------
// The transitions of the session state machine.
// ---------------------------------------------------------------------------

/// One send attempt: the counter advances; nothing else changes.
pub open spec fn send_step(s: SessionModel) -> SessionModel {
    SessionModel { seq: s.seq + 1, ..s }
}

/// The transport came up: the connection flag is set.
pub open spec fn connect_step(s: SessionModel) -> SessionModel {
    SessionModel { connected: true, ..s }
}

/// The session is torn down: the flag clears and the handshake returns to
/// idle; the counter and the container are kept.
pub open spec fn disconnect_step(s: SessionModel) -> SessionModel {
    SessionModel { connected: false, phase: Phase::Idle, ..s }
}

/// A Logon request went out: one send attempt, then awaiting the ack.
pub open spec fn logon_sent_step(s: SessionModel) -> SessionModel {
    SessionModel { phase: Phase::AwaitingLogonAck, ..send_step(s) }
}

/// The Logon-Ack arrived: the session becomes active.
pub open spec fn logon_ack_step(s: SessionModel) -> SessionModel {
    SessionModel { phase: Phase::Active, ..s }
}

/// A non-control response is archived.
pub open spec fn store_step(s: SessionModel, m: ResponseModel) -> SessionModel {
    SessionModel { container: s.container.push(m), ..s }
}

/// A connection handler was registered.
pub open spec fn register_step(s: SessionModel) -> SessionModel {
    SessionModel { handler_registered: true, ..s }
}

/// The port a sub-identity connects to: one port for the quote session, a
/// different one otherwise.
pub open spec fn spec_port(sub_id: SubID) -> u16 {
    if sub_id == SubID::QUOTE {
        5201
    } else {
        5202
    }
}

/// The client-side session engine.
pub struct FixApi {
    config: Config,
    sub_id: SubID,
    seq: u32,
    connected: bool,
    phase: Phase,
    container: Vec<ResponseMessage>,
    handler_registered: bool,
}

impl View for FixApi {
    type V = SessionModel;

    closed spec fn view(&self) -> SessionModel {
        SessionModel {
            sub_id: self.sub_id,
            config: self.config@,
            seq: self.seq as int,
            connected: self.connected,
            phase: self.phase,
            container: self.container@.map_values(|m: ResponseMessage| m@),
            handler_registered: self.handler_registered,
        }
    }
}

impl FixApi {
    /// A fresh engine: idle, disconnected, counter at 1, empty container,
    /// heartbeat interval defaulting to 30 seconds.
    pub fn new(
        sub_id: SubID,
        host: String,
        login: String,
        password: String,
        broker: String,
        heartbeat_interval: Option<u32>,
    ) -> (r: Self)
        ensures
            r@ == (SessionModel {
                sub_id,
                config: ConfigModel {
                    host: host@,
                    login: login@,
                    password: password@,
                    broker: broker@,
                    heart_beat: if heartbeat_interval is Some {
                        heartbeat_interval->Some_0
                    } else {
                        30
                    },
                },
                seq: 1,
                connected: false,
                phase: Phase::Idle,
                container: Seq::<ResponseModel>::empty(),
                handler_registered: false,
            }),
    {
        let heart_beat = match heartbeat_interval {
            Some(i) => i,
            None => 30,
        };
        let r = FixApi {
            config: Config::new(host, login, password, broker, heart_beat),
            sub_id,
            seq: 1,
            connected: false,
            phase: Phase::Idle,
            container: Vec::new(),
            handler_registered: false,
        };
        proof {
            assert(r@.container =~= Seq::<ResponseModel>::empty());
            assert(r@ =~= (SessionModel {
                sub_id,
                config: ConfigModel {
                    host: host@,
                    login: login@,
                    password: password@,
                    broker: broker@,
                    heart_beat: if heartbeat_interval is Some {
                        heartbeat_interval->Some_0
                    } else {
                        30
                    },
                },
                seq: 1,
                connected: false,
                phase: Phase::Idle,
                container: Seq::<ResponseModel>::empty(),
                handler_registered: false,
            }));
        }
        r
    }

    /// Records that a connection handler is registered, so lifecycle steps
    /// report when a notification is owed. Last write wins; the engine
    /// supports one handler.
    pub fn register_connection_handler(&mut self)
        ensures
            final(self)@ == register_step(old(self)@),
    {
        self.handler_registered = true;
    }

    /// Non-blocking read of the connection flag; authoritative for gating
    /// further requests.
    pub fn is_connected(&self) -> (r: bool)
        ensures
            r == self@.connected,
    {
        self.connected
    }

    /// The session configuration.
    pub fn config(&self) -> (r: &Config)
        ensures
            r@ == self@.config,
    {
        &self.config
    }

    /// The sub-identity of this session.
    pub fn sub_id(&self) -> (r: SubID)
        ensures
            r == self@.sub_id,
    {
        self.sub_id
    }

    /// The sequence number the next send attempt will be assigned.
    pub fn next_sequence(&self) -> (r: u32)
        ensures
            r == self@.seq,
    {
        self.seq
    }

    /// The phase the logon handshake is in.
    pub fn current_phase(&self) -> (r: Phase)
        ensures
            r == self@.phase,
    {
        self.phase
    }

    /// The archived responses, in arrival order.
    pub fn stored_responses(&self) -> (r: &Vec<ResponseMessage>)
        ensures
            r@.map_values(|m: ResponseMessage| m@) == self@.container,
    {
        &self.container
    }

    /// Where the transport must connect: the configured host, and the port
    /// selected by the sub-identity.
    pub fn endpoint(&self) -> (r: (String, u16))
        ensures
            r.0@ == self@.config.host,
            r.1 == spec_port(self@.sub_id),
    {
        let port: u16 = match self.sub_id {
            SubID::QUOTE => 5201,
            SubID::TRADE => 5202,
        };
        (self.config.host().clone(), port)
    }

    /// The transport connected: the flag is set; the connect handler is owed
    /// a notification exactly when one is registered.
    pub fn on_connected(&mut self) -> (notify: bool)
        ensures
            final(self)@ == connect_step(old(self)@),
            notify == old(self)@.handler_registered,
    {
        self.connected = true;
        self.handler_registered
    }

    /// The session is torn down: flag cleared, handshake idle, counter and
    /// container kept. Idempotent, and safe on a session that never
    /// connected.
    pub fn disconnect(&mut self) -> (r: Result<(), Error>)
        ensures
            final(self)@ == disconnect_step(old(self)@),
            r is Ok,
    {
        self.connected = false;
        self.phase = Phase::Idle;
        Ok(())
    }

    /// Sequences `req` for the wire. The counter advances on every attempt,
    /// delivered or not; the sequenced request comes back exactly when a
    /// connection is active, and an I/O error otherwise.
    pub fn send_message(&mut self, req: Request) -> (r: Result<Outbound, Error>)
        requires
            old(self)@.seq < u32::MAX,
        ensures
            final(self)@ == send_step(old(self)@),
            r is Ok <==> old(self)@.connected,
            r matches Ok(o) ==> o@ == (OutboundModel {
                req: req@,
                seq: old(self)@.seq,
                sub_id: old(self)@.sub_id,
            }),
            r matches Err(e) ==> e == Error::IOError,
    {
        let assigned: u32 = self.seq;
        self.seq = self.seq + 1;
        if self.connected {
            Ok(Outbound { req, seq: assigned, sub_id: self.sub_id })
        } else {
            Err(Error::IOError)
        }
    }

    /// Sends a plain keepalive Heartbeat.
    pub fn heartbeat(&mut self) -> (r: Result<Outbound, Error>)
        requires
            old(self)@.seq < u32::MAX,
        ensures
            final(self)@ == send_step(old(self)@),
            r is Ok <==> old(self)@.connected,
            r matches Ok(o) ==> o@ == (OutboundModel {
                req: RequestModel::Heartbeat { test_req_id: None },
                seq: old(self)@.seq,
                sub_id: old(self)@.sub_id,
            }),
            r matches Err(e) ==> e == Error::IOError,
    {
        self.send_message(Request::Heartbeat { test_req_id: None })
    }

    /// Sends a Logout request; awaits no acknowledgement and changes no
    /// local state beyond the counter.
    pub fn logout(&mut self) -> (r: Result<Outbound, Error>)
        requires
            old(self)@.seq < u32::MAX,
        ensures
            final(self)@ == send_step(old(self)@),
            r is Ok <==> old(self)@.connected,
            r matches Ok(o) ==> o@ == (OutboundModel {
                req: RequestModel::Logout,
                seq: old(self)@.seq,
                sub_id: old(self)@.sub_id,
            }),
            r matches Err(e) ==> e == Error::IOError,
    {
        self.send_message(Request::Logout)
    }

    /// Opens the logon handshake: sends the Logon request and starts
    /// awaiting its acknowledgement. At most one handshake may be in
    /// flight, so the session must be idle.
    pub fn logon_start(&mut self) -> (r: Result<Outbound, Error>)
        requires
            old(self)@.phase == Phase::Idle,
            old(self)@.seq < u32::MAX,
        ensures
            old(self)@.connected ==> final(self)@ == logon_sent_step(old(self)@),
            !old(self)@.connected ==> final(self)@ == send_step(old(self)@),
            r is Ok <==> old(self)@.connected,
            r matches Ok(o) ==> o@ == (OutboundModel {
                req: RequestModel::Logon,
                seq: old(self)@.seq,
                sub_id: old(self)@.sub_id,
            }),
            r matches Err(e) ==> e == Error::IOError,
    {
        let r = self.send_message(Request::Logon);
        if r.is_ok() {
            self.phase = Phase::AwaitingLogonAck;
        }
        r
    }

    /// One step of awaiting the Logon-Ack. A non-matching response is
    /// discarded and the handshake keeps waiting, with no timeout; the
    /// matching one activates the session, exactly once.
    pub fn logon_response(&mut self, msg: &ResponseMessage) -> (r: LogonStep)
        requires
            old(self)@.phase == Phase::AwaitingLogonAck,
        ensures
            spec_is_logon_ack(msg@) ==> final(self)@ == logon_ack_step(old(self)@) && r@
                == (LogonStepModel::Activated { notify_logon: old(self)@.handler_registered }),
            !spec_is_logon_ack(msg@) ==> final(self)@ == old(self)@ && r@
                == LogonStepModel::Discard,
    {
        if msg.is_logon_ack() {
            self.phase = Phase::Active;
            LogonStep::Activated { notify_logon: self.handler_registered }
        } else {
            LogonStep::Discard
        }
    }

    /// Dispatches one inbound response. A Test-Request is answered at once
    /// by a Heartbeat echoing its identifier, consuming exactly one
    /// sequence number; one without an identifier is dropped; every other
    /// response is archived in the container.
    pub fn dispatch_response(&mut self, msg: ResponseMessage) -> (r: DispatchOutcome)
        requires
            old(self)@.seq < u32::MAX,
        ensures
            spec_is_test_request(msg@) && spec_field_value(msg@, Field::TestReqID) is Some ==> {
                &&& final(self)@ == send_step(old(self)@)
                &&& r matches DispatchOutcome::Reply(o) && o@ == (OutboundModel {
                    req: RequestModel::Heartbeat {
                        test_req_id: Some(spec_field_value(msg@, Field::TestReqID)->Some_0),
                    },
                    seq: old(self)@.seq,
                    sub_id: old(self)@.sub_id,
                })
            },
            spec_is_test_request(msg@) && spec_field_value(msg@, Field::TestReqID) is None ==>
                final(self)@ == old(self)@ && r is Ignored,
            !spec_is_test_request(msg@) ==> final(self)@ == store_step(old(self)@, msg@)
                && r is Stored,
    {
        if msg.is_test_request() {
            match msg.get_field_value(Field::TestReqID) {
                Some(test_req_id) => {
                    let assigned: u32 = self.seq;
                    self.seq = self.seq + 1;
                    DispatchOutcome::Reply(
                        Outbound {
                            req: Request::Heartbeat { test_req_id: Some(test_req_id) },
                            seq: assigned,
                            sub_id: self.sub_id,
                        },
                    )
                },
                None => DispatchOutcome::Ignored,
            }
        } else {
            let ghost before = self@;
            self.container.push(msg);
            proof {
                assert(self@.container =~= before.container.push(msg@));
            }
            DispatchOutcome::Stored
        }
    }
}

// ---------------------------------------------------------------------------
// Laws of the state machine.
// ---------------------------------------------------------------------------

/// The state after `n` consecutive send attempts from `s`, whoever the
/// writers are: application sends, scheduled heartbeats and Test-Request
/// replies all advance the one counter by `send_step`.
pub open spec fn send_n(s: SessionModel, n: nat) -> SessionModel
    decreases n,
{
    if n == 0 {
        s
    } else {
        send_step(send_n(s, (n - 1) as nat))
    }
}

/// Over any `n` consecutive send attempts from `s`, the `i`-th attempt is
/// assigned sequence number `s.seq + i`: the numbers are consecutive in call
/// order, with no gaps and no duplicates, however application sends and
/// heartbeat emissions interleave; and nothing but the counter moves. From a
/// fresh engine, whose counter is 1, the numbers are exactly 1 through `n`.
pub proof fn lemma_send_sequence_numbers(s: SessionModel, n: nat)
    ensures
        forall|i: nat| i < n ==> (#[trigger] send_n(s, i)).seq == s.seq + i,
        forall|i: nat, j: nat| i < n && j < n && i != j ==> send_n(s, i).seq != send_n(s, j).seq,
        send_n(s, n) == (SessionModel { seq: s.seq + n, ..s }),
    decreases n,
{
    if n > 0 {
        lemma_send_sequence_numbers(s, (n - 1) as nat);
    }
}

/// One awaited response during the logon handshake: only the Logon-Ack
/// marker activates the session; anything else is discarded unread.
pub open spec fn logon_response_step(s: SessionModel, m: ResponseModel) -> SessionModel {
    if spec_is_logon_ack(m) {
        logon_ack_step(s)
    } else {
        s
    }
}

/// The state after the handshake has awaited the responses in `msgs`, in
/// order.
pub open spec fn awaiting_run(s: SessionModel, msgs: Seq<ResponseModel>) -> SessionModel
    decreases msgs.len(),
{
    if msgs.len() == 0 {
        s
    } else {
        awaiting_run(logon_response_step(s, msgs[0]), msgs.drop_first())
    }
}

/// A handshake that never sees a Logon-Ack never activates: over any run of
/// responses none of which is the ack, the session still awaits, unchanged —
/// so when the response channel closes or errors first, the heartbeat and
/// dispatch duties were never begun.
pub proof fn lemma_no_ack_no_activation(s: SessionModel, msgs: Seq<ResponseModel>)
    requires
        s.phase == Phase::AwaitingLogonAck,
        forall|i: int| 0 <= i < msgs.len() ==> !spec_is_logon_ack(#[trigger] msgs[i]),
    ensures
        awaiting_run(s, msgs) == s,
        awaiting_run(s, msgs).phase != Phase::Active,
    decreases msgs.len(),
{
    if msgs.len() > 0 {
        assert(!spec_is_logon_ack(msgs[0]));
        assert(forall|i: int|
            0 <= i < msgs.drop_first().len() ==> !spec_is_logon_ack(
                #[trigger] msgs.drop_first()[i],
            ));
        lemma_no_ack_no_activation(s, msgs.drop_first());
    }
}

/// One full connect, logon, acknowledge, disconnect cycle.
pub open spec fn cycle_step(s: SessionModel) -> SessionModel {
    disconnect_step(logon_ack_step(logon_sent_step(connect_step(s))))
}

/// Two back-to-back connect–logon–disconnect cycles on one engine: each
/// cycle observes the connection flag go false, then true, then false; the
/// second cycle starts idle again; and the sequence counter carries on from
/// where the first cycle left it — one Logon send per cycle — instead of
/// resetting to its initial value.
pub proof fn lemma_two_cycles(s: SessionModel)
    requires
        !s.connected,
        s.phase == Phase::Idle,
    ensures
        connect_step(s).connected,
        !cycle_step(s).connected,
        cycle_step(s).phase == Phase::Idle,
        connect_step(cycle_step(s)).connected,
        !cycle_step(cycle_step(s)).connected,
        cycle_step(s).seq == s.seq + 1,
        cycle_step(cycle_step(s)).seq == s.seq + 2,
{
}

/// The heartbeat duty, observed through the counter: `n` timer ticks on an
/// active session emit exactly `n` Heartbeat requests, one sequence number
/// each, and leave the session active and connected. That the ticks come
/// once per configured interval is the timer's concern, outside this model.
pub proof fn lemma_heartbeat_emissions(s: SessionModel, n: nat)
    requires
        s.phase == Phase::Active,
        s.connected,
    ensures
        send_n(s, n).phase == Phase::Active,
        send_n(s, n).connected,
        send_n(s, n).seq == s.seq + n,
        forall|i: nat| i < n ==> (#[trigger] send_n(s, i)).seq == s.seq + i,
{
    lemma_send_sequence_numbers(s, n);
}

} // verus!
