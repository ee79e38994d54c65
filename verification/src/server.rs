//! The server's configuration and its lifecycle: it starts at most once,
//! stops for good, and hands out its event stream to one listener.
use crate::channel::{hand_over, mpsc_pair, mpsc_sender_clone, oneshot_pair, Handoff, MpscPair, OneshotPair};
use crate::error::HttpServerError;
use crate::event::RsHttpServerEvent;
use crate::wire::{DeviceType, FileDto};
use std::collections::HashMap;
use tokio::sync::mpsc;
use tokio::sync::oneshot;
use vstd::prelude::*;

verus! {

/// Capacity of the channel that carries events to the Dart listener.
pub const EVENT_CHANNEL_CAPACITY: usize = 32;

/// Certificate and key for serving over TLS.
pub struct RsHttpServerTlsConfig {
    pub cert: String,
    pub private_key: String,
}

/// How this device presents itself to peers.
pub struct RsHttpServerInfo {
    pub alias: String,
    pub version: String,
    pub device_model: Option<String>,
    pub device_type: Option<DeviceType>,
    pub token: String,
}

/// Settings of the internal endpoint.
pub struct RsHttpServerInternalConfig {
    pub show_token: String,
}

/// Settings of the protocol v2 endpoints.
pub struct RsHttpServerV2Config {
    pub pin: Option<String>,
}

/// Texts of the web-send page.
pub struct RsHttpServerWebSendI18n {
    pub waiting: String,
    pub enter_pin: String,
    pub invalid_pin: String,
    pub too_many_attempts: String,
    pub rejected: String,
    pub files: String,
    pub file_name: String,
    pub size: String,
}

/// Settings of the web-send endpoints: the shared files, an optional pin
/// and the page's texts.
pub struct RsHttpServerWebSendConfig {
    pub files: HashMap<String, FileDto>,
    pub pin: Option<String>,
    pub i18n: RsHttpServerWebSendI18n,
}

/// The lifecycle state of a server: whether it still accepts being
/// started (it was not stopped), whether it runs, and whether its event
/// stream is still there for a listener.
pub struct ServerState {
    pub accepting: bool,
    pub running: bool,
    pub listenable: bool,
}

/// The state of a new server.
pub open spec fn initial_state() -> ServerState {
    ServerState { accepting: true, running: false, listenable: true }
}

/// Why `start` refuses in state `s`, if it does.
pub open spec fn start_refusal(s: ServerState) -> Option<HttpServerError> {
    if s.running {
        Some(HttpServerError::AlreadyStarted)
    } else if !s.accepting {
        Some(HttpServerError::AlreadyStopped)
    } else {
        None
    }
}

/// The state once the started server runs.
pub open spec fn after_started(s: ServerState) -> ServerState {
    ServerState { running: true, ..s }
}

/// The state once the stop signal was given.
pub open spec fn after_stop_signal(s: ServerState) -> ServerState {
    ServerState { running: false, ..s }
}

/// The state after `stop`: not running, and never to be started again.
pub open spec fn after_stop(s: ServerState) -> ServerState {
    ServerState { accepting: false, running: false, ..s }
}

/// Why `listen` refuses in state `s`, if it does.
pub open spec fn listen_refusal(s: ServerState) -> Option<HttpServerError> {
    if s.listenable {
        None
    } else {
        Some(HttpServerError::EventsAlreadyListened)
    }
}

/// The state once the event stream was handed out.
pub open spec fn after_listen(s: ServerState) -> ServerState {
    ServerState { listenable: false, ..s }
}

/// The configuration of an optional part of a plan.
pub open spec fn config_of<C>(part: Option<(C, mpsc::Sender<RsHttpServerEvent>)>) -> Option<C> {
    match part {
        Some((c, _)) => Some(c),
        None => None,
    }
}

/// What a start needs done outside the library: for each optional part
/// that was configured, its configuration and a handle on the event
/// stream that its forwarder feeds; the stop channel, whose receiving end
/// the running server watches and whose sending end `started` takes.
pub struct StartPlan {
    pub port: u16,
    pub tls: Option<RsHttpServerTlsConfig>,
    pub info: RsHttpServerInfo,
    pub internal: Option<(RsHttpServerInternalConfig, mpsc::Sender<RsHttpServerEvent>)>,
    pub v2: Option<(RsHttpServerV2Config, mpsc::Sender<RsHttpServerEvent>)>,
    pub web_send: Option<(RsHttpServerWebSendConfig, mpsc::Sender<RsHttpServerEvent>)>,
    pub stop_tx: oneshot::Sender<()>,
    pub stop_rx: oneshot::Receiver<()>,
    pub stop_ends: OneshotPair<()>,
}

impl StartPlan {
    /// The two ends of the one stop channel made for this start.
    pub closed spec fn stop_ends(&self) -> (oneshot::Sender<()>, oneshot::Receiver<()>) {
        (self.stop_ends.sender(), self.stop_ends.receiver())
    }
}

/// The server's handles: the sending and receiving ends of its event
/// stream, and the stop signal of the running server.
pub struct RsHttpServer {
    event_tx: Option<mpsc::Sender<RsHttpServerEvent>>,
    event_rx: Option<mpsc::Receiver<RsHttpServerEvent>>,
    stop_tx: Option<oneshot::Sender<()>>,
    last_signal: Option<Handoff<()>>,
    event_ends: MpscPair<RsHttpServerEvent>,
}

/// The stop channel last given `()` after giving the stop signal: the held
/// channel, if the server runs; otherwise nothing is sent and the last
/// signalled channel stays as it was.
pub open spec fn signal_after_stop(
    held: Option<oneshot::Sender<()>>,
    last: Option<oneshot::Sender<()>>,
) -> Option<oneshot::Sender<()>> {
    match held {
        Some(tx) => Some(tx),
        None => last,
    }
}

impl RsHttpServer {
    /// The stop channel of the running server.
    pub closed spec fn stop_channel(&self) -> Option<oneshot::Sender<()>> {
        self.stop_tx
    }

    /// The stop channel whose `send` was last given `()`.
    pub closed spec fn last_stop_signal(&self) -> Option<oneshot::Sender<()>> {
        match self.last_signal {
            Some(h) => Some(h.record().0),
            None => None,
        }
    }

    /// The receiving end of the event stream, until handed out.
    pub closed spec fn events(&self) -> Option<mpsc::Receiver<RsHttpServerEvent>> {
        self.event_rx
    }

    /// The server's own sending end of the event stream, until stopped.
    pub closed spec fn event_sender(&self) -> Option<mpsc::Sender<RsHttpServerEvent>> {
        self.event_tx
    }

    /// The two ends of the server's one event channel.
    pub closed spec fn event_channel(&self) -> (
        mpsc::Sender<RsHttpServerEvent>,
        mpsc::Receiver<RsHttpServerEvent>,
    ) {
        (self.event_ends.sender(), self.event_ends.receiver())
    }

    /// The server runs exactly while it holds a stop channel; it accepts a
    /// start exactly while it holds its event sender; it can be listened to
    /// exactly while it holds the event stream.
    pub proof fn lemma_state_follows_handles(&self)
        ensures
            self@.running <==> self.stop_channel() is Some,
            self@.accepting <==> self.event_sender() is Some,
            self@.listenable <==> self.events() is Some,
    {
    }
}

impl View for RsHttpServer {
    type V = ServerState;

    closed spec fn view(&self) -> ServerState {
        ServerState {
            accepting: self.event_tx is Some,
            running: self.stop_tx is Some,
            listenable: self.event_rx is Some,
        }
    }
}

/// A new server, not yet started, whose event stream holds up to
/// `EVENT_CHANNEL_CAPACITY` events.
pub fn create_http_server() -> (s: RsHttpServer)
    ensures
        s@ == initial_state(),
        s.stop_channel() is None,
        s.last_stop_signal() is None,
        s.event_sender() == Some(s.event_channel().0),
        s.events() == Some(s.event_channel().1),
{
    let (event_tx, event_rx, event_ends) = mpsc_pair(EVENT_CHANNEL_CAPACITY);
    RsHttpServer {
        event_tx: Some(event_tx),
        event_rx: Some(event_rx),
        stop_tx: None,
        last_signal: None,
        event_ends,
    }
}

fn sender_for<C>(config: Option<C>, event_tx: &mpsc::Sender<RsHttpServerEvent>) -> (r: Option<
    (C, mpsc::Sender<RsHttpServerEvent>),
>)
    ensures
        config_of(r) == config,
        r matches Some((_, t)) ==> t == *event_tx,
{
    match config {
        Some(c) => Some((c, mpsc_sender_clone(event_tx))),
        None => None,
    }
}

impl RsHttpServer {
    /// Prepares a start: refused while the server runs and after it was
    /// stopped; otherwise the plan carries the given settings unchanged.
    /// The server's state is not changed; `started` records the start once
    /// the server runs.
    pub fn start(
        &self,
        port: u16,
        tls: Option<RsHttpServerTlsConfig>,
        info: RsHttpServerInfo,
        internal: Option<RsHttpServerInternalConfig>,
        v2: Option<RsHttpServerV2Config>,
        web_send: Option<RsHttpServerWebSendConfig>,
    ) -> (r: Result<StartPlan, HttpServerError>)
        ensures
            r is Ok <==> (!self@.running && self@.accepting),
            r matches Ok(plan) ==> plan.stop_ends() == (plan.stop_tx, plan.stop_rx),
            match start_refusal(self@) {
                Some(e) => r matches Err(e2) && e2 == e,
                None => r matches Ok(plan) && {
                    &&& plan.port == port
                    &&& plan.tls == tls
                    &&& plan.info == info
                    &&& config_of(plan.internal) == internal
                    &&& config_of(plan.v2) == v2
                    &&& config_of(plan.web_send) == web_send
                    &&& plan.internal matches Some((_, t)) ==> Some(t) == self.event_sender()
                    &&& plan.v2 matches Some((_, t)) ==> Some(t) == self.event_sender()
                    &&& plan.web_send matches Some((_, t)) ==> Some(t) == self.event_sender()
                },
            },
    {
        if self.stop_tx.is_some() {
            return Err(HttpServerError::AlreadyStarted);
        }
        let event_tx = match &self.event_tx {
            Some(tx) => tx,
            None => {
                return Err(HttpServerError::AlreadyStopped);
            },
        };
        let internal = sender_for(internal, event_tx);
        let v2 = sender_for(v2, event_tx);
        let web_send = sender_for(web_send, event_tx);
        let (stop_tx, stop_rx, stop_ends) = oneshot_pair();
        Ok(StartPlan { port, tls, info, internal, v2, web_send, stop_tx, stop_rx, stop_ends })
    }

    /// Records that the server runs and is stopped through `stop_tx`.
    pub fn started(&mut self, stop_tx: oneshot::Sender<()>)
        ensures
            final(self)@ == after_started(old(self)@),
            final(self).stop_channel() == Some(stop_tx),
            final(self).last_stop_signal() == old(self).last_stop_signal(),
            final(self).events() == old(self).events(),
            final(self).event_sender() == old(self).event_sender(),
            final(self).event_channel() == old(self).event_channel(),
    {
        self.stop_tx = Some(stop_tx);
    }

    /// Hands out the event stream, to the first listener only.
    pub fn listen(&mut self) -> (r: Result<mpsc::Receiver<RsHttpServerEvent>, HttpServerError>)
        ensures
            final(self)@ == after_listen(old(self)@),
            final(self).stop_channel() == old(self).stop_channel(),
            final(self).last_stop_signal() == old(self).last_stop_signal(),
            final(self).event_sender() == old(self).event_sender(),
            final(self).event_channel() == old(self).event_channel(),
            final(self).events() is None,
            match old(self).events() {
                Some(rx) => r matches Ok(x) && x == rx,
                None => r matches Err(e) && e == HttpServerError::EventsAlreadyListened,
            },
    {
        match self.event_rx.take() {
            Some(rx) => Ok(rx),
            None => Err(HttpServerError::EventsAlreadyListened),
        }
    }

    /// Gives the running server its stop signal, if it runs (whether or
    /// not it still watches for it). This is also what dropping the
    /// server does.
    pub fn signal_stop(&mut self)
        ensures
            final(self)@ == after_stop_signal(old(self)@),
            final(self).stop_channel() is None,
            final(self).last_stop_signal() == signal_after_stop(
                old(self).stop_channel(),
                old(self).last_stop_signal(),
            ),
            final(self).events() == old(self).events(),
            final(self).event_sender() == old(self).event_sender(),
            final(self).event_channel() == old(self).event_channel(),
    {
        if let Some(stop_tx) = self.stop_tx.take() {
            let (_, handoff) = hand_over(stop_tx, ());
            self.last_signal = Some(handoff);
        }
    }

    /// Stops the server for good: the running server gets its stop signal
    /// and the event stream's sending end is dropped, so that the listener
    /// ends once the forwarders are done.
    pub fn stop(&mut self)
        ensures
            final(self)@ == after_stop(old(self)@),
            final(self).stop_channel() is None,
            final(self).last_stop_signal() == signal_after_stop(
                old(self).stop_channel(),
                old(self).last_stop_signal(),
            ),
            final(self).events() == old(self).events(),
            final(self).event_sender() is None,
            final(self).event_channel() == old(self).event_channel(),
    {
        self.signal_stop();
        self.event_tx = None;
    }
}

/// A new server can be started and listened to.
pub proof fn lemma_new_server_is_ready()
    ensures
        start_refusal(initial_state()) is None,
        listen_refusal(initial_state()) is None,
{
}

/// A server that runs refuses to be started again.
pub proof fn lemma_started_server_refuses_start(s: ServerState)
    requires
        start_refusal(s) is None,
    ensures
        start_refusal(after_started(s)) == Some(HttpServerError::AlreadyStarted),
{
}

/// Stopping is for good: a stopped server refuses every start as already
/// stopped, whether or not it ran, and stopping it again changes nothing.
pub proof fn lemma_stop_is_final(s: ServerState)
    ensures
        start_refusal(after_stop(s)) == Some(HttpServerError::AlreadyStopped),
        after_stop(after_stop(s)) == after_stop(s),
        !after_stop(s).running,
{
}

/// One stop signal per start: stopping a running server gives `()` to its
/// stop channel, and stopping (or dropping) it again gives nothing more; a
/// server that never ran is never signalled.
pub proof fn lemma_one_stop_signal_per_start(
    tx: oneshot::Sender<()>,
    last: Option<oneshot::Sender<()>>,
)
    ensures
        signal_after_stop(Some(tx), last) == Some(tx),
        signal_after_stop(None, signal_after_stop(Some(tx), last)) == Some(tx),
        signal_after_stop(None, None::<oneshot::Sender<()>>) is None,
{
}

/// The event stream goes to one listener: once handed out, every further
/// `listen` is refused; stopping neither hands it out nor takes it away.
pub proof fn lemma_single_listener(s: ServerState)
    ensures
        listen_refusal(after_listen(s)) == Some(HttpServerError::EventsAlreadyListened),
        listen_refusal(after_stop(s)) == listen_refusal(s),
        listen_refusal(after_started(s)) == listen_refusal(s),
{
}

/// A lifecycle operation, as it acts on the server's state. `Start` is a
/// start that, when not refused, is followed by `started` (a refused start
/// changes nothing); `Stop` is `stop`, `SignalStop` is `signal_stop` (what
/// dropping the server does), `Listen` is `listen`.
pub enum ServerOp {
    Start,
    Stop,
    SignalStop,
    Listen,
}

/// The state after one operation.
pub open spec fn after_op(s: ServerState, op: ServerOp) -> ServerState {
    match op {
        ServerOp::Start => if start_refusal(s) is None {
            after_started(s)
        } else {
            s
        },
        ServerOp::Stop => after_stop(s),
        ServerOp::SignalStop => after_stop_signal(s),
        ServerOp::Listen => after_listen(s),
    }
}

/// The state after the operations, in order.
pub open spec fn after_ops(s: ServerState, ops: Seq<ServerOp>) -> ServerState
    decreases ops.len(),
{
    if ops.len() == 0 {
        s
    } else {
        after_ops(after_op(s, ops[0]), ops.drop_first())
    }
}

proof fn lemma_stopped_stays_stopped(s: ServerState, ops: Seq<ServerOp>)
    requires
        !s.accepting,
        !s.running,
    ensures
        !after_ops(s, ops).accepting,
        !after_ops(s, ops).running,
    decreases ops.len(),
{
    if ops.len() > 0 {
        lemma_stopped_stays_stopped(after_op(s, ops[0]), ops.drop_first());
    }
}

/// Once stopped, a server is never started again: whatever starts, stops,
/// stop signals and listens follow, every start is refused as already
/// stopped.
pub proof fn lemma_stopped_for_good(s: ServerState, ops: Seq<ServerOp>)
    ensures
        start_refusal(after_ops(after_stop(s), ops)) == Some(HttpServerError::AlreadyStopped),
{
    lemma_stopped_stays_stopped(after_stop(s), ops);
}

/// Only the lifecycle refuses a start: a start is refused exactly while
/// the server runs or after it was stopped, and handing out the event
/// stream changes nothing about it.
pub proof fn lemma_start_refused_only_by_lifecycle(s: ServerState)
    ensures
        start_refusal(s) is None <==> (!s.running && s.accepting),
        start_refusal(s) == Some(HttpServerError::AlreadyStarted) <==> s.running,
        start_refusal(s) == Some(HttpServerError::AlreadyStopped) <==> (!s.running && !s.accepting),
        start_refusal(after_listen(s)) == start_refusal(s),
{
}

} // verus!
