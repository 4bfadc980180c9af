//! One observer of the statistics server: the decisions of a session, from
//! what happens on its connection to what it does in answer.
//!
//! A session is driven from outside. Whoever owns the connection reports each
//! event, with the time on a clock of its own in milliseconds, and carries out
//! the action that comes back.

use crate::stats::PushMessage;
use vstd::prelude::*;

verus! {

/// How often a session probes its peer, in milliseconds.
pub const HEARTBEAT_INTERVAL: u64 = 5000;

/// How long a peer may stay silent before it is given up, in milliseconds.
pub const CLIENT_TIMEOUT: u64 = 10000;

/// Where a session stands in its life.
#[derive(Clone, Copy, Debug, PartialEq, Eq)]
pub enum Phase {
    /// Waiting for the server to answer the registration.
    Connecting,
    /// Registered and forwarding updates.
    Active,
    /// Given up while the registration was still under way; the session ends
    /// as soon as the server has answered.
    Cancelled,
    /// Over. Nothing happens any more.
    Terminated,
}

/// A frame that arrived from the peer.
#[derive(Clone, Debug, PartialEq, Eq)]
pub enum Frame {
    /// A ping, with its payload.
    Ping(Vec<u8>),
    Pong,
    Text,
    Binary,
    Close,
    Nop,
}

/// Something that happened to a session.
#[derive(Clone, Debug)]
pub enum Event {
    /// The server answered the registration with an identifier, or the
    /// registration failed.
    Registered(Option<usize>),
    /// The heartbeat timer fired at the given time.
    Heartbeat(u64),
    /// A frame arrived at the given time.
    Received(Frame, u64),
    /// The server pushed a message.
    Push(PushMessage),
    /// The connection was closed or broke.
    Closed,
}

/// What the owner of the connection has to do next.
#[derive(Clone, Debug, PartialEq, Eq)]
pub enum Action {
    /// Nothing.
    Idle,
    /// Send a ping with an empty payload.
    Ping,
    /// Answer a ping with a pong that carries the same payload.
    Pong(Vec<u8>),
    /// Send the message to the peer.
    Forward(PushMessage),
    /// End the session, and withdraw the identifier from the server if there
    /// is one.
    Terminate(Option<usize>),
}

/// A session's state as plain values.
pub struct SessionState {
    pub id: usize,
    pub heartbeat: u64,
    pub phase: Phase,
}

impl SessionState {
    /// The state of a session created at time `now`.
    pub open spec fn initial(now: u64) -> Self {
        SessionState { id: 0, heartbeat: now, phase: Phase::Connecting }
    }

    /// The time the peer has been silent at time `now`.
    pub open spec fn silence(self, now: u64) -> int {
        if now >= self.heartbeat {
            now - self.heartbeat
        } else {
            0
        }
    }

    /// Whether the peer has been silent for too long at time `now`.
    pub open spec fn expired(self, now: u64) -> bool {
        self.silence(now) > CLIENT_TIMEOUT
    }

    /// The state in which the session ends.
    pub open spec fn ended(self) -> Self {
        SessionState { phase: Phase::Terminated, ..self }
    }

    /// The state after the peer has shown, at time `now`, that it is alive.
    pub open spec fn refreshed(self, now: u64) -> Self {
        SessionState { heartbeat: now, ..self }
    }

    /// The state after the server has answered the registration.
    pub open spec fn after_registered(self, answer: Option<usize>) -> Self {
        match (self.phase, answer) {
            (Phase::Connecting, Some(id)) => SessionState { id, phase: Phase::Active, ..self },
            (Phase::Connecting, None) => self.ended(),
            (Phase::Cancelled, Some(id)) => SessionState { id, phase: Phase::Terminated, ..self },
            (Phase::Cancelled, None) => self.ended(),
            _ => self,
        }
    }

    /// What the session does once the server has answered the registration.
    pub open spec fn on_registered(self, answer: Option<usize>) -> Action {
        match (self.phase, answer) {
            (Phase::Connecting, Some(_)) => Action::Idle,
            (Phase::Connecting, None) => Action::Terminate(None),
            (Phase::Cancelled, answer) => Action::Terminate(answer),
            _ => Action::Idle,
        }
    }

    /// The state after the session has been given up for a reason of its own:
    /// the peer closed, the connection broke, or the peer fell silent.
    pub open spec fn after_given_up(self) -> Self {
        match self.phase {
            Phase::Connecting => SessionState { phase: Phase::Cancelled, ..self },
            Phase::Active => self.ended(),
            _ => self,
        }
    }

    /// What the session does when it is given up.
    pub open spec fn on_given_up(self) -> Action {
        match self.phase {
            Phase::Active => Action::Terminate(Some(self.id)),
            _ => Action::Idle,
        }
    }

    /// Whether the server still owes the session an answer to its
    /// registration. Until the answer is there the session must be kept, so
    /// that an identifier that arrives late can still be withdrawn.
    pub open spec fn registration_pending(self) -> bool {
        self.phase == Phase::Connecting || self.phase == Phase::Cancelled
    }

    /// Whether the session still watches its connection.
    pub open spec fn alive(self) -> bool {
        self.phase == Phase::Connecting || self.phase == Phase::Active
    }

    /// The state after the heartbeat timer has fired at time `now`.
    pub open spec fn after_heartbeat(self, now: u64) -> Self {
        if self.alive() && self.expired(now) {
            self.after_given_up()
        } else {
            self
        }
    }

    /// What the session does when the heartbeat timer fires at time `now`.
    pub open spec fn on_heartbeat(self, now: u64) -> Action {
        if !self.alive() {
            Action::Idle
        } else if self.expired(now) {
            self.on_given_up()
        } else {
            Action::Ping
        }
    }

    /// The state after `frame` has arrived at time `now`.
    pub open spec fn after_received(self, frame: Frame, now: u64) -> Self {
        if !self.alive() {
            self
        } else {
            match frame {
                Frame::Ping(_) => self.refreshed(now),
                Frame::Pong => self.refreshed(now),
                Frame::Close => self.after_given_up(),
                _ => self,
            }
        }
    }

    /// What the session does when `frame` arrives.
    pub open spec fn on_received(self, frame: Frame) -> Action {
        if !self.alive() {
            Action::Idle
        } else {
            match frame {
                Frame::Ping(payload) => Action::Pong(payload),
                Frame::Close => self.on_given_up(),
                _ => Action::Idle,
            }
        }
    }

    /// What the session does with a message from the server.
    pub open spec fn on_push(self, message: PushMessage) -> Action {
        if self.phase == Phase::Active {
            Action::Forward(message)
        } else {
            Action::Idle
        }
    }

    /// The state after `event`.
    pub open spec fn after(self, event: Event) -> Self {
        match event {
            Event::Registered(answer) => self.after_registered(answer),
            Event::Heartbeat(now) => self.after_heartbeat(now),
            Event::Received(frame, now) => self.after_received(frame, now),
            Event::Push(_) => self,
            Event::Closed => self.after_given_up(),
        }
    }

    /// What the session does in answer to `event`.
    pub open spec fn action(self, event: Event) -> Action {
        match event {
            Event::Registered(answer) => self.on_registered(answer),
            Event::Heartbeat(now) => self.on_heartbeat(now),
            Event::Received(frame, _) => self.on_received(frame),
            Event::Push(message) => self.on_push(message),
            Event::Closed => self.on_given_up(),
        }
    }
}

/// The session of one connected observer.
pub struct StatsSession {
    id: usize,
    hb: u64,
    phase: Phase,
}

impl View for StatsSession {
    type V = SessionState;

    closed spec fn view(&self) -> SessionState {
        SessionState { id: self.id, heartbeat: self.hb, phase: self.phase }
    }
}

impl StatsSession {
    /// A session whose connection was opened at time `now` and whose
    /// registration is under way.
    pub fn new(now: u64) -> (session: Self)
        ensures
            session@ == SessionState::initial(now),
    {
        StatsSession { id: 0, hb: now, phase: Phase::Connecting }
    }

    /// The identifier under which the server knows the session, once it is
    /// registered.
    pub fn id(&self) -> (id: usize)
        ensures
            id == self@.id,
    {
        self.id
    }

    /// Where the session stands.
    pub fn phase(&self) -> (phase: Phase)
        ensures
            phase == self@.phase,
    {
        self.phase
    }

    /// Takes note of the server's answer to the registration.
    pub fn registered(&mut self, answer: Option<usize>) -> (action: Action)
        ensures
            final(self)@ == old(self)@.after_registered(answer),
            action == old(self)@.on_registered(answer),
    {
        match self.phase {
            Phase::Connecting => match answer {
                Some(id) => {
                    self.id = id;
                    self.phase = Phase::Active;
                    Action::Idle
                },
                None => {
                    self.phase = Phase::Terminated;
                    Action::Terminate(None)
                },
            },
            Phase::Cancelled => {
                if let Some(id) = answer {
                    self.id = id;
                }
                self.phase = Phase::Terminated;
                Action::Terminate(answer)
            },
            _ => Action::Idle,
        }
    }

    /// Gives the session up: at once when it is registered, and as soon as
    /// the server has answered when it is not yet.
    pub fn stopping(&mut self) -> (action: Action)
        ensures
            final(self)@ == old(self)@.after_given_up(),
            action == old(self)@.on_given_up(),
    {
        match self.phase {
            Phase::Connecting => {
                self.phase = Phase::Cancelled;
                Action::Idle
            },
            Phase::Active => {
                self.phase = Phase::Terminated;
                Action::Terminate(Some(self.id))
            },
            _ => Action::Idle,
        }
    }

    /// Whether the answer to the registration is still awaited, and the
    /// session therefore must not be dropped yet.
    pub fn registration_pending(&self) -> (pending: bool)
        ensures
            pending == self@.registration_pending(),
    {
        match self.phase {
            Phase::Connecting => true,
            Phase::Cancelled => true,
            _ => false,
        }
    }

    /// Whether the session still watches its connection.
    pub fn alive(&self) -> (alive: bool)
        ensures
            alive == self@.alive(),
    {
        match self.phase {
            Phase::Connecting => true,
            Phase::Active => true,
            _ => false,
        }
    }

    /// The heartbeat: gives the session up when the peer has been silent for
    /// longer than `CLIENT_TIMEOUT`, and probes the peer otherwise.
    pub fn hb(&mut self, now: u64) -> (action: Action)
        ensures
            final(self)@ == old(self)@.after_heartbeat(now),
            action == old(self)@.on_heartbeat(now),
    {
        if !self.alive() {
            return Action::Idle;
        }
        let silence = if now >= self.hb {
            now - self.hb
        } else {
            0
        };
        if silence > CLIENT_TIMEOUT {
            self.stopping()
        } else {
            Action::Ping
        }
    }

    /// Handles a frame from the peer: a ping or a pong shows that the peer is
    /// alive, a close frame ends the session, and anything else is ignored.
    pub fn handle_frame(&mut self, frame: Frame, now: u64) -> (action: Action)
        ensures
            final(self)@ == old(self)@.after_received(frame, now),
            action == old(self)@.on_received(frame),
    {
        if !self.alive() {
            return Action::Idle;
        }
        match frame {
            Frame::Ping(payload) => {
                self.hb = now;
                Action::Pong(payload)
            },
            Frame::Pong => {
                self.hb = now;
                Action::Idle
            },
            Frame::Close => self.stopping(),
            _ => Action::Idle,
        }
    }

    /// Handles a message from the server: a registered session forwards it.
    pub fn handle_push(&self, message: PushMessage) -> (action: Action)
        ensures
            action == self@.on_push(message),
    {
        match self.phase {
            Phase::Active => Action::Forward(message),
            _ => Action::Idle,
        }
    }

    /// Handles any event.
    pub fn handle(&mut self, event: Event) -> (action: Action)
        ensures
            final(self)@ == old(self)@.after(event),
            action == old(self)@.action(event),
    {
        match event {
            Event::Registered(answer) => self.registered(answer),
            Event::Heartbeat(now) => self.hb(now),
            Event::Received(frame, now) => self.handle_frame(frame, now),
            Event::Push(message) => self.handle_push(message),
            Event::Closed => self.stopping(),
        }
    }
}

} // verus!
