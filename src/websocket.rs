use vstd::prelude::*;

use crate::error::Error;
use crate::outbound::{Frame, Outbound, Outlet};
use crate::validate::{
    close_code_allowed, close_reason_allowed, names_of, subprotocols_valid,
    validate_close_code, validate_close_reason, validate_subprotocols,
};

verus! {

/// The lifecycle of a connection. It only moves forward, except that
/// `Connecting` may go straight to `Closing` when the connection is closed
/// before it opened.
#[derive(PartialEq, Eq, Structural, Clone, Copy, Debug)]
pub enum ReadyState {
    Connecting,
    Open,
    Closing,
    Closed,
}

impl ReadyState {
    /// The number that scripts see for this state.
    pub open spec fn spec_code(self) -> u16 {
        match self {
            ReadyState::Connecting => 0,
            ReadyState::Open => 1,
            ReadyState::Closing => 2,
            ReadyState::Closed => 3,
        }
    }

    pub fn code(&self) -> (r: u16)
        ensures
            r == self.spec_code(),
    {
        match self {
            ReadyState::Connecting => 0,
            ReadyState::Open => 1,
            ReadyState::Closing => 2,
            ReadyState::Closed => 3,
        }
    }
}

/// A normalized connection address: host, port, resource (path and query),
/// and whether the connection is secured.
#[derive(Clone, Debug, PartialEq, Eq)]
pub struct Target {
    pub host: String,
    pub port: u16,
    pub resource: String,
    pub secure: bool,
}

/// An event that a connection dispatches to its listeners.
#[derive(Clone, Debug, PartialEq, Eq)]
pub enum Event {
    /// The connection is established.
    Open,
    /// The connection ended through a failure.
    Error,
    /// The connection is closed.
    Close { was_clean: bool, code: u16, reason: String },
}

/// The mathematical value of an [`Event`].
pub enum EventModel {
    Open,
    Error,
    Close { was_clean: bool, code: u16, reason: Seq<char> },
}

impl View for Event {
    type V = EventModel;

    open spec fn view(&self) -> EventModel {
        match self {
            Event::Open => EventModel::Open,
            Event::Error => EventModel::Error,
            Event::Close { was_clean, code, reason } => EventModel::Close {
                was_clean: *was_clean,
                code: *code,
                reason: reason@,
            },
        }
    }
}

/// The values of a sequence of events.
pub open spec fn events_of(v: Seq<Event>) -> Seq<EventModel> {
    v.map_values(|e: Event| e@)
}

impl Event {
    /// No event of a connection bubbles.
    pub fn bubbles(&self) -> (r: bool)
        ensures
            !r,
    {
        false
    }

    /// Only the error event can be canceled.
    pub fn cancelable(&self) -> (r: bool)
        ensures
            r == (self is Error),
    {
        match self {
            Event::Error => true,
            _ => false,
        }
    }
}

/// The state of a connection as a value: its lifecycle state, whether it
/// holds an outbound half, its failure flags and what it will report on close.
pub struct SocketModel {
    pub state: ReadyState,
    pub outbound: bool,
    pub failed: bool,
    pub full: bool,
    pub clean_close: bool,
    pub code: u16,
    pub reason: Seq<char>,
}

impl SocketModel {
    /// An outbound half exists only once the connection has opened, and an
    /// open connection has one. Failures are recorded only when closing, and
    /// a close is clean until the connection has closed.
    pub open spec fn wf(self) -> bool {
        &&& (self.state != ReadyState::Closed ==> self.clean_close)
        &&& (self.state == ReadyState::Connecting ==> !self.outbound && !self.failed && !self.full)
        &&& (self.state == ReadyState::Open ==> self.outbound && !self.failed && !self.full)
    }
}

/// A new connection: connecting, nothing recorded yet.
pub open spec fn initial_model() -> SocketModel {
    SocketModel {
        state: ReadyState::Connecting,
        outbound: false,
        failed: false,
        full: false,
        clean_close: true,
        code: 0,
        reason: Seq::empty(),
    }
}

/// The character sequence of an optional string.
pub open spec fn opt_chars(s: Option<String>) -> Option<Seq<char>> {
    match s {
        Some(t) => Some(t@),
        None => None,
    }
}

/// What `send` returns: it is refused only while connecting.
pub open spec fn send_result(m: SocketModel) -> Result<(), Error> {
    if m.state == ReadyState::Connecting {
        Err(Error::InvalidState)
    } else {
        Ok(())
    }
}

/// What `close` returns: the code is checked first, then the reason.
pub open spec fn close_result(code: Option<u16>, reason: Option<Seq<char>>) -> Result<(), Error> {
    if code is Some && !close_code_allowed(code->0) {
        Err(Error::InvalidAccess)
    } else if reason is Some && !close_reason_allowed(reason->0) {
        Err(Error::Syntax)
    } else {
        Ok(())
    }
}

/// The state after an accepted `close`.
pub open spec fn after_close(m: SocketModel, code: Option<u16>, reason: Option<Seq<char>>) -> SocketModel {
    match m.state {
        ReadyState::Connecting => SocketModel { state: ReadyState::Closing, failed: true, ..m },
        ReadyState::Open => SocketModel {
            state: ReadyState::Closing,
            code: if code is Some { code->0 } else { m.code },
            reason: if reason is Some { reason->0 } else { m.reason },
            ..m
        },
        _ => m,
    }
}

/// The state after the handshake succeeded. A connection that was closed
/// while connecting does not open.
pub open spec fn after_established(m: SocketModel) -> SocketModel {
    if m.state == ReadyState::Connecting {
        SocketModel { state: ReadyState::Open, outbound: true, ..m }
    } else {
        m
    }
}

/// The events dispatched when the handshake succeeded.
pub open spec fn established_events(m: SocketModel) -> Seq<EventModel> {
    if m.state == ReadyState::Connecting {
        seq![EventModel::Open]
    } else {
        seq![]
    }
}

/// Whether the end of a connection is reported as a failure.
pub open spec fn ends_in_error(m: SocketModel, handshake_failed: bool) -> bool {
    m.failed || m.full || handshake_failed
}

/// The state after the connection closed.
pub open spec fn after_closed(m: SocketModel, handshake_failed: bool) -> SocketModel {
    if ends_in_error(m, handshake_failed) {
        SocketModel {
            state: ReadyState::Closed,
            failed: false,
            full: false,
            clean_close: false,
            ..m
        }
    } else {
        SocketModel { state: ReadyState::Closed, ..m }
    }
}

/// The events dispatched when the connection closed: an error event on a
/// failure, then always a close event with what the closed state records.
pub open spec fn closed_events(m: SocketModel, handshake_failed: bool) -> Seq<EventModel> {
    let n = after_closed(m, handshake_failed);
    let close = EventModel::Close { was_clean: n.clean_close, code: n.code, reason: n.reason };
    if ends_in_error(m, handshake_failed) {
        seq![EventModel::Error, close]
    } else {
        seq![close]
    }
}

/// A client connection: its address, lifecycle state, outbound half and the
/// bookkeeping of how it closed.
pub struct WebSocket<S> {
    url: String,
    target: Target,
    ready_state: ReadyState,
    sender: Option<Outlet<S>>,
    failed: bool,
    full: bool,
    clean_close: bool,
    code: u16,
    reason: String,
}

impl<S> View for WebSocket<S> {
    type V = SocketModel;

    closed spec fn view(&self) -> SocketModel {
        SocketModel {
            state: self.ready_state,
            outbound: self.sender is Some,
            failed: self.failed,
            full: self.full,
            clean_close: self.clean_close,
            code: self.code,
            reason: self.reason@,
        }
    }
}

impl<S: Outbound> WebSocket<S> {
    /// The serialized address that the connection was requested for.
    pub closed spec fn spec_url(&self) -> Seq<char> {
        self.url@
    }

    /// The normalized address that the connection was requested for.
    pub closed spec fn spec_target(&self) -> Target {
        self.target
    }

    /// The outbound half, once the connection holds one.
    pub closed spec fn spec_sender(&self) -> Option<Outlet<S>> {
        self.sender
    }

    /// What the outbound half has been asked to transmit; nothing before
    /// the connection holds one.
    pub open spec fn spec_sent(&self) -> Seq<Frame> {
        match self.spec_sender() {
            Some(s) => s.sent(),
            None => Seq::empty(),
        }
    }

    fn new_inherited(url: String, target: Target) -> (r: Self)
        ensures
            r@ == initial_model(),
            r.spec_url() == url@,
            r.spec_target() == target,
    {
        let r = WebSocket {
            url,
            target,
            ready_state: ReadyState::Connecting,
            sender: None,
            failed: false,
            full: false,
            clean_close: true,
            code: 0,
            reason: String::new(),
        };
        assert(r@.reason =~= Seq::<char>::empty());
        r
    }

    /// Requests a connection. `target` is the normalized form of `url`, or
    /// `None` where the address did not normalize. Fails with `Syntax` on a
    /// missing target or an invalid subprotocol list; else the connection
    /// starts out connecting.
    #[allow(non_snake_case)]
    pub fn Constructor(url: String, target: Option<Target>, protocols: &Vec<String>) -> (r: Result<Self, Error>)
        ensures
            match r {
                Ok(ws) => {
                    &&& target is Some
                    &&& subprotocols_valid(names_of(protocols@))
                    &&& ws@ == initial_model()
                    &&& ws.spec_url() == url@
                    &&& ws.spec_target() == target->0
                },
                Err(e) => {
                    &&& e == Error::Syntax
                    &&& (target is None || !subprotocols_valid(names_of(protocols@)))
                },
            },
    {
        let target = match target {
            Some(t) => t,
            None => {
                return Err(Error::Syntax);
            },
        };
        match validate_subprotocols(protocols) {
            Ok(()) => {},
            Err(e) => {
                return Err(e);
            },
        }
        Ok(WebSocket::new_inherited(url, target))
    }

    /// The serialized address.
    #[allow(non_snake_case)]
    pub fn Url(&self) -> (r: String)
        ensures
            r@ == self.spec_url(),
    {
        self.url.clone()
    }

    /// The normalized address.
    pub fn target(&self) -> (r: &Target)
        ensures
            *r == self.spec_target(),
    {
        &self.target
    }

    /// The lifecycle state as a number: 0 connecting, 1 open, 2 closing, 3 closed.
    #[allow(non_snake_case)]
    pub fn ReadyState(&self) -> (r: u16)
        ensures
            r == self@.state.spec_code(),
    {
        self.ready_state.code()
    }

    /// Sends a text message. Refused while connecting; once closing or
    /// closed it succeeds and sends nothing.
    #[allow(non_snake_case)]
    pub fn Send(&mut self, data: String) -> (r: Result<(), Error>)
        ensures
            r == send_result(old(self)@),
            final(self)@ == old(self)@,
            final(self).spec_url() == old(self).spec_url(),
            final(self).spec_target() == old(self).spec_target(),
            old(self)@.state == ReadyState::Open && old(self)@.outbound ==> final(self).spec_sent()
                == old(self).spec_sent().push(Frame::Text(data@)),
            old(self)@.state != ReadyState::Open || !old(self)@.outbound ==> *final(self)
                == *old(self),
    {
        match self.ready_state {
            ReadyState::Connecting => Err(Error::InvalidState),
            ReadyState::Open => {
                match &mut self.sender {
                    Some(s) => s.send_text(data),
                    None => {},
                }
                Ok(())
            },
            ReadyState::Closing | ReadyState::Closed => Ok(()),
        }
    }

    fn send_close(&mut self)
        ensures
            final(self)@ == (SocketModel { state: ReadyState::Closing, ..old(self)@ }),
            final(self).spec_url() == old(self).spec_url(),
            final(self).spec_target() == old(self).spec_target(),
            old(self)@.outbound ==> final(self).spec_sent() == old(self).spec_sent().push(Frame::Close),
            !old(self)@.outbound ==> final(self).spec_sender() == old(self).spec_sender(),
    {
        self.ready_state = ReadyState::Closing;
        match &mut self.sender {
            Some(s) => s.send_close(),
            None => {},
        }
    }

    /// Starts the closing handshake. The code and the reason are checked
    /// before anything changes; an open connection records them.
    #[allow(non_snake_case)]
    pub fn Close(&mut self, code: Option<u16>, reason: Option<String>) -> (r: Result<(), Error>)
        requires
            old(self)@.wf(),
        ensures
            r == close_result(code, opt_chars(reason)),
            r is Ok ==> final(self)@ == after_close(old(self)@, code, opt_chars(reason)),
            r is Err ==> *final(self) == *old(self),
            r is Ok && (old(self)@.state == ReadyState::Closing || old(self)@.state
                == ReadyState::Closed) ==> *final(self) == *old(self),
            r is Ok && old(self)@.state == ReadyState::Open ==> final(self).spec_sent()
                == old(self).spec_sent().push(Frame::Close),
            r is Ok && old(self)@.state == ReadyState::Connecting ==> final(self).spec_sender()
                == old(self).spec_sender(),
            final(self)@.wf(),
            final(self).spec_url() == old(self).spec_url(),
            final(self).spec_target() == old(self).spec_target(),
    {
        if let Some(c) = code {
            if validate_close_code(c).is_err() {
                return Err(Error::InvalidAccess);
            }
        }
        if let Some(ref t) = reason {
            if validate_close_reason(t.as_str()).is_err() {
                return Err(Error::Syntax);
            }
        }
        match self.ready_state {
            ReadyState::Closing | ReadyState::Closed => {},
            ReadyState::Connecting => {
                self.failed = true;
                self.send_close();
            },
            ReadyState::Open => {
                if let Some(c) = code {
                    self.code = c;
                }
                if let Some(t) = reason {
                    self.reason = t;
                }
                self.send_close();
            },
        }
        Ok(())
    }
}

/// Work queued when the handshake succeeded: it hands over the outbound half.
pub struct ConnectionEstablishedTask<S> {
    pub sender: S,
}

impl<S: Outbound> ConnectionEstablishedTask<S> {
    /// Opens the connection and dispatches `open`. Where the connection was
    /// closed while it was connecting, it stays closing: the outbound half
    /// sends a close frame and is let go, and no event fires.
    pub fn handler(self, ws: &mut WebSocket<S>) -> (events: Vec<Event>)
        requires
            old(ws)@.wf(),
        ensures
            final(ws)@ == after_established(old(ws)@),
            events_of(events@) == established_events(old(ws)@),
            old(ws)@.state == ReadyState::Connecting ==> (final(ws).spec_sender() matches Some(o)
                && o.spec_inner() == self.sender && o.sent() == Seq::<Frame>::empty()),
            old(ws)@.state != ReadyState::Connecting ==> *final(ws) == *old(ws),
            final(ws)@.wf(),
            final(ws).spec_url() == old(ws).spec_url(),
            final(ws).spec_target() == old(ws).spec_target(),
    {
        let mut sender = self.sender;
        let mut events: Vec<Event> = Vec::new();
        match ws.ready_state {
            ReadyState::Connecting => {
                ws.sender = Some(Outlet::new(sender));
                ws.ready_state = ReadyState::Open;
                events.push(Event::Open);
            },
            _ => {
                sender.send_close();
            },
        }
        assert(events_of(events@) =~= established_events(old(ws)@));
        events
    }
}

/// Work queued when the connection closed, or when the handshake failed.
pub struct CloseTask {
    pub handshake_failed: bool,
}

impl CloseTask {
    /// Closes the connection. On a failure (of the handshake, or recorded
    /// earlier) it clears the failure flags, marks the close unclean and
    /// dispatches `error`; then it always dispatches `close`.
    pub fn handler<S: Outbound>(self, ws: &mut WebSocket<S>) -> (events: Vec<Event>)
        ensures
            final(ws)@ == after_closed(old(ws)@, self.handshake_failed),
            events_of(events@) == closed_events(old(ws)@, self.handshake_failed),
            final(ws).spec_sender() == old(ws).spec_sender(),
            final(ws)@.wf(),
            final(ws).spec_url() == old(ws).spec_url(),
            final(ws).spec_target() == old(ws).spec_target(),
    {
        let mut events: Vec<Event> = Vec::new();
        if self.handshake_failed {
            ws.failed = true;
        }
        ws.ready_state = ReadyState::Closed;
        if ws.failed || ws.full {
            ws.failed = false;
            ws.full = false;
            ws.clean_close = false;
            events.push(Event::Error);
        }
        events.push(Event::Close {
            was_clean: ws.clean_close,
            code: ws.code,
            reason: ws.reason.clone(),
        });
        assert(events_of(events@) =~= closed_events(old(ws)@, self.handshake_failed));
        events
    }
}

} // verus!
