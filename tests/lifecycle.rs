use std::cell::RefCell;
use std::rc::Rc;

use websocket_core::error::Error;
use websocket_core::outbound::Outbound;
use websocket_core::websocket::{CloseTask, ConnectionEstablishedTask, Event, Target, WebSocket};

#[derive(Debug, PartialEq, Eq, Clone)]
enum Frame {
    Text(String),
    Close,
}

#[derive(Clone, Default)]
struct Recorder {
    frames: Rc<RefCell<Vec<Frame>>>,
}

impl Outbound for Recorder {
    fn send_text(&mut self, data: String) {
        self.frames.borrow_mut().push(Frame::Text(data));
    }

    fn send_close(&mut self) {
        self.frames.borrow_mut().push(Frame::Close);
    }
}

fn target() -> Target {
    Target {
        host: "example.com".to_string(),
        port: 80,
        resource: "/chat".to_string(),
        secure: false,
    }
}

fn connecting() -> WebSocket<Recorder> {
    WebSocket::Constructor("ws://example.com/chat".to_string(), Some(target()), &Vec::new())
        .unwrap()
}

fn open(rec: &Recorder) -> WebSocket<Recorder> {
    let mut ws = connecting();
    let events = ConnectionEstablishedTask { sender: rec.clone() }.handler(&mut ws);
    assert_eq!(events, vec![Event::Open]);
    ws
}

#[test]
fn constructor_starts_connecting() {
    let ws = connecting();
    assert_eq!(ws.ReadyState(), 0);
    assert_eq!(ws.Url(), "ws://example.com/chat");
    assert_eq!(ws.target(), &target());
}

#[test]
fn constructor_refuses_missing_target() {
    let r = WebSocket::<Recorder>::Constructor("ws://".to_string(), None, &Vec::new());
    assert_eq!(r.err(), Some(Error::Syntax));
}

#[test]
fn constructor_refuses_bad_subprotocols() {
    let protocols = vec!["chat".to_string(), "chat".to_string()];
    let r = WebSocket::<Recorder>::Constructor("ws://example.com/".to_string(), Some(target()), &protocols);
    assert_eq!(r.err(), Some(Error::Syntax));
    let protocols = vec!["chat".to_string(), "CHAT".to_string()];
    let r = WebSocket::<Recorder>::Constructor("ws://example.com/".to_string(), Some(target()), &protocols);
    assert!(r.is_ok());
}

#[test]
fn send_while_connecting_is_refused() {
    let mut ws = connecting();
    assert_eq!(ws.Send("hi".to_string()), Err(Error::InvalidState));
    assert_eq!(ws.ReadyState(), 0);
}

#[test]
fn send_while_open_transmits_text() {
    let rec = Recorder::default();
    let mut ws = open(&rec);
    assert_eq!(ws.ReadyState(), 1);
    assert_eq!(ws.Send("hello".to_string()), Ok(()));
    assert_eq!(*rec.frames.borrow(), vec![Frame::Text("hello".to_string())]);
}

#[test]
fn send_after_close_is_silent() {
    let rec = Recorder::default();
    let mut ws = open(&rec);
    assert_eq!(ws.Close(None, None), Ok(()));
    assert_eq!(ws.Send("late".to_string()), Ok(()));
    assert_eq!(*rec.frames.borrow(), vec![Frame::Close]);
}

#[test]
fn close_with_code_and_reason_while_open_is_clean() {
    let rec = Recorder::default();
    let mut ws = open(&rec);
    assert_eq!(ws.Close(Some(1000), Some("bye".to_string())), Ok(()));
    assert_eq!(ws.ReadyState(), 2);
    assert_eq!(*rec.frames.borrow(), vec![Frame::Close]);
    let events = CloseTask { handshake_failed: false }.handler(&mut ws);
    assert_eq!(
        events,
        vec![Event::Close { was_clean: true, code: 1000, reason: "bye".to_string() }]
    );
    assert_eq!(ws.ReadyState(), 3);
}

#[test]
fn close_refuses_bad_code_before_any_change() {
    let rec = Recorder::default();
    let mut ws = open(&rec);
    assert_eq!(ws.Close(Some(2999), Some("bye".to_string())), Err(Error::InvalidAccess));
    assert_eq!(ws.ReadyState(), 1);
    assert!(rec.frames.borrow().is_empty());
}

#[test]
fn close_refuses_long_reason_before_any_change() {
    let rec = Recorder::default();
    let mut ws = open(&rec);
    assert_eq!(ws.Close(Some(1000), Some("r".repeat(124))), Err(Error::Syntax));
    assert_eq!(ws.ReadyState(), 1);
    assert_eq!(ws.Close(Some(1000), Some("r".repeat(123))), Ok(()));
    assert_eq!(ws.ReadyState(), 2);
}

#[test]
fn close_twice_keeps_first_code_and_reason() {
    let rec = Recorder::default();
    let mut ws = open(&rec);
    assert_eq!(ws.Close(Some(3000), Some("first".to_string())), Ok(()));
    assert_eq!(ws.Close(Some(4000), Some("second".to_string())), Ok(()));
    assert_eq!(*rec.frames.borrow(), vec![Frame::Close]);
    let events = CloseTask { handshake_failed: false }.handler(&mut ws);
    assert_eq!(
        events,
        vec![Event::Close { was_clean: true, code: 3000, reason: "first".to_string() }]
    );
}

#[test]
fn close_while_connecting_then_handshake_succeeds() {
    let rec = Recorder::default();
    let mut ws = connecting();
    assert_eq!(ws.Close(None, None), Ok(()));
    assert_eq!(ws.ReadyState(), 2);
    let events = ConnectionEstablishedTask { sender: rec.clone() }.handler(&mut ws);
    assert!(events.is_empty());
    assert_eq!(ws.ReadyState(), 2);
    assert_eq!(*rec.frames.borrow(), vec![Frame::Close]);
    let events = CloseTask { handshake_failed: false }.handler(&mut ws);
    assert_eq!(
        events,
        vec![Event::Error, Event::Close { was_clean: false, code: 0, reason: String::new() }]
    );
}

#[test]
fn failed_handshake_fires_error_then_close() {
    let mut ws = connecting();
    let events = CloseTask { handshake_failed: true }.handler(&mut ws);
    assert_eq!(
        events,
        vec![Event::Error, Event::Close { was_clean: false, code: 0, reason: String::new() }]
    );
    assert_eq!(ws.ReadyState(), 3);
    assert!(!events.contains(&Event::Open));
}

#[test]
fn disconnect_after_open_is_clean() {
    let rec = Recorder::default();
    let mut ws = open(&rec);
    let events = CloseTask { handshake_failed: false }.handler(&mut ws);
    assert_eq!(
        events,
        vec![Event::Close { was_clean: true, code: 0, reason: String::new() }]
    );
}

#[test]
fn event_flags() {
    assert!(!Event::Open.bubbles());
    assert!(!Event::Open.cancelable());
    assert!(Event::Error.cancelable());
    let close = Event::Close { was_clean: true, code: 1000, reason: String::new() };
    assert!(!close.cancelable());
    assert!(!close.bubbles());
}
