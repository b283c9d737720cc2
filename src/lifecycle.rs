use vstd::prelude::*;

use crate::error::Error;
use crate::validate::{close_code_allowed, close_reason_allowed};
use crate::websocket::{
    after_close, after_closed, after_established, close_result, closed_events,
    established_events, EventModel, ReadyState, SocketModel,
};

verus! {

/// The position of a state in the lifecycle.
pub open spec fn rank(s: ReadyState) -> int {
    match s {
        ReadyState::Connecting => 0,
        ReadyState::Open => 1,
        ReadyState::Closing => 2,
        ReadyState::Closed => 3,
    }
}

/// No step moves a connection back in its lifecycle, a closed connection
/// stays closed, and every step keeps a well-formed state well-formed.
pub proof fn lemma_states_move_forward(
    m: SocketModel,
    code: Option<u16>,
    reason: Option<Seq<char>>,
    handshake_failed: bool,
)
    requires
        m.wf(),
    ensures
        rank(m.state) <= rank(after_close(m, code, reason).state),
        rank(m.state) <= rank(after_established(m).state),
        rank(m.state) <= rank(after_closed(m, handshake_failed).state),
        m.state == ReadyState::Closed ==> after_close(m, code, reason).state == ReadyState::Closed,
        m.state == ReadyState::Closed ==> after_established(m).state == ReadyState::Closed,
        after_close(m, code, reason).wf(),
        after_established(m).wf(),
        after_closed(m, handshake_failed).wf(),
{
}

/// Closing an open connection with an allowed code and reason records both
/// and moves it to closing; when it then closes, it fires no error event and
/// one close event that is clean and carries that code and reason.
pub proof fn lemma_clean_close(m: SocketModel, code: u16, reason: Seq<char>)
    requires
        m.wf(),
        m.state == ReadyState::Open,
        close_code_allowed(code),
        close_reason_allowed(reason),
    ensures
        close_result(Some(code), Some(reason)) == Ok::<(), Error>(()),
        after_close(m, Some(code), Some(reason)).state == ReadyState::Closing,
        after_close(m, Some(code), Some(reason)).code == code,
        after_close(m, Some(code), Some(reason)).reason == reason,
        closed_events(after_close(m, Some(code), Some(reason)), false) == seq![
            EventModel::Close { was_clean: true, code, reason },
        ],
{
}

/// A connection closed while it was connecting does not open when its
/// handshake succeeds after all, and when it then closes it fires an error
/// event and then an unclean close event.
pub proof fn lemma_close_while_connecting(m: SocketModel)
    requires
        m.wf(),
        m.state == ReadyState::Connecting,
    ensures
        close_result(None, None) == Ok::<(), Error>(()),
        established_events(after_close(m, None, None)) == Seq::<EventModel>::empty(),
        closed_events(after_established(after_close(m, None, None)), false) == seq![
            EventModel::Error,
            EventModel::Close { was_clean: false, code: m.code, reason: m.reason },
        ],
{
    assert(established_events(after_close(m, None, None)) =~= Seq::<EventModel>::empty());
}

/// A failed handshake fires no open event: its close fires exactly an error
/// event and then an unclean close event, whatever state it finds.
pub proof fn lemma_failed_handshake(m: SocketModel)
    ensures
        closed_events(m, true) == seq![
            EventModel::Error,
            EventModel::Close { was_clean: false, code: m.code, reason: m.reason },
        ],
        forall|i: int| 0 <= i < closed_events(m, true).len() ==> #[trigger] closed_events(m, true)[i] != EventModel::Open,
{
}

} // verus!
