//! The server-role session bridge: origin admission, the per-session state
//! machine, and target address normalization.
//!
//! The surrounding I/O drives one state machine per incoming session; the
//! machine decides admission and classifies every outcome, and one session's
//! failure is terminal for that session alone.

use vstd::prelude::*;
use crate::bytes::append_bytes;
use crate::origin::is_origin_allowed;
use crate::origin::origin_allowed;
use crate::origin::view_opt;

verus! {

/// Whether a session is admitted: a session with no declared origin is
/// always denied; otherwise the allow-list decides.
pub open spec fn spec_admitted(allow: Option<Seq<u8>>, origin: Option<Seq<u8>>) -> bool {
    match origin {
        None => false,
        Some(o) => origin_allowed(allow, o),
    }
}

/// Decides admission of a session from its declared origin.
pub fn admit_session(allow: &Option<Vec<u8>>, origin: &Option<Vec<u8>>) -> (r: bool)
    ensures
        r == spec_admitted(view_opt(allow), view_opt(origin)),
{
    match origin {
        None => false,
        Some(o) => is_origin_allowed(allow, o),
    }
}

/// The per-session lifecycle.
#[derive(Clone, Copy, PartialEq, Eq, Structural, Debug)]
pub enum SessionState {
    /// Awaiting session negotiation.
    Pending,
    /// Origin denied; a forbidden response ends the session.
    Forbidden,
    /// Origin admitted; the session is accepted.
    Accepted,
    /// The TCP connection to the fixed target is open.
    TcpConnected,
    /// Bytes are being copied in both directions.
    Bridging,
    /// The session ended normally, a peer's unclean disconnect included.
    Closed,
    /// The session ended on an error; never fatal to the acceptor.
    Failed,
}

/// What the surrounding I/O observed for a session.
pub enum SessionEvent {
    /// Negotiation finished, with the declared origin, if any.
    Negotiated { origin: Option<Vec<u8>> },
    /// Negotiation failed.
    NegotiationFailed,
    /// The session was accepted and the TCP dial to the target succeeded.
    DialSucceeded,
    /// The TCP dial to the target failed.
    DialFailed,
    /// The bidirectional stream with the peer is open.
    StreamOpened,
    /// The bidirectional stream could not be opened.
    StreamFailed,
    /// Both copy directions finished cleanly.
    CopyFinished,
    /// The peer disconnected without a clean shutdown; a normal close.
    PeerDisconnected,
    /// Any other I/O error while bridging.
    CopyFailed,
}

/// The state a session moves to when `event` arrives in `state` under the
/// allow-list `allow`. Events that do not belong to the state leave it
/// unchanged.
pub open spec fn spec_session_step(
    state: SessionState,
    event: SessionEvent,
    allow: Option<Seq<u8>>,
) -> SessionState {
    match (state, event) {
        (SessionState::Pending, SessionEvent::Negotiated { origin }) => {
            if spec_admitted(allow, view_opt(&origin)) {
                SessionState::Accepted
            } else {
                SessionState::Forbidden
            }
        },
        (SessionState::Pending, SessionEvent::NegotiationFailed) => SessionState::Failed,
        (SessionState::Accepted, SessionEvent::DialSucceeded) => SessionState::TcpConnected,
        (SessionState::Accepted, SessionEvent::DialFailed) => SessionState::Failed,
        (SessionState::TcpConnected, SessionEvent::StreamOpened) => SessionState::Bridging,
        (SessionState::TcpConnected, SessionEvent::StreamFailed) => SessionState::Failed,
        (SessionState::Bridging, SessionEvent::CopyFinished) => SessionState::Closed,
        (SessionState::Bridging, SessionEvent::PeerDisconnected) => SessionState::Closed,
        (SessionState::Bridging, SessionEvent::CopyFailed) => SessionState::Failed,
        _ => state,
    }
}

/// Advances a session one step.
pub fn session_step(state: SessionState, event: &SessionEvent, allow: &Option<Vec<u8>>) -> (next:
    SessionState)
    ensures
        next == spec_session_step(state, *event, view_opt(allow)),
{
    match (state, event) {
        (SessionState::Pending, SessionEvent::Negotiated { origin }) => {
            if admit_session(allow, origin) {
                SessionState::Accepted
            } else {
                SessionState::Forbidden
            }
        },
        (SessionState::Pending, SessionEvent::NegotiationFailed) => SessionState::Failed,
        (SessionState::Accepted, SessionEvent::DialSucceeded) => SessionState::TcpConnected,
        (SessionState::Accepted, SessionEvent::DialFailed) => SessionState::Failed,
        (SessionState::TcpConnected, SessionEvent::StreamOpened) => SessionState::Bridging,
        (SessionState::TcpConnected, SessionEvent::StreamFailed) => SessionState::Failed,
        (SessionState::Bridging, SessionEvent::CopyFinished) => SessionState::Closed,
        (SessionState::Bridging, SessionEvent::PeerDisconnected) => SessionState::Closed,
        (SessionState::Bridging, SessionEvent::CopyFailed) => SessionState::Failed,
        _ => state,
    }
}

/// States from which no event moves a session.
pub open spec fn spec_terminal(state: SessionState) -> bool {
    state is Forbidden || state is Closed || state is Failed
}

/// A negotiation event whose declared origin the allow-list admits.
pub open spec fn spec_admitting_negotiation(event: SessionEvent, allow: Option<Seq<u8>>) -> bool {
    match event {
        SessionEvent::Negotiated { origin } => spec_admitted(allow, view_opt(&origin)),
        _ => false,
    }
}

/// The state a session is in after a whole run of events, starting from
/// `Pending`.
pub open spec fn spec_session_run(events: Seq<SessionEvent>, allow: Option<Seq<u8>>) -> SessionState
    decreases events.len(),
{
    if events.len() == 0 {
        SessionState::Pending
    } else {
        spec_session_step(spec_session_run(events.drop_last(), allow), events.last(), allow)
    }
}

/// A terminal session state never changes again.
pub proof fn lemma_terminal_states_stay(
    state: SessionState,
    event: SessionEvent,
    allow: Option<Seq<u8>>,
)
    requires
        spec_terminal(state),
    ensures
        spec_session_step(state, event, allow) == state,
{
}

/// Within one session the origin check strictly precedes the TCP dial: the
/// connected state is entered only from the accepted state, and the accepted
/// state only by a negotiation whose declared origin the allow-list admits.
pub proof fn lemma_dial_only_after_admission(
    state: SessionState,
    event: SessionEvent,
    allow: Option<Seq<u8>>,
)
    ensures
        spec_session_step(state, event, allow) is TcpConnected ==> (state is TcpConnected || (
        state is Accepted && event is DialSucceeded)),
        spec_session_step(state, event, allow) is Accepted ==> (state is Accepted || (
        state is Pending && spec_admitting_negotiation(event, allow))),
{
}

/// A session whose run holds no admitted negotiation never dials the target:
/// it can only stay pending or end forbidden or failed.
pub proof fn lemma_no_dial_without_admission(events: Seq<SessionEvent>, allow: Option<Seq<u8>>)
    requires
        forall|k: int|
            0 <= k < events.len() ==> !spec_admitting_negotiation(#[trigger] events[k], allow),
    ensures
        !(spec_session_run(events, allow) is Accepted),
        !(spec_session_run(events, allow) is TcpConnected),
        !(spec_session_run(events, allow) is Bridging),
        !(spec_session_run(events, allow) is Closed),
    decreases events.len(),
{
    if events.len() > 0 {
        lemma_no_dial_without_admission(events.drop_last(), allow);
        assert(events[events.len() - 1] == events.last());
    }
}

/// A byte is an ASCII decimal digit.
pub open spec fn is_digit(b: u8) -> bool {
    48 <= b <= 57
}

/// Every byte of `s` is a decimal digit.
pub open spec fn all_digits(s: Seq<u8>) -> bool {
    forall|i: int| 0 <= i < s.len() ==> is_digit(s[i])
}

/// The numeric value of a digit string, most significant digit first.
pub open spec fn digits_val(s: Seq<u8>) -> int
    decreases s.len(),
{
    if s.len() == 0 {
        0
    } else {
        digits_val(s.drop_last()) * 10 + (s.last() - 48)
    }
}

/// `s` is a port number the way Rust parses a `u16`: an optional leading
/// `+`, then at least one decimal digit and nothing else, with a value of at
/// most 65535.
pub open spec fn spec_is_port_number(s: Seq<u8>) -> bool {
    let body = if s.len() > 0 && s[0] == 43 {
        s.skip(1)
    } else {
        s
    };
    &&& body.len() > 0
    &&& all_digits(body)
    &&& digits_val(body) <= 65535
}

/// Whether the target string is a bare port number.
pub fn is_port_number(s: &Vec<u8>) -> (r: bool)
    ensures
        r == spec_is_port_number(s@),
{
    let n = s.len();
    if n == 0 {
        return false;
    }
    let start: usize = if s[0] == 43 {
        1
    } else {
        0
    };
    if n == start {
        return false;
    }
    let ghost body = if s@[0] == 43 {
        s@.skip(1)
    } else {
        s@
    };
    proof {
        assert(body.len() == n - start);
        assert forall|k: int| 0 <= k < body.len() implies body[k] == s@[k + start] by {}
    }
    let mut i: usize = start;
    let mut val: u32 = 0;
    let mut over: bool = false;
    while i < n
        invariant
            start <= i <= n,
            n == s@.len(),
            start == 1 ==> n > 0 && s@[0] == 43,
            body == (if s@.len() > 0 && s@[0] == 43 {
                s@.skip(1)
            } else {
                s@
            }),
            body.len() == n - start,
            forall|k: int| 0 <= k < body.len() ==> body[k] == s@[k + start],
            all_digits(body.subrange(0, i - start)),
            !over ==> val == digits_val(body.subrange(0, i - start)) && val <= 65535,
            over ==> digits_val(body.subrange(0, i - start)) > 65535,
        decreases n - i,
    {
        let b = s[i];
        if b < 48 || b > 57 {
            proof {
                assert(body[i - start] == s@[i as int]);
                assert(!is_digit(body[i - start]));
            }
            return false;
        }
        proof {
            let pre = body.subrange(0, i - start);
            let ext = body.subrange(0, i + 1 - start);
            assert(ext.drop_last() =~= pre);
            assert(ext.last() == body[i - start] == s@[i as int]);
            assert(digits_val(ext) == digits_val(pre) * 10 + (s@[i as int] - 48));
        }
        let d: u32 = (b - 48) as u32;
        if !over {
            let nv: u32 = val * 10 + d;
            if nv > 65535 {
                over = true;
            } else {
                val = nv;
            }
        }
        i = i + 1;
    }
    proof {
        assert(body.subrange(0, n - start) =~= body);
    }
    !over
}

/// The loopback prefix `127.0.0.1:`.
pub open spec fn loopback_prefix() -> Seq<u8> {
    seq![49u8, 50, 55, 46, 48, 46, 48, 46, 49, 58]
}

/// A bare port target `p` is rewritten to `127.0.0.1:p`; any other target is
/// kept as given.
pub fn normalize_server_target(target: &Vec<u8>) -> (r: Vec<u8>)
    ensures
        r@ == (if spec_is_port_number(target@) {
            loopback_prefix() + target@
        } else {
            target@
        }),
{
    let mut r: Vec<u8> = Vec::new();
    if is_port_number(target) {
        r.push(49);
        r.push(50);
        r.push(55);
        r.push(46);
        r.push(48);
        r.push(46);
        r.push(48);
        r.push(46);
        r.push(49);
        r.push(58);
        proof {
            assert(r@ =~= loopback_prefix());
        }
    }
    append_bytes(&mut r, target);
    proof {
        if !spec_is_port_number(target@) {
            assert(r@ =~= target@);
        }
    }
    r
}

} // verus!
