//! The per-connection handshake state machine.
//!
//! The machine holds every protocol decision of the handler: it consumes
//! events (bytes read, the outcome of a dial, the end of the relay) and yields
//! the next state together with the action the connection driver must perform
//! (read so many bytes, write a frame, dial an endpoint, relay, or close).
//! The driver performs the I/O and feeds the outcome back in; the machine
//! itself never touches a socket.

use vstd::prelude::*;

use crate::SOCKS_VERSION;
use crate::reply::{encode_reply, reply_seq, STATUS_CONNECTION_REFUSED, STATUS_SUCCESS};
use crate::resolver::{
    resolve_endpoint, spec_endpoint, ATYP_DOMAIN, ATYP_IPV4, ATYP_IPV6,
};

verus! {

/// Authentication method byte for "no authentication required".
pub const NO_AUTHENTICATION: u8 = 0x00;

/// Method reply byte meaning that no offered method is acceptable.
pub const NO_ACCEPTABLE_METHOD: u8 = 0xFF;

/// Command byte for CONNECT, the only supported command.
pub const CMD_CONNECT: u8 = 0x01;

/// Where the handshake stands between two events.
#[derive(Clone, Copy, Debug, PartialEq, Eq, Structural)]
pub enum State {
    /// Expecting the two greeting bytes: version and method count.
    AwaitGreeting,
    /// Expecting the method list of the greeting.
    AwaitMethods { n_methods: u8 },
    /// Expecting the four request header bytes.
    AwaitRequestHeader,
    /// Expecting the one-byte length prefix of a domain name.
    AwaitDomainLen,
    /// Expecting the address bytes followed by the two port bytes.
    AwaitAddress { addr_type: u8, raw_len: u16 },
    /// Waiting for the outcome of the outbound dial.
    Dialing,
    /// Relaying bytes between client and destination.
    Relaying,
    /// Terminated cleanly: the connection is closed as a normal outcome.
    Done,
    /// Terminated on a protocol violation: the connection is closed abruptly.
    Failed,
}

/// An outside outcome handed to the machine by the connection driver.
#[derive(Debug)]
pub enum Event {
    /// A read completed with exactly the requested bytes.
    Bytes(Vec<u8>),
    /// The outbound dial finished, successfully or not.
    Dialed(bool),
    /// The bidirectional relay finished, cleanly or on an I/O error.
    RelayFinished(bool),
}

/// What the connection driver must do next.
#[derive(Debug)]
pub enum Action {
    /// Read exactly this many bytes, then feed `Event::Bytes` back in.
    Read(u16),
    /// Write these bytes, then read exactly this many more.
    WriteThenRead(Vec<u8>, u16),
    /// Write these bytes, then close the connection cleanly.
    WriteThenClose(Vec<u8>),
    /// Dial this endpoint, then feed `Event::Dialed` back in.
    Dial(String),
    /// Write these bytes, then relay until either side closes, then feed
    /// `Event::RelayFinished` back in.
    WriteThenRelay(Vec<u8>),
    /// Close the connection abruptly, sending nothing further.
    CloseAbrupt,
    /// Close the connection cleanly, sending nothing further.
    CloseClean,
}

/// The mathematical value of an `Event`.
#[verifier::ext_equal]
pub enum EventView {
    Bytes(Seq<u8>),
    Dialed(bool),
    RelayFinished(bool),
}

/// The mathematical value of an `Action`.
#[verifier::ext_equal]
pub enum ActionView {
    Read(u16),
    WriteThenRead(Seq<u8>, u16),
    WriteThenClose(Seq<u8>),
    Dial(Seq<char>),
    WriteThenRelay(Seq<u8>),
    CloseAbrupt,
    CloseClean,
}

impl View for Event {
    type V = EventView;

    open spec fn view(&self) -> EventView {
        match self {
            Event::Bytes(b) => EventView::Bytes(b@),
            Event::Dialed(ok) => EventView::Dialed(*ok),
            Event::RelayFinished(ok) => EventView::RelayFinished(*ok),
        }
    }
}

impl View for Action {
    type V = ActionView;

    open spec fn view(&self) -> ActionView {
        match self {
            Action::Read(n) => ActionView::Read(*n),
            Action::WriteThenRead(w, n) => ActionView::WriteThenRead(w@, *n),
            Action::WriteThenClose(w) => ActionView::WriteThenClose(w@),
            Action::Dial(ep) => ActionView::Dial(ep@),
            Action::WriteThenRelay(w) => ActionView::WriteThenRelay(w@),
            Action::CloseAbrupt => ActionView::CloseAbrupt,
            Action::CloseClean => ActionView::CloseClean,
        }
    }
}

/// The bytes an action writes to the client; empty when it writes none.
pub open spec fn write_of(a: ActionView) -> Seq<u8> {
    match a {
        ActionView::WriteThenRead(w, _) => w,
        ActionView::WriteThenClose(w) => w,
        ActionView::WriteThenRelay(w) => w,
        _ => Seq::<u8>::empty(),
    }
}

/// How many bytes the machine expects to be read in a state, `None` where it
/// awaits no bytes.
pub open spec fn expected_read(s: State) -> Option<nat> {
    match s {
        State::AwaitGreeting => Some(2 as nat),
        State::AwaitMethods { n_methods } => Some(n_methods as nat),
        State::AwaitRequestHeader => Some(4 as nat),
        State::AwaitDomainLen => Some(1 as nat),
        State::AwaitAddress { addr_type: _, raw_len } => Some(raw_len as nat),
        State::Dialing => None,
        State::Relaying => None,
        State::Done => None,
        State::Failed => None,
    }
}

/// Internal consistency of a state: an address wait always carries a
/// supported tag with the byte count that fits it.
pub open spec fn state_wf(s: State) -> bool {
    match s {
        State::AwaitAddress { addr_type, raw_len } => (addr_type == ATYP_IPV4 && raw_len == 6) || (
        addr_type == ATYP_DOMAIN && 2 <= raw_len <= 257) || (addr_type == ATYP_IPV6 && raw_len
            == 18),
        _ => true,
    }
}

/// Whether an event is the answer the machine awaits in a state: read bytes of
/// exactly the expected count, a dial outcome while dialing, the end of the
/// relay while relaying.
pub open spec fn event_fits(s: State, e: EventView) -> bool {
    match e {
        EventView::Bytes(b) => expected_read(s) == Some(b.len()),
        EventView::Dialed(_) => s is Dialing,
        EventView::RelayFinished(_) => s is Relaying,
    }
}

/// The transition function of the handler: from a state and the event it
/// awaits to the next state and the action the driver must perform.
///
/// - A wrong version byte, at greeting or request, fails the connection
///   abruptly with nothing written.
/// - A greeting whose method list holds `NO_AUTHENTICATION` is answered
///   `[5, 0]`; any other list is answered `[5, 0xFF]` and the connection is
///   then closed with nothing further sent.
/// - An unsupported command or address type is answered with the refused
///   reply frame and a clean close; no dial is attempted.
/// - A supported address is decoded and dialed; the dial's outcome decides
///   between the success reply followed by the relay and the refused reply
///   followed by a clean close.
pub open spec fn spec_step(s: State, e: EventView) -> (State, ActionView) {
    match (s, e) {
        (State::AwaitGreeting, EventView::Bytes(b)) => {
            if b[0] != SOCKS_VERSION {
                (State::Failed, ActionView::CloseAbrupt)
            } else {
                (State::AwaitMethods { n_methods: b[1] }, ActionView::Read(b[1] as u16))
            }
        },
        (State::AwaitMethods { n_methods: _ }, EventView::Bytes(b)) => {
            if b.contains(NO_AUTHENTICATION) {
                (
                    State::AwaitRequestHeader,
                    ActionView::WriteThenRead(seq![SOCKS_VERSION, NO_AUTHENTICATION], 4u16),
                )
            } else {
                (State::Done, ActionView::WriteThenClose(seq![SOCKS_VERSION, NO_ACCEPTABLE_METHOD]))
            }
        },
        (State::AwaitRequestHeader, EventView::Bytes(b)) => {
            if b[0] != SOCKS_VERSION {
                (State::Failed, ActionView::CloseAbrupt)
            } else if b[1] != CMD_CONNECT {
                (State::Done, ActionView::WriteThenClose(reply_seq(STATUS_CONNECTION_REFUSED)))
            } else if b[3] == ATYP_IPV4 {
                (State::AwaitAddress { addr_type: ATYP_IPV4, raw_len: 6u16 }, ActionView::Read(
                    6u16,
                ))
            } else if b[3] == ATYP_DOMAIN {
                (State::AwaitDomainLen, ActionView::Read(1u16))
            } else if b[3] == ATYP_IPV6 {
                (State::AwaitAddress { addr_type: ATYP_IPV6, raw_len: 18u16 }, ActionView::Read(
                    18u16,
                ))
            } else {
                (State::Done, ActionView::WriteThenClose(reply_seq(STATUS_CONNECTION_REFUSED)))
            }
        },
        (State::AwaitDomainLen, EventView::Bytes(b)) => {
            (
                State::AwaitAddress { addr_type: ATYP_DOMAIN, raw_len: (b[0] + 2) as u16 },
                ActionView::Read((b[0] + 2) as u16),
            )
        },
        (State::AwaitAddress { addr_type, raw_len: _ }, EventView::Bytes(b)) => {
            (State::Dialing, ActionView::Dial(spec_endpoint(addr_type, b).unwrap()))
        },
        (State::Dialing, EventView::Dialed(ok)) => {
            if ok {
                (State::Relaying, ActionView::WriteThenRelay(reply_seq(STATUS_SUCCESS)))
            } else {
                (State::Done, ActionView::WriteThenClose(reply_seq(STATUS_CONNECTION_REFUSED)))
            }
        },
        (State::Relaying, EventView::RelayFinished(_)) => (State::Done, ActionView::CloseClean),
        _ => (State::Failed, ActionView::CloseAbrupt),
    }
}

/// For any greeting whose method list contains the no-authentication method,
/// the machine answers `[5, 0]` and goes on to await the request header.
pub proof fn lemma_no_auth_selected(s: State, methods: Seq<u8>)
    requires
        s is AwaitMethods,
        event_fits(s, EventView::Bytes(methods)),
        methods.contains(NO_AUTHENTICATION),
    ensures
        spec_step(s, EventView::Bytes(methods)).0 == State::AwaitRequestHeader,
        write_of(spec_step(s, EventView::Bytes(methods)).1) == seq![
            SOCKS_VERSION,
            NO_AUTHENTICATION,
        ],
{
}

/// For any greeting whose method list lacks the no-authentication method, the
/// machine answers `[5, 0xFF]` and terminates; with `lemma_terminal_silent`,
/// no further bytes are ever sent afterward.
pub proof fn lemma_no_acceptable_method(s: State, methods: Seq<u8>)
    requires
        s is AwaitMethods,
        event_fits(s, EventView::Bytes(methods)),
        !methods.contains(NO_AUTHENTICATION),
    ensures
        spec_step(s, EventView::Bytes(methods)).0 is Done,
        spec_step(s, EventView::Bytes(methods)).1 == ActionView::WriteThenClose(
            seq![SOCKS_VERSION, NO_ACCEPTABLE_METHOD],
        ),
{
}

/// Once the machine has terminated, cleanly or on failure, no event makes it
/// write a byte or leave a terminal state: nothing further is ever sent.
pub proof fn lemma_terminal_silent(s: State, e: EventView)
    requires
        s is Done || s is Failed,
    ensures
        write_of(spec_step(s, e).1) == Seq::<u8>::empty(),
        spec_step(s, e).0 is Done || spec_step(s, e).0 is Failed,
{
}

/// A wrong version byte in the greeting fails the connection abruptly, with
/// no reply frame written.
pub proof fn lemma_bad_greeting_version(b: Seq<u8>)
    requires
        b.len() == 2,
        b[0] != SOCKS_VERSION,
    ensures
        spec_step(State::AwaitGreeting, EventView::Bytes(b)) == (
            State::Failed,
            ActionView::CloseAbrupt,
        ),
{
}

/// A request whose command is not CONNECT is answered with the refused reply
/// frame and a clean close; in particular no dial is attempted.
pub proof fn lemma_unsupported_command(header: Seq<u8>)
    requires
        header.len() == 4,
        header[0] == SOCKS_VERSION,
        header[1] != CMD_CONNECT,
    ensures
        spec_step(State::AwaitRequestHeader, EventView::Bytes(header)) == (
            State::Done,
            ActionView::WriteThenClose(reply_seq(STATUS_CONNECTION_REFUSED)),
        ),
        !(spec_step(State::AwaitRequestHeader, EventView::Bytes(header)).1 is Dial),
{
}

/// A failed dial is answered with the refused reply frame and a clean close;
/// the failure is never escalated.
pub proof fn lemma_dial_failure()
    ensures
        spec_step(State::Dialing, EventView::Dialed(false)) == (
            State::Done,
            ActionView::WriteThenClose(reply_seq(STATUS_CONNECTION_REFUSED)),
        ),
{
}

/// A successful dial is answered with the success reply frame and the relay
/// begins.
pub proof fn lemma_dial_success()
    ensures
        spec_step(State::Dialing, EventView::Dialed(true)) == (
            State::Relaying,
            ActionView::WriteThenRelay(reply_seq(STATUS_SUCCESS)),
        ),
{
}

/// Whether a byte occurs in a vector.
fn contains_byte(v: &Vec<u8>, x: u8) -> (r: bool)
    ensures
        r == v@.contains(x),
{
    let mut i: usize = 0;
    while i < v.len()
        invariant
            i <= v@.len(),
            forall|j: int| 0 <= j < i ==> v@[j] != x,
        decreases v@.len() - i,
    {
        if v[i] == x {
            proof {
                assert(v@[i as int] == x);
            }
            return true;
        }
        i += 1;
    }
    false
}

/// The starting point of every connection: the machine awaits the two
/// greeting bytes.
pub fn initial() -> (r: (State, Action))
    ensures
        r.0 == State::AwaitGreeting,
        r.1@ == ActionView::Read(2u16),
        state_wf(r.0),
{
    (State::AwaitGreeting, Action::Read(2))
}

/// Performs one transition of the handler, exactly as `spec_step` says, and
/// keeps the state well formed.
pub fn step(state: State, event: Event) -> (r: (State, Action))
    requires
        state_wf(state),
        event_fits(state, event@),
    ensures
        r.0 == spec_step(state, event@).0,
        r.1@ == spec_step(state, event@).1,
        state_wf(r.0),
{
    match (state, event) {
        (State::AwaitGreeting, Event::Bytes(b)) => {
            if b[0] != SOCKS_VERSION {
                (State::Failed, Action::CloseAbrupt)
            } else {
                let n = b[1];
                (State::AwaitMethods { n_methods: n }, Action::Read(n as u16))
            }
        },
        (State::AwaitMethods { n_methods: _ }, Event::Bytes(b)) => {
            if contains_byte(&b, NO_AUTHENTICATION) {
                let mut w: Vec<u8> = Vec::new();
                w.push(SOCKS_VERSION);
                w.push(NO_AUTHENTICATION);
                proof {
                    assert(w@ =~= seq![SOCKS_VERSION, NO_AUTHENTICATION]);
                }
                (State::AwaitRequestHeader, Action::WriteThenRead(w, 4))
            } else {
                let mut w: Vec<u8> = Vec::new();
                w.push(SOCKS_VERSION);
                w.push(NO_ACCEPTABLE_METHOD);
                proof {
                    assert(w@ =~= seq![SOCKS_VERSION, NO_ACCEPTABLE_METHOD]);
                }
                (State::Done, Action::WriteThenClose(w))
            }
        },
        (State::AwaitRequestHeader, Event::Bytes(b)) => {
            if b[0] != SOCKS_VERSION {
                (State::Failed, Action::CloseAbrupt)
            } else if b[1] != CMD_CONNECT {
                (
                    State::Done,
                    Action::WriteThenClose(encode_reply(STATUS_CONNECTION_REFUSED)),
                )
            } else if b[3] == ATYP_IPV4 {
                (State::AwaitAddress { addr_type: ATYP_IPV4, raw_len: 6 }, Action::Read(6))
            } else if b[3] == ATYP_DOMAIN {
                (State::AwaitDomainLen, Action::Read(1))
            } else if b[3] == ATYP_IPV6 {
                (State::AwaitAddress { addr_type: ATYP_IPV6, raw_len: 18 }, Action::Read(18))
            } else {
                (
                    State::Done,
                    Action::WriteThenClose(encode_reply(STATUS_CONNECTION_REFUSED)),
                )
            }
        },
        (State::AwaitDomainLen, Event::Bytes(b)) => {
            let total = b[0] as u16 + 2;
            (State::AwaitAddress { addr_type: ATYP_DOMAIN, raw_len: total }, Action::Read(total))
        },
        (State::AwaitAddress { addr_type, raw_len: _ }, Event::Bytes(b)) => {
            match resolve_endpoint(addr_type, &b) {
                Some(ep) => (State::Dialing, Action::Dial(ep)),
                None => vstd::pervasive::unreached(),
            }
        },
        (State::Dialing, Event::Dialed(ok)) => {
            if ok {
                (State::Relaying, Action::WriteThenRelay(encode_reply(STATUS_SUCCESS)))
            } else {
                (
                    State::Done,
                    Action::WriteThenClose(encode_reply(STATUS_CONNECTION_REFUSED)),
                )
            }
        },
        (State::Relaying, Event::RelayFinished(_)) => (State::Done, Action::CloseClean),
        _ => vstd::pervasive::unreached(),
    }
}

} // verus!
