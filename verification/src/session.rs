//! Session supervision as a state machine. A session moves from the
//! greeting through the request, the dial and the relay; every
//! decision the protocol calls for is a transition here. The driver
//! around the library performs the returned action — read so many
//! bytes, write a reply, dial an address, relay, or close — and
//! feeds the outcome back as the next event. Socket I/O never enters
//! this module, so the whole protocol logic is verified for every
//! byte a peer may send.

use vstd::prelude::*;

use crate::codec::{decode_domain_body, decode_ipv4_body, decode_ipv6_body};
use crate::handshake::{greeting_reply, negotiate};
use crate::reply::{encode_reply, reply_frame};
use crate::wire::{
    be16, Address, AddressV, ReplyCode, ATYP_DOMAIN, ATYP_IPV4, ATYP_IPV6, CMD_CONNECT,
    METHOD_NO_ACCEPTABLE, SOCKS_VERSION,
};

verus! {

/// Where a session stands between two events.
#[derive(Clone, Copy, Debug, PartialEq, Eq, Structural)]
pub enum SessionState {
    /// Awaiting the two greeting-head bytes: version and method count.
    GreetingHead,
    /// Awaiting the `n` advertised method bytes.
    GreetingMethods { n: u8 },
    /// Awaiting the four request-head bytes: version, command,
    /// reserved, address type.
    RequestHead,
    /// Awaiting the one-byte length prefix of a domain name.
    DomainLen,
    /// Awaiting the six-byte IPv4 body.
    Ipv4Body,
    /// Awaiting the `len + 2` bytes of domain name and port.
    DomainBody { len: u8 },
    /// Awaiting the eighteen-byte IPv6 body.
    Ipv6Body,
    /// Awaiting the outcome of the outbound dial.
    Dialing,
    /// Both sockets are handed to the relay; the machine is done.
    Relaying,
    /// The session is terminated; no event is accepted any more.
    Failed,
}

/// Why a session terminated before reaching the relay.
#[derive(Clone, Copy, Debug, PartialEq, Eq, Structural)]
pub enum Failure {
    /// The greeting named a version other than SOCKS5.
    BadGreetingVersion,
    /// No advertised method was acceptable.
    NoAcceptableMethod,
    /// The request named a version other than SOCKS5.
    BadRequestVersion,
    /// The request carried a command other than CONNECT.
    CommandUnsupported,
    /// The request carried an unknown address-type byte.
    AddressTypeUnsupported,
    /// The request carried a domain name of length zero.
    EmptyDomainName,
    /// The outbound connection could not be opened.
    DialFailed,
}

/// What the driver reports to the machine.
pub enum Event {
    /// Exactly the bytes the machine asked to read.
    Bytes(Vec<u8>),
    /// The outbound connection is open.
    DialSucceeded,
    /// The outbound connection could not be opened.
    DialFailed,
}

/// Model of an `Event`.
#[verifier::ext_equal]
pub enum EventV {
    Bytes(Seq<u8>),
    DialSucceeded,
    DialFailed,
}

impl View for Event {
    type V = EventV;

    open spec fn view(&self) -> EventV {
        match self {
            Event::Bytes(b) => EventV::Bytes(b@),
            Event::DialSucceeded => EventV::DialSucceeded,
            Event::DialFailed => EventV::DialFailed,
        }
    }
}

/// What the driver must do after writing the step's reply bytes.
#[derive(Clone, Debug, PartialEq, Eq)]
pub enum Next {
    /// Read exactly this many bytes and report them.
    Read(usize),
    /// Open an outbound connection to this address and report the
    /// outcome.
    Dial(Address),
    /// Hand both sockets to the relay.
    Relay,
    /// Close whatever sockets are open; the session is over for this
    /// reason.
    Close(Failure),
}

/// Model of a `Next`.
#[verifier::ext_equal]
pub enum NextV {
    Read(int),
    Dial(AddressV),
    Relay,
    Close(Failure),
}

impl View for Next {
    type V = NextV;

    open spec fn view(&self) -> NextV {
        match self {
            Next::Read(n) => NextV::Read(*n as int),
            Next::Dial(a) => NextV::Dial(a@),
            Next::Relay => NextV::Relay,
            Next::Close(f) => NextV::Close(*f),
        }
    }
}

/// One transition's output: bytes owed to the client, then the next
/// thing to do.
#[derive(Debug)]
pub struct Step {
    /// Bytes to write to the client before acting on `next`; often
    /// empty.
    pub reply: Vec<u8>,
    /// The action the machine asks for.
    pub next: Next,
}

/// Model of a whole transition: successor state and step output.
#[verifier::ext_equal]
pub struct TransitionV {
    pub state: SessionState,
    pub reply: Seq<u8>,
    pub next: NextV,
}

/// The transition relation of a session. `None` stands for an event
/// the state does not accept: bytes of a length the machine never
/// asked for, a dial outcome outside the dial stage, or any event in
/// a terminal state. The driver that honours each step's action
/// never produces such an event.
pub open spec fn spec_step(s: SessionState, ev: EventV) -> Option<TransitionV> {
    match (s, ev) {
        (SessionState::GreetingHead, EventV::Bytes(b)) => if b.len() != 2 {
            None
        } else if b[0] != SOCKS_VERSION {
            Some(
                TransitionV {
                    state: SessionState::Failed,
                    reply: Seq::empty(),
                    next: NextV::Close(Failure::BadGreetingVersion),
                },
            )
        } else if b[1] == 0 {
            Some(
                TransitionV {
                    state: SessionState::Failed,
                    reply: seq![SOCKS_VERSION, METHOD_NO_ACCEPTABLE],
                    next: NextV::Close(Failure::NoAcceptableMethod),
                },
            )
        } else {
            Some(
                TransitionV {
                    state: SessionState::GreetingMethods { n: b[1] },
                    reply: Seq::empty(),
                    next: NextV::Read(b[1] as int),
                },
            )
        },
        (SessionState::GreetingMethods { n }, EventV::Bytes(m)) => if m.len() != n {
            None
        } else if m.contains(crate::wire::METHOD_NO_AUTH) {
            Some(
                TransitionV {
                    state: SessionState::RequestHead,
                    reply: greeting_reply(m),
                    next: NextV::Read(4),
                },
            )
        } else {
            Some(
                TransitionV {
                    state: SessionState::Failed,
                    reply: greeting_reply(m),
                    next: NextV::Close(Failure::NoAcceptableMethod),
                },
            )
        },
        (SessionState::RequestHead, EventV::Bytes(h)) => if h.len() != 4 {
            None
        } else if h[0] != SOCKS_VERSION {
            Some(
                TransitionV {
                    state: SessionState::Failed,
                    reply: Seq::empty(),
                    next: NextV::Close(Failure::BadRequestVersion),
                },
            )
        } else if h[1] != CMD_CONNECT {
            Some(
                TransitionV {
                    state: SessionState::Failed,
                    reply: reply_frame(ReplyCode::CommandUnsupported),
                    next: NextV::Close(Failure::CommandUnsupported),
                },
            )
        } else if h[3] == ATYP_IPV4 {
            Some(
                TransitionV {
                    state: SessionState::Ipv4Body,
                    reply: Seq::empty(),
                    next: NextV::Read(6),
                },
            )
        } else if h[3] == ATYP_DOMAIN {
            Some(
                TransitionV {
                    state: SessionState::DomainLen,
                    reply: Seq::empty(),
                    next: NextV::Read(1),
                },
            )
        } else if h[3] == ATYP_IPV6 {
            Some(
                TransitionV {
                    state: SessionState::Ipv6Body,
                    reply: Seq::empty(),
                    next: NextV::Read(18),
                },
            )
        } else {
            Some(
                TransitionV {
                    state: SessionState::Failed,
                    reply: reply_frame(ReplyCode::AddressTypeUnsupported),
                    next: NextV::Close(Failure::AddressTypeUnsupported),
                },
            )
        },
        (SessionState::DomainLen, EventV::Bytes(l)) => if l.len() != 1 {
            None
        } else if l[0] == 0 {
            Some(
                TransitionV {
                    state: SessionState::Failed,
                    reply: reply_frame(ReplyCode::GeneralFailure),
                    next: NextV::Close(Failure::EmptyDomainName),
                },
            )
        } else {
            Some(
                TransitionV {
                    state: SessionState::DomainBody { len: l[0] },
                    reply: Seq::empty(),
                    next: NextV::Read(l[0] + 2),
                },
            )
        },
        (SessionState::Ipv4Body, EventV::Bytes(b)) => if b.len() != 6 {
            None
        } else {
            Some(
                TransitionV {
                    state: SessionState::Dialing,
                    reply: Seq::empty(),
                    next: NextV::Dial(
                        AddressV::Ipv4 { octets: b.subrange(0, 4), port: be16(b[4], b[5]) },
                    ),
                },
            )
        },
        (SessionState::DomainBody { len }, EventV::Bytes(b)) => if len == 0 || b.len() != len
            + 2 {
            None
        } else {
            Some(
                TransitionV {
                    state: SessionState::Dialing,
                    reply: Seq::empty(),
                    next: NextV::Dial(
                        AddressV::Domain {
                            name: b.subrange(0, len as int),
                            port: be16(b[len as int], b[len as int + 1]),
                        },
                    ),
                },
            )
        },
        (SessionState::Ipv6Body, EventV::Bytes(b)) => if b.len() != 18 {
            None
        } else {
            Some(
                TransitionV {
                    state: SessionState::Dialing,
                    reply: Seq::empty(),
                    next: NextV::Dial(
                        AddressV::Ipv6 { octets: b.subrange(0, 16), port: be16(b[16], b[17]) },
                    ),
                },
            )
        },
        (SessionState::Dialing, EventV::DialSucceeded) => Some(
            TransitionV {
                state: SessionState::Relaying,
                reply: reply_frame(ReplyCode::Succeeded),
                next: NextV::Relay,
            },
        ),
        (SessionState::Dialing, EventV::DialFailed) => Some(
            TransitionV {
                state: SessionState::Failed,
                reply: reply_frame(ReplyCode::NetworkUnreachable),
                next: NextV::Close(Failure::DialFailed),
            },
        ),
        _ => None,
    }
}

/// One session's supervision state.
pub struct Session {
    state: SessionState,
}

impl View for Session {
    type V = SessionState;

    closed spec fn view(&self) -> SessionState {
        self.state
    }
}

impl Session {
    /// A fresh session for one accepted connection, with how many
    /// bytes to read first: the two greeting-head bytes.
    pub fn new() -> (r: (Session, usize))
        ensures
            r.0@ == SessionState::GreetingHead,
            r.1 == 2,
    {
        (Session { state: SessionState::GreetingHead }, 2)
    }

    /// The state the session stands in.
    pub fn state(&self) -> (s: SessionState)
        ensures
            s == self@,
    {
        self.state
    }

    /// Feeds one event to the session and returns what to do next,
    /// exactly as the transition relation says.
    pub fn step(&mut self, ev: Event) -> (r: Step)
        requires
            spec_step(old(self)@, ev@) is Some,
        ensures
            final(self)@ == spec_step(old(self)@, ev@).unwrap().state,
            r.reply@ == spec_step(old(self)@, ev@).unwrap().reply,
            r.next@ == spec_step(old(self)@, ev@).unwrap().next,
    {
        let st = self.state;
        match (st, ev) {
            (SessionState::GreetingHead, Event::Bytes(b)) => {
                if b[0] != SOCKS_VERSION {
                    self.state = SessionState::Failed;
                    Step { reply: Vec::new(), next: Next::Close(Failure::BadGreetingVersion) }
                } else if b[1] == 0 {
                    let mut reply: Vec<u8> = Vec::new();
                    reply.push(SOCKS_VERSION);
                    reply.push(METHOD_NO_ACCEPTABLE);
                    proof {
                        assert(reply@ =~= seq![SOCKS_VERSION, METHOD_NO_ACCEPTABLE]);
                    }
                    self.state = SessionState::Failed;
                    Step { reply, next: Next::Close(Failure::NoAcceptableMethod) }
                } else {
                    let n = b[1];
                    self.state = SessionState::GreetingMethods { n };
                    Step { reply: Vec::new(), next: Next::Read(n as usize) }
                }
            }
            (SessionState::GreetingMethods { n: _ }, Event::Bytes(m)) => {
                let (found, reply) = negotiate(&m);
                if found {
                    self.state = SessionState::RequestHead;
                    Step { reply, next: Next::Read(4) }
                } else {
                    self.state = SessionState::Failed;
                    Step { reply, next: Next::Close(Failure::NoAcceptableMethod) }
                }
            }
            (SessionState::RequestHead, Event::Bytes(h)) => {
                if h[0] != SOCKS_VERSION {
                    self.state = SessionState::Failed;
                    Step { reply: Vec::new(), next: Next::Close(Failure::BadRequestVersion) }
                } else if h[1] != CMD_CONNECT {
                    self.state = SessionState::Failed;
                    Step {
                        reply: encode_reply(ReplyCode::CommandUnsupported),
                        next: Next::Close(Failure::CommandUnsupported),
                    }
                } else if h[3] == ATYP_IPV4 {
                    self.state = SessionState::Ipv4Body;
                    Step { reply: Vec::new(), next: Next::Read(6) }
                } else if h[3] == ATYP_DOMAIN {
                    self.state = SessionState::DomainLen;
                    Step { reply: Vec::new(), next: Next::Read(1) }
                } else if h[3] == ATYP_IPV6 {
                    self.state = SessionState::Ipv6Body;
                    Step { reply: Vec::new(), next: Next::Read(18) }
                } else {
                    self.state = SessionState::Failed;
                    Step {
                        reply: encode_reply(ReplyCode::AddressTypeUnsupported),
                        next: Next::Close(Failure::AddressTypeUnsupported),
                    }
                }
            }
            (SessionState::DomainLen, Event::Bytes(l)) => {
                if l[0] == 0 {
                    self.state = SessionState::Failed;
                    Step {
                        reply: encode_reply(ReplyCode::GeneralFailure),
                        next: Next::Close(Failure::EmptyDomainName),
                    }
                } else {
                    let len = l[0];
                    self.state = SessionState::DomainBody { len };
                    Step { reply: Vec::new(), next: Next::Read(len as usize + 2) }
                }
            }
            (SessionState::Ipv4Body, Event::Bytes(b)) => {
                let a = decode_ipv4_body(b.as_slice());
                self.state = SessionState::Dialing;
                Step { reply: Vec::new(), next: Next::Dial(a) }
            }
            (SessionState::DomainBody { len }, Event::Bytes(b)) => {
                let a = decode_domain_body(len, b.as_slice());
                self.state = SessionState::Dialing;
                Step { reply: Vec::new(), next: Next::Dial(a) }
            }
            (SessionState::Ipv6Body, Event::Bytes(b)) => {
                let a = decode_ipv6_body(b.as_slice());
                self.state = SessionState::Dialing;
                Step { reply: Vec::new(), next: Next::Dial(a) }
            }
            (SessionState::Dialing, Event::DialSucceeded) => {
                self.state = SessionState::Relaying;
                Step { reply: encode_reply(ReplyCode::Succeeded), next: Next::Relay }
            }
            (SessionState::Dialing, Event::DialFailed) => {
                self.state = SessionState::Failed;
                Step {
                    reply: encode_reply(ReplyCode::NetworkUnreachable),
                    next: Next::Close(Failure::DialFailed),
                }
            }
            _ => {
                proof {
                    assert(false);
                }
                Step { reply: Vec::new(), next: Next::Relay }
            }
        }
    }
}

/// A terminated session accepts no further event: nothing follows a
/// failure, so a failed handshake or request never reaches the
/// stages behind it.
pub proof fn lemma_failed_is_terminal(ev: EventV)
    ensures
        spec_step(SessionState::Failed, ev) is None,
{
}

/// A session only ever starts relaying because the dial of the
/// parsed destination succeeded — never after a failed handshake,
/// a malformed request, or a failed dial.
pub proof fn lemma_relay_only_after_dial(s: SessionState, ev: EventV)
    requires
        spec_step(s, ev) is Some,
    ensures
        spec_step(s, ev).unwrap().next is Relay ==> s == SessionState::Dialing && ev
            == EventV::DialSucceeded,
        spec_step(s, ev).unwrap().state == SessionState::Relaying ==> s == SessionState::Dialing
            && ev == EventV::DialSucceeded,
{
}

/// Every greeting whose advertised methods include
/// no-authentication — whatever else stands among them — is
/// accepted: the machine reads the advertised methods, replies with
/// exactly the version byte and the selected no-authentication
/// method, and moves on to the request.
pub proof fn lemma_handshake_accepts(n: u8, methods: Seq<u8>)
    requires
        methods.len() == n,
        methods.contains(crate::wire::METHOD_NO_AUTH),
    ensures
        ({
            let t1 = spec_step(
                SessionState::GreetingHead,
                EventV::Bytes(seq![SOCKS_VERSION, n]),
            ).unwrap();
            let t2 = spec_step(t1.state, EventV::Bytes(methods)).unwrap();
            &&& t1.state == (SessionState::GreetingMethods { n })
            &&& t1.reply == Seq::<u8>::empty()
            &&& t1.next == NextV::Read(n as int)
            &&& t2.state == SessionState::RequestHead
            &&& t2.reply =~= seq![SOCKS_VERSION, crate::wire::METHOD_NO_AUTH]
            &&& t2.next == NextV::Read(4int)
        }),
{
    assert(n != 0) by {
        if n == 0 {
            assert(methods.len() == 0);
            let i = choose|i: int| 0 <= i < methods.len() && methods[i]
                == crate::wire::METHOD_NO_AUTH;
            assert(false);
        }
    }
}

/// Every greeting whose advertised methods do not include
/// no-authentication is rejected: the machine replies with the
/// version byte and the none-acceptable marker, terminates, and
/// never reaches the request stage.
pub proof fn lemma_handshake_rejects(n: u8, methods: Seq<u8>)
    requires
        methods.len() == n,
        !methods.contains(crate::wire::METHOD_NO_AUTH),
    ensures
        n == 0 ==> ({
            let t1 = spec_step(
                SessionState::GreetingHead,
                EventV::Bytes(seq![SOCKS_VERSION, n]),
            ).unwrap();
            &&& t1.state == SessionState::Failed
            &&& t1.reply =~= seq![SOCKS_VERSION, METHOD_NO_ACCEPTABLE]
            &&& t1.next == NextV::Close(Failure::NoAcceptableMethod)
        }),
        n > 0 ==> ({
            let t1 = spec_step(
                SessionState::GreetingHead,
                EventV::Bytes(seq![SOCKS_VERSION, n]),
            ).unwrap();
            let t2 = spec_step(t1.state, EventV::Bytes(methods)).unwrap();
            &&& t1.state == (SessionState::GreetingMethods { n })
            &&& t2.state == SessionState::Failed
            &&& t2.reply =~= seq![SOCKS_VERSION, METHOD_NO_ACCEPTABLE]
            &&& t2.next == NextV::Close(Failure::NoAcceptableMethod)
        }),
{
}

/// A CONNECT request to an IPv4 destination consumes exactly six
/// body bytes: the machine asks to read six bytes after the request
/// head, and once it has them it dials the decoded destination
/// without asking for anything more.
pub proof fn lemma_ipv4_reads_exactly_six(head: Seq<u8>, body: Seq<u8>)
    requires
        head.len() == 4,
        head[0] == SOCKS_VERSION,
        head[1] == CMD_CONNECT,
        head[3] == ATYP_IPV4,
        body.len() == 6,
    ensures
        ({
            let t1 = spec_step(SessionState::RequestHead, EventV::Bytes(head)).unwrap();
            let t2 = spec_step(t1.state, EventV::Bytes(body)).unwrap();
            &&& t1.state == SessionState::Ipv4Body
            &&& t1.reply == Seq::<u8>::empty()
            &&& t1.next == NextV::Read(6int)
            &&& t2.reply == Seq::<u8>::empty()
            &&& t2.next == (NextV::Dial(
                AddressV::Ipv4 { octets: body.subrange(0, 4), port: be16(body[4], body[5]) },
            ))
        }),
{
}

/// States the machine can actually reach: a method count or domain
/// length of zero is turned away at the step that would record it,
/// so no awaiting state ever holds one.
pub open spec fn state_wf(s: SessionState) -> bool {
    match s {
        SessionState::GreetingMethods { n } => n >= 1,
        SessionState::DomainBody { len } => len >= 1,
        _ => true,
    }
}

/// Every transition preserves state well-formedness, so every state
/// reachable from a fresh session is well-formed.
pub proof fn lemma_step_preserves_wf(s: SessionState, ev: EventV)
    requires
        state_wf(s),
        spec_step(s, ev) is Some,
    ensures
        state_wf(spec_step(s, ev).unwrap().state),
{
}

/// A CONNECT request to an IPv6 destination consumes exactly
/// eighteen body bytes, and the decoded destination carries those
/// sixteen octets and that big-endian port.
pub proof fn lemma_ipv6_reads_exactly_eighteen(head: Seq<u8>, body: Seq<u8>)
    requires
        head.len() == 4,
        head[0] == SOCKS_VERSION,
        head[1] == CMD_CONNECT,
        head[3] == ATYP_IPV6,
        body.len() == 18,
    ensures
        ({
            let t1 = spec_step(SessionState::RequestHead, EventV::Bytes(head)).unwrap();
            let t2 = spec_step(t1.state, EventV::Bytes(body)).unwrap();
            &&& t1.state == SessionState::Ipv6Body
            &&& t1.next == NextV::Read(18int)
            &&& t2.next == (NextV::Dial(
                AddressV::Ipv6 { octets: body.subrange(0, 16), port: be16(body[16], body[17]) },
            ))
        }),
{
}

/// A request carrying any command other than CONNECT is answered
/// with the command-unsupported reply frame and terminates the
/// session: no dial is ever attempted for it.
pub proof fn lemma_command_rejected(head: Seq<u8>)
    requires
        head.len() == 4,
        head[0] == SOCKS_VERSION,
        head[1] != CMD_CONNECT,
    ensures
        ({
            let t = spec_step(SessionState::RequestHead, EventV::Bytes(head)).unwrap();
            &&& t.state == SessionState::Failed
            &&& t.reply == reply_frame(ReplyCode::CommandUnsupported)
            &&& t.next == NextV::Close(Failure::CommandUnsupported)
        }),
{
}

} // verus!
