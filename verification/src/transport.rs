//! The session with the certificate authority: one encrypted channel on
//! which requests and replies strictly take turns.
//!
//! The library holds what a session is made with and where it stands; the
//! socket itself is the caller's. The caller opens the socket as the
//! session says, tells the session what happened, and may send only when
//! the session is ready for it.

use vstd::prelude::*;
use vstd::string::StringExecFns;
use crate::cert::is_key_text;
use crate::cert::key_text;
use crate::cert::Cert;
use crate::text::decimal;
use crate::text::decimal_spec;

verus! {

/// Time, in milliseconds, that a send or a receive may take.
pub const DEFAULT_TIMEOUT_MS: i32 = 5000;

/// Why an exchange with the authority did not take place.
#[derive(Clone, Copy, Debug, PartialEq, Eq, Structural)]
pub enum TransportError {
    /// The socket could not be made or connected.
    Connect,
    /// The request could not be sent.
    Send,
    /// No reply came in time.
    Timeout,
    /// The peer closed or reset the connection.
    PeerClosed,
}

/// The identity of the peer: its long-term public key, known beforehand.
pub struct PeerIdentity {
    public_txt: String,
}

/// Where a session stands.
#[derive(Clone, Copy, Debug, PartialEq, Eq, Structural)]
pub enum State {
    /// Not connected, or closed after a failure.
    Disconnected,
    /// Connected, with no request under way.
    Connected,
    /// A request was sent and its reply has not come.
    AwaitingReply,
}

/// What came of a request.
#[derive(Debug)]
pub enum Event {
    /// The frames of the reply.
    Reply(Vec<Vec<u8>>),
    /// No reply came in time.
    Timeout,
    /// The peer closed or reset the connection.
    PeerClosed,
}

/// A session with the authority.
pub struct Session {
    endpoint: String,
    identity: Cert,
    peer: PeerIdentity,
    send_timeout: i32,
    recv_timeout: i32,
    state: State,
}

/// A session's parts as mathematical values.
pub struct SessionView {
    pub endpoint: Seq<char>,
    pub identity: crate::cert::CertView,
    pub peer_key: Seq<char>,
    pub send_timeout: int,
    pub recv_timeout: int,
    pub state: State,
}

/// The address of the service at `port` of `server`.
pub open spec fn endpoint_spec(server: Seq<char>, port: nat) -> Seq<char> {
    "tcp://"@ + server + ":"@ + decimal_spec(port)
}

/// What the error says, for the operator.
pub open spec fn transport_error_message(e: TransportError) -> Seq<char> {
    match e {
        TransportError::Connect => "Could not connect to the auth server"@,
        TransportError::Send => "Could not send the request to the auth server"@,
        TransportError::Timeout => "Timed out waiting for the auth server"@,
        TransportError::PeerClosed => "The auth server closed the connection"@,
    }
}

/// The address of the service at `port` of `server`.
pub fn endpoint(server: &str, port: u32) -> (out: String)
    ensures
        out@ == endpoint_spec(server@, port as nat),
{
    let mut out = "tcp://".to_owned();
    out.append(server);
    out.append(":");
    let digits = decimal(port);
    out.append(digits.as_str());
    out
}

impl TransportError {
    /// What the error says, for the operator.
    pub fn message(&self) -> (out: &'static str)
        ensures
            out@ == transport_error_message(*self),
    {
        match self {
            TransportError::Connect => "Could not connect to the auth server",
            TransportError::Send => "Could not send the request to the auth server",
            TransportError::Timeout => "Timed out waiting for the auth server",
            TransportError::PeerClosed => "The auth server closed the connection",
        }
    }
}

impl PeerIdentity {
    /// The peer's public key, in text.
    pub closed spec fn key(&self) -> Seq<char> {
        self.public_txt@
    }

    #[verifier::type_invariant]
    spec fn inv(&self) -> bool {
        is_key_text(self.public_txt@)
    }

    /// The identity with the public key `public_txt`. `None` where the
    /// text is not a well-formed key.
    pub fn new(public_txt: &str) -> (r: Option<PeerIdentity>)
        ensures
            r is Some <==> is_key_text(public_txt@),
            r matches Some(p) ==> p.key() == public_txt@,
    {
        if key_text(public_txt) {
            Some(PeerIdentity { public_txt: public_txt.to_owned() })
        } else {
            None
        }
    }

    /// The peer's public key, in text.
    pub fn public_txt(&self) -> (r: &str)
        ensures
            r@ == self.key(),
            is_key_text(r@),
    {
        proof {
            use_type_invariant(self);
        }
        self.public_txt.as_str()
    }
}

impl View for Session {
    type V = SessionView;

    closed spec fn view(&self) -> SessionView {
        SessionView {
            endpoint: self.endpoint@,
            identity: self.identity@,
            peer_key: self.peer.key(),
            send_timeout: self.send_timeout as int,
            recv_timeout: self.recv_timeout as int,
            state: self.state,
        }
    }
}

impl Session {
    /// A session for `endpoint`, in which this side is known by `identity`
    /// and trusts only `peer`. It is not connected yet, and gives a send or
    /// a receive the default time.
    pub fn new(endpoint: String, identity: Cert, peer: PeerIdentity) -> (s: Session)
        ensures
            s@ == (SessionView {
                endpoint: endpoint@,
                identity: identity@,
                peer_key: peer.key(),
                send_timeout: DEFAULT_TIMEOUT_MS as int,
                recv_timeout: DEFAULT_TIMEOUT_MS as int,
                state: State::Disconnected,
            }),
    {
        Session {
            endpoint,
            identity,
            peer,
            send_timeout: DEFAULT_TIMEOUT_MS,
            recv_timeout: DEFAULT_TIMEOUT_MS,
            state: State::Disconnected,
        }
    }

    /// The address to connect to.
    pub fn endpoint(&self) -> (r: &str)
        ensures
            r@ == self@.endpoint,
    {
        self.endpoint.as_str()
    }

    /// The certificate by which this side is known.
    pub fn identity(&self) -> (r: &Cert)
        ensures
            r@ == self@.identity,
    {
        &self.identity
    }

    /// The peer that this side trusts.
    pub fn peer(&self) -> (r: &PeerIdentity)
        ensures
            r.key() == self@.peer_key,
    {
        &self.peer
    }

    /// Time, in milliseconds, that a send may take.
    pub fn send_timeout(&self) -> (r: i32)
        ensures
            r == self@.send_timeout,
    {
        self.send_timeout
    }

    /// Time, in milliseconds, that a receive may take.
    pub fn recv_timeout(&self) -> (r: i32)
        ensures
            r == self@.recv_timeout,
    {
        self.recv_timeout
    }

    /// Where the session stands.
    pub fn state(&self) -> (r: State)
        ensures
            r == self@.state,
    {
        self.state
    }

    /// Takes note of how connecting went. A session that is not
    /// disconnected stays as it is and reports success.
    pub fn connect(&mut self, opened: bool) -> (r: Result<(), TransportError>)
        ensures
            final(self)@ == (SessionView {
                state: if old(self)@.state == State::Disconnected && opened {
                    State::Connected
                } else {
                    old(self)@.state
                },
                ..old(self)@
            }),
            r == if old(self)@.state == State::Disconnected && !opened {
                Err::<(), TransportError>(TransportError::Connect)
            } else {
                Ok::<(), TransportError>(())
            },
    {
        if self.state == State::Disconnected {
            if opened {
                self.state = State::Connected;
                Ok(())
            } else {
                Err(TransportError::Connect)
            }
        } else {
            Ok(())
        }
    }

    /// Asks for the turn to send a request. The turn is given only to a
    /// connected session with no request under way, which then awaits the
    /// reply; any other session stays as it is and is refused.
    pub fn begin_request(&mut self) -> (r: Result<(), TransportError>)
        ensures
            final(self)@ == (SessionView {
                state: if old(self)@.state == State::Connected {
                    State::AwaitingReply
                } else {
                    old(self)@.state
                },
                ..old(self)@
            }),
            r == if old(self)@.state == State::Connected {
                Ok::<(), TransportError>(())
            } else {
                Err::<(), TransportError>(TransportError::Send)
            },
    {
        if self.state == State::Connected {
            self.state = State::AwaitingReply;
            Ok(())
        } else {
            Err(TransportError::Send)
        }
    }

    /// Takes what came of the request under way. A reply ends the turn and
    /// is handed on; a failure closes the session. Where no request is
    /// under way the session stays as it is and the event is dropped.
    pub fn complete(&mut self, event: Event) -> (r: Result<Vec<Vec<u8>>, TransportError>)
        ensures
            final(self)@ == (SessionView {
                state: session_after(old(self)@.state, event),
                ..old(self)@
            }),
            match exchange_result(old(self)@.state, event) {
                Ok(frames) => r matches Ok(f) && f == frames,
                Err(e) => r matches Err(f) && f == e,
            },
    {
        if self.state == State::AwaitingReply {
            match event {
                Event::Reply(frames) => {
                    self.state = State::Connected;
                    Ok(frames)
                },
                Event::Timeout => {
                    self.state = State::Disconnected;
                    Err(TransportError::Timeout)
                },
                Event::PeerClosed => {
                    self.state = State::Disconnected;
                    Err(TransportError::PeerClosed)
                },
            }
        } else {
            Err(TransportError::Send)
        }
    }
}

/// Where a session stands after `event`, if it stood at `state`.
pub open spec fn session_after(state: State, event: Event) -> State {
    if state == State::AwaitingReply {
        match event {
            Event::Reply(_) => State::Connected,
            Event::Timeout => State::Disconnected,
            Event::PeerClosed => State::Disconnected,
        }
    } else {
        state
    }
}

/// What the caller gets for `event`, if the session stood at `state`.
pub open spec fn exchange_result(state: State, event: Event) -> Result<
    Vec<Vec<u8>>,
    TransportError,
> {
    if state == State::AwaitingReply {
        match event {
            Event::Reply(frames) => Ok(frames),
            Event::Timeout => Err(TransportError::Timeout),
            Event::PeerClosed => Err(TransportError::PeerClosed),
        }
    } else {
        Err(TransportError::Send)
    }
}

} // verus!
