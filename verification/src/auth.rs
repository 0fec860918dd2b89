//! The client of the certificate authority.
//!
//! The client lists, issues and revokes certificates. Each operation is one
//! request and one reply on the client's session. The client decides what
//! is sent and what a reply means; sending and receiving are the caller's.
//! An operation is begun with [`Auth::list`], [`Auth::add`] or
//! [`Auth::delete`], which hand out the request, and ended with
//! [`Auth::receive`], which takes what came back.

use vstd::prelude::*;
use vstd::string::StringExecFns;
use crate::cert::Cert;
use crate::cert::CertView;
use crate::project::ProjectConfig;
use crate::transport::endpoint;
use crate::transport::endpoint_spec;
use crate::transport::exchange_result;
use crate::transport::session_after;
use crate::transport::Event;
use crate::transport::PeerIdentity;
use crate::transport::Session;
use crate::transport::SessionView;
use crate::transport::State;
use crate::transport::TransportError;
use crate::wire::create_reply_spec;
use crate::wire::create_request;
use crate::wire::create_request_spec;
use crate::wire::delete_reply_spec;
use crate::wire::delete_request;
use crate::wire::delete_request_spec;
use crate::wire::frames;
use crate::wire::list_reply_spec;
use crate::wire::list_request;
use crate::wire::list_request_spec;
use crate::wire::parse_create_reply;
use crate::wire::parse_delete_reply;
use crate::wire::parse_list_reply;
use crate::wire::texts;
use crate::wire::Outcome;

verus! {

/// Why the authority's reply did not grant the request.
#[derive(Debug)]
pub enum Error {
    /// The authority refused the request; holds its message.
    AuthorityError(String),
    /// The reply breaks the protocol: no status, a status that is neither
    /// `Ok` nor `Err`, a wrong number of frames, or a frame that does not
    /// hold what it should.
    MalformedReply,
}

/// The operations of the authority.
#[derive(Clone, Copy, Debug, PartialEq, Eq, Structural)]
pub enum Verb {
    List,
    Create,
    Delete,
}

/// What the authority granted.
pub enum Answer {
    /// The names of the certificates of the type asked for, in the order
    /// in which the authority gave them.
    Names(Vec<String>),
    /// The certificate that was issued.
    Issued(Cert),
    /// The certificate was revoked.
    Deleted,
}

/// An answer as mathematical values.
pub enum AnswerView {
    Names(Seq<Seq<char>>),
    Issued(CertView),
    Deleted,
}

impl View for Answer {
    type V = AnswerView;

    open spec fn view(&self) -> AnswerView {
        match self {
            Answer::Names(names) => AnswerView::Names(texts(names@)),
            Answer::Issued(cert) => AnswerView::Issued(cert@),
            Answer::Deleted => AnswerView::Deleted,
        }
    }
}

/// The client.
pub struct Auth {
    session: Session,
    pending: Option<Verb>,
}

/// A client as mathematical values.
pub struct AuthView {
    /// The session with the authority.
    pub session: SessionView,
    /// The operation whose reply is awaited, if any.
    pub pending: Option<Verb>,
}

impl View for Auth {
    type V = AuthView;

    closed spec fn view(&self) -> AuthView {
        AuthView { session: self.session@, pending: self.pending }
    }
}

/// What the error says, for the operator.
pub open spec fn auth_error_message(e: Error) -> Seq<char> {
    match e {
        Error::AuthorityError(m) => "Auth server encountered an error: "@ + m@,
        Error::MalformedReply => "Invalid response from host"@,
    }
}

/// The kind of error: the authority's message, or that the reply was
/// invalid.
pub open spec fn auth_error_description(e: Error) -> Seq<char> {
    match e {
        Error::AuthorityError(m) => m@,
        Error::MalformedReply => "Invalid response from host"@,
    }
}

/// What `reply` means as the answer to `verb`.
pub open spec fn answer_spec(verb: Verb, reply: Seq<Seq<u8>>) -> Outcome<AnswerView> {
    match verb {
        Verb::List => match list_reply_spec(reply) {
            Outcome::Granted(names) => Outcome::Granted(AnswerView::Names(names)),
            Outcome::Refused(m) => Outcome::Refused(m),
            Outcome::Malformed => Outcome::Malformed,
        },
        Verb::Create => match create_reply_spec(reply) {
            Outcome::Granted(cert) => Outcome::Granted(AnswerView::Issued(cert)),
            Outcome::Refused(m) => Outcome::Refused(m),
            Outcome::Malformed => Outcome::Malformed,
        },
        Verb::Delete => match delete_reply_spec(reply) {
            Outcome::Granted(_) => Outcome::Granted(AnswerView::Deleted),
            Outcome::Refused(m) => Outcome::Refused(m),
            Outcome::Malformed => Outcome::Malformed,
        },
    }
}

/// The client after it asked for the turn to send the request of `verb`.
pub open spec fn after_request(before: AuthView, verb: Verb) -> AuthView {
    if before.session.state == State::Connected {
        AuthView {
            session: SessionView { state: State::AwaitingReply, ..before.session },
            pending: Some(verb),
        }
    } else {
        before
    }
}

/// The client after it took `event`.
pub open spec fn after_event(before: AuthView, event: Event) -> AuthView {
    AuthView {
        session: SessionView {
            state: session_after(before.session.state, event),
            ..before.session
        },
        pending: None,
    }
}

impl Error {
    /// What the error says, for the operator.
    pub fn message(&self) -> (out: String)
        ensures
            out@ == auth_error_message(*self),
    {
        match self {
            Error::AuthorityError(m) => "Auth server encountered an error: ".to_owned().concat(
                m.as_str(),
            ),
            Error::MalformedReply => "Invalid response from host".to_owned(),
        }
    }

    /// The kind of error: the authority's message, or that the reply was
    /// invalid.
    pub fn description(&self) -> (out: &str)
        ensures
            out@ == auth_error_description(*self),
    {
        match self {
            Error::AuthorityError(m) => m.as_str(),
            Error::MalformedReply => "Invalid response from host",
        }
    }
}

impl Auth {
    /// A request is under way exactly when the session awaits a reply.
    pub open spec fn wf(&self) -> bool {
        self@.pending is Some <==> self@.session.state == State::AwaitingReply
    }

    /// A client for the authority that `config` names. This side is known
    /// by `identity` and trusts only `peer`. The session is for the
    /// authority's request service, is not connected yet, and no request is
    /// under way.
    pub fn new(config: &ProjectConfig, identity: Cert, peer: PeerIdentity) -> (auth: Auth)
        ensures
            auth.wf(),
            auth@.pending is None,
            auth@.session.state == State::Disconnected,
            auth@.session.endpoint == endpoint_spec(
                config.auth_server@,
                config.auth_api_port as nat,
            ),
            auth@.session.identity == identity@,
            auth@.session.peer_key == peer.key(),
            auth@.session.send_timeout == crate::transport::DEFAULT_TIMEOUT_MS,
            auth@.session.recv_timeout == crate::transport::DEFAULT_TIMEOUT_MS,
    {
        let address = endpoint(config.auth_server.as_str(), config.auth_api_port);
        Auth { session: Session::new(address, identity, peer), pending: None }
    }

    /// The session with the authority.
    pub fn session(&self) -> (s: &Session)
        ensures
            s@ == self@.session,
    {
        &self.session
    }

    /// The operation whose reply is awaited, if any.
    pub fn pending(&self) -> (v: Option<Verb>)
        ensures
            v == self@.pending,
    {
        self.pending
    }

    /// Takes note of how connecting went (see [`Session::connect`]).
    pub fn connect(&mut self, opened: bool) -> (r: Result<(), crate::error::Error>)
        ensures
            old(self).wf() ==> final(self).wf(),
            final(self)@.pending == old(self)@.pending,
            final(self)@.session == (SessionView {
                state: if old(self)@.session.state == State::Disconnected && opened {
                    State::Connected
                } else {
                    old(self)@.session.state
                },
                ..old(self)@.session
            }),
            old(self)@.session.state == State::Disconnected && !opened ==> r matches Err(
                crate::error::Error::Transport(TransportError::Connect),
            ),
            !(old(self)@.session.state == State::Disconnected && !opened) ==> r is Ok,
    {
        match self.session.connect(opened) {
            Ok(()) => Ok(()),
            Err(e) => Err(crate::error::Error::Transport(e)),
        }
    }

    fn begin(&mut self, verb: Verb) -> (r: Result<(), crate::error::Error>)
        ensures
            old(self).wf() ==> final(self).wf(),
            final(self)@ == after_request(old(self)@, verb),
            old(self)@.session.state == State::Connected ==> r is Ok,
            old(self)@.session.state != State::Connected ==> r matches Err(
                crate::error::Error::Transport(TransportError::Send),
            ),
    {
        match self.session.begin_request() {
            Ok(()) => {
                self.pending = Some(verb);
                Ok(())
            },
            Err(e) => Err(crate::error::Error::Transport(e)),
        }
    }

    /// Begins to list the certificates of type `cert_type`: hands out the
    /// request to send. The request is refused, and nothing changes, unless
    /// the session is connected and no other request is under way.
    pub fn list(&mut self, cert_type: &str) -> (r: Result<Vec<String>, crate::error::Error>)
        ensures
            old(self).wf() ==> final(self).wf(),
            final(self)@ == after_request(old(self)@, Verb::List),
            old(self)@.session.state == State::Connected ==> (r matches Ok(req) && texts(req@)
                == list_request_spec(cert_type@)),
            old(self)@.session.state != State::Connected ==> r matches Err(
                crate::error::Error::Transport(TransportError::Send),
            ),
    {
        match self.begin(Verb::List) {
            Ok(()) => Ok(list_request(cert_type)),
            Err(e) => Err(e),
        }
    }

    /// Begins to issue a certificate of type `cert_type` for `name`: hands
    /// out the request to send. The request is refused, and nothing
    /// changes, unless the session is connected and no other request is
    /// under way.
    pub fn add(&mut self, cert_type: &str, name: &str) -> (r: Result<
        Vec<String>,
        crate::error::Error,
    >)
        ensures
            old(self).wf() ==> final(self).wf(),
            final(self)@ == after_request(old(self)@, Verb::Create),
            old(self)@.session.state == State::Connected ==> (r matches Ok(req) && texts(req@)
                == create_request_spec(cert_type@, name@)),
            old(self)@.session.state != State::Connected ==> r matches Err(
                crate::error::Error::Transport(TransportError::Send),
            ),
    {
        match self.begin(Verb::Create) {
            Ok(()) => Ok(create_request(cert_type, name)),
            Err(e) => Err(e),
        }
    }

    /// Begins to revoke the certificate called `name`: hands out the
    /// request to send. The request is refused, and nothing changes, unless
    /// the session is connected and no other request is under way.
    pub fn delete(&mut self, name: &str) -> (r: Result<Vec<String>, crate::error::Error>)
        ensures
            old(self).wf() ==> final(self).wf(),
            final(self)@ == after_request(old(self)@, Verb::Delete),
            old(self)@.session.state == State::Connected ==> (r matches Ok(req) && texts(req@)
                == delete_request_spec(name@)),
            old(self)@.session.state != State::Connected ==> r matches Err(
                crate::error::Error::Transport(TransportError::Send),
            ),
    {
        match self.begin(Verb::Delete) {
            Ok(()) => Ok(delete_request(name)),
            Err(e) => Err(e),
        }
    }

    /// Ends the operation under way with what came of its request.
    ///
    /// A reply is decoded as the answer to the operation that was begun. A
    /// timeout or a closed connection is reported as such and closes the
    /// session (see [`exchange_result`] and [`session_after`]). Either way
    /// no request is under way afterwards. Where none was under way,
    /// nothing changes and the event is refused.
    pub fn receive(&mut self, event: Event) -> (r: Result<Answer, crate::error::Error>)
        ensures
            old(self).wf() ==> final(self).wf(),
            match old(self)@.pending {
                None => final(self)@ == old(self)@ && r matches Err(
                    crate::error::Error::Transport(TransportError::Send),
                ),
                Some(verb) => final(self)@ == after_event(old(self)@, event) && match exchange_result(
                    old(self)@.session.state,
                    event,
                ) {
                    Ok(reply) => match answer_spec(verb, frames(reply@)) {
                        Outcome::Granted(answer) => r matches Ok(a) && a@ == answer,
                        Outcome::Refused(m) => r matches Err(
                            crate::error::Error::Auth(Error::AuthorityError(text)),
                        ) && text@ == m,
                        Outcome::Malformed => r matches Err(
                            crate::error::Error::Auth(Error::MalformedReply),
                        ),
                    },
                    Err(e) => r matches Err(crate::error::Error::Transport(f)) && f == e,
                },
            },
    {
        let verb = match self.pending {
            Some(verb) => verb,
            None => {
                return Err(crate::error::Error::Transport(TransportError::Send));
            },
        };
        let completed = self.session.complete(event);
        self.pending = None;
        let reply = match completed {
            Ok(reply) => reply,
            Err(e) => {
                return Err(crate::error::Error::Transport(e));
            },
        };
        let decoded = match verb {
            Verb::List => match parse_list_reply(&reply) {
                Ok(names) => Ok(Answer::Names(names)),
                Err(e) => Err(e),
            },
            Verb::Create => match parse_create_reply(&reply) {
                Ok(cert) => Ok(Answer::Issued(cert)),
                Err(e) => Err(e),
            },
            Verb::Delete => match parse_delete_reply(&reply) {
                Ok(()) => Ok(Answer::Deleted),
                Err(e) => Err(e),
            },
        };
        match decoded {
            Ok(answer) => Ok(answer),
            Err(e) => Err(crate::error::Error::Auth(e)),
        }
    }
}

} // verus!
